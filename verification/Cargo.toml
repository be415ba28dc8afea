[package]
name = "gfx-memory"
version = "0.1.0"
edition = "2021"
publish = false

[dependencies]
gfx-hal = "0.6"
log = "0.4"
serde = { version = "1", features = ["derive"] }
