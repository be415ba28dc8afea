//! Routing of device memory requests over the memory types and heaps of a
//! graphics device, with the byte budget of every heap enforced.
//!
//! A device offers memory of a few types. Each type has its properties
//! and takes its memory from one heap, and a heap has so many bytes and
//! no more. [`Heaps`] takes a request for memory, picks the memory type
//! that serves it best among those that the request admits and whose
//! heap has room, has a strategy of that type produce the block, and
//! charges the heap for it. Freeing a block takes the charge off again.
//!
//! The strategies are the caller's: see [`Allocators`]. The choice of the
//! memory type, the choice of the strategy, and the accounting are
//! verified, and [`laws`] states what holds of them over any run of
//! requests.

pub mod allocator;
pub mod block;
pub mod config;
pub mod error;
pub mod heap;
pub mod heaps;
pub mod laws;
pub mod memory;
pub mod memory_type;
pub mod model;
pub mod stats;
pub mod text;
pub mod usage;

pub use allocator::Allocators;
pub use block::{BlockFlavor, DedicatedBlock, GeneralBlock, LinearBlock, MemoryBlock};
pub use config::{GeneralConfig, HeapsConfig, LinearConfig};
pub use error::{AllocationError, HeapsError, OutOfMemory};
pub use heaps::Heaps;
pub use memory::{Properties, Segment, Size};
pub use stats::{MemoryHeapUtilization, MemoryTypeUtilization, TotalMemoryUtilization};
pub use usage::{Kind, MemoryUsage};
