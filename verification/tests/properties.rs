use gfx_hal::memory::Properties as DeviceProperties;
use gfx_memory::memory::{
    ALL_FLAGS, COHERENT, CPU_CACHED, CPU_VISIBLE, DEVICE_LOCAL, LAZILY_ALLOCATED,
};
use gfx_memory::Properties;

#[test]
fn each_flag_has_its_bit() {
    assert_eq!(Properties::device_local().bits(), 0x01);
    assert_eq!(Properties::cpu_visible().bits(), 0x02);
    assert_eq!(Properties::coherent().bits(), 0x04);
    assert_eq!(Properties::cpu_cached().bits(), 0x08);
    assert_eq!(Properties::lazily_allocated().bits(), 0x10);
    assert_eq!(Properties::empty().bits(), 0);
    assert_eq!(Properties::all().bits(), 0x1f);
    assert_eq!(
        [DEVICE_LOCAL, CPU_VISIBLE, COHERENT, CPU_CACHED, LAZILY_ALLOCATED, ALL_FLAGS],
        [0x01, 0x02, 0x04, 0x08, 0x10, 0x1f]
    );
}

#[test]
fn flags_have_the_bits_that_the_device_layer_gives_them() {
    assert_eq!(Properties::device_local().bits(), DeviceProperties::DEVICE_LOCAL.bits());
    assert_eq!(Properties::cpu_visible().bits(), DeviceProperties::CPU_VISIBLE.bits());
    assert_eq!(Properties::coherent().bits(), DeviceProperties::COHERENT.bits());
    assert_eq!(Properties::cpu_cached().bits(), DeviceProperties::CPU_CACHED.bits());
    assert_eq!(Properties::lazily_allocated().bits(), DeviceProperties::LAZILY_ALLOCATED.bits());
    assert_eq!(Properties::all().bits(), DeviceProperties::all().bits());
    assert_eq!(Properties::empty().bits(), DeviceProperties::empty().bits());
}

#[test]
fn from_bits_truncate_drops_what_is_no_flag() {
    assert_eq!(Properties::from_bits_truncate(0xffff), Properties::all());
    assert_eq!(Properties::from_bits_truncate(0xffe0), Properties::empty());
    assert_eq!(Properties::from_bits_truncate(0x25).bits(), 0x05);
    for bits in 0..=u16::MAX {
        assert_eq!(
            Properties::from_bits_truncate(bits).bits(),
            DeviceProperties::from_bits_truncate(bits).bits()
        );
    }
}

#[test]
fn contains_asks_for_every_flag() {
    let host = Properties::cpu_visible().union(Properties::coherent());
    assert!(host.contains(Properties::cpu_visible()));
    assert!(host.contains(Properties::coherent()));
    assert!(host.contains(host));
    assert!(host.contains(Properties::empty()));
    assert!(!host.contains(Properties::device_local()));
    assert!(!host.contains(Properties::cpu_visible().union(Properties::cpu_cached())));
    assert!(!Properties::empty().contains(Properties::cpu_visible()));
    assert!(Properties::empty().contains(Properties::empty()));
}

#[test]
fn contains_and_union_agree_with_the_device_layer() {
    for a in 0u16..32 {
        for b in 0u16..32 {
            let ours = Properties::from_bits_truncate(a);
            let other = Properties::from_bits_truncate(b);
            let theirs = DeviceProperties::from_bits_truncate(a);
            let their_other = DeviceProperties::from_bits_truncate(b);
            assert_eq!(ours.contains(other), theirs.contains(their_other));
            assert_eq!(ours.union(other).bits(), (theirs | their_other).bits());
        }
    }
}

#[test]
fn union_has_the_flags_of_both() {
    let set = Properties::device_local().union(Properties::cpu_cached());
    assert_eq!(set.bits(), 0x09);
    assert_eq!(set.union(set), set);
    assert_eq!(set.union(Properties::empty()), set);
    assert_eq!(set.union(Properties::all()), Properties::all());
}

#[test]
fn names_lists_the_flags_in_the_order_of_their_bits() {
    assert_eq!(Properties::device_local().names(), "DEVICE_LOCAL");
    assert_eq!(Properties::cpu_visible().names(), "CPU_VISIBLE");
    assert_eq!(Properties::coherent().names(), "COHERENT");
    assert_eq!(Properties::cpu_cached().names(), "CPU_CACHED");
    assert_eq!(Properties::lazily_allocated().names(), "LAZILY_ALLOCATED");
    assert_eq!(Properties::empty().names(), "(empty)");
    assert_eq!(
        Properties::all().names(),
        "DEVICE_LOCAL | CPU_VISIBLE | COHERENT | CPU_CACHED | LAZILY_ALLOCATED"
    );
    assert_eq!(
        Properties::cpu_cached().union(Properties::cpu_visible()).names(),
        "CPU_VISIBLE | CPU_CACHED"
    );
}

#[test]
fn names_of_every_set_are_the_names_of_its_flags_in_order() {
    let flags = [
        (DEVICE_LOCAL, "DEVICE_LOCAL"),
        (CPU_VISIBLE, "CPU_VISIBLE"),
        (COHERENT, "COHERENT"),
        (CPU_CACHED, "CPU_CACHED"),
        (LAZILY_ALLOCATED, "LAZILY_ALLOCATED"),
    ];
    for bits in 1u16..32 {
        let mut expected = String::new();
        for (flag, name) in flags {
            if bits & flag != 0 {
                if !expected.is_empty() {
                    expected.push_str(" | ");
                }
                expected.push_str(name);
            }
        }
        assert_eq!(Properties::from_bits_truncate(bits).names(), expected);
        assert_eq!(Properties::from_bits_truncate(bits | 0xff00).names(), expected);
    }
    assert_eq!(Properties::from_bits_truncate(0xffe0).names(), "(empty)");
}

#[test]
fn names_are_those_of_the_device_layer() {
    for bits in 0u16..32 {
        assert_eq!(
            Properties::from_bits_truncate(bits).names(),
            format!("{:?}", DeviceProperties::from_bits_truncate(bits))
        );
    }
}
