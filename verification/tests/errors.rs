use gfx_memory::error::no_suitable_memory_message;
use gfx_memory::{AllocationError, HeapsError, OutOfMemory, Properties};

#[test]
fn an_allocation_error_lies_under_the_failure_that_wraps_it() {
    let cause = AllocationError::OutOfMemory(OutOfMemory::Device);
    assert_eq!(HeapsError::AllocationError(cause).source(), Some(cause));
    let cause = AllocationError::TooManyObjects;
    assert_eq!(HeapsError::AllocationError(cause).source(), Some(cause));
}

#[test]
fn nothing_lies_under_no_suitable_memory() {
    let error = HeapsError::NoSuitableMemory(0b101, Properties::cpu_visible());
    assert_eq!(error.source(), None);
}

#[test]
fn errors_convert_into_the_failures_that_wrap_them() {
    assert_eq!(
        AllocationError::from(OutOfMemory::Host),
        AllocationError::OutOfMemory(OutOfMemory::Host)
    );
    assert_eq!(
        HeapsError::from(AllocationError::TooManyObjects),
        HeapsError::AllocationError(AllocationError::TooManyObjects)
    );
    assert_eq!(
        HeapsError::from(OutOfMemory::Device),
        HeapsError::AllocationError(AllocationError::OutOfMemory(OutOfMemory::Device))
    );
    let converted: HeapsError = OutOfMemory::Host.into();
    assert_eq!(
        converted,
        HeapsError::AllocationError(AllocationError::OutOfMemory(OutOfMemory::Host))
    );
}

#[test]
fn the_two_kinds_of_failure_differ() {
    let none = HeapsError::NoSuitableMemory(1, Properties::device_local());
    let full = HeapsError::AllocationError(AllocationError::OutOfMemory(OutOfMemory::Device));
    assert_ne!(none, full);
    assert_ne!(none, HeapsError::NoSuitableMemory(2, Properties::device_local()));
    assert_ne!(none, HeapsError::NoSuitableMemory(1, Properties::cpu_visible()));
}

#[test]
fn an_allocation_error_is_shown_by_its_name() {
    assert_eq!(OutOfMemory::Host.message(), "Host");
    assert_eq!(OutOfMemory::Device.message(), "Device");
    assert_eq!(AllocationError::OutOfMemory(OutOfMemory::Host).message(), "OutOfMemory(Host)");
    assert_eq!(AllocationError::OutOfMemory(OutOfMemory::Device).message(), "OutOfMemory(Device)");
    assert_eq!(AllocationError::TooManyObjects.message(), "TooManyObjects");
    let error = HeapsError::AllocationError(AllocationError::OutOfMemory(OutOfMemory::Device));
    assert_eq!(error.message(), "OutOfMemory(Device)");
    let error = HeapsError::AllocationError(AllocationError::TooManyObjects);
    assert_eq!(error.message(), "TooManyObjects");
}

#[test]
fn an_allocation_error_is_shown_as_the_device_layer_shows_it() {
    let pairs = [
        (
            AllocationError::OutOfMemory(OutOfMemory::Host),
            gfx_hal::device::AllocationError::OutOfMemory(gfx_hal::device::OutOfMemory::Host),
        ),
        (
            AllocationError::OutOfMemory(OutOfMemory::Device),
            gfx_hal::device::AllocationError::OutOfMemory(gfx_hal::device::OutOfMemory::Device),
        ),
        (AllocationError::TooManyObjects, gfx_hal::device::AllocationError::TooManyObjects),
    ];
    for (ours, theirs) in pairs {
        assert_eq!(ours.message(), format!("{:?}", theirs));
    }
}

#[test]
fn no_suitable_memory_is_shown_with_its_mask_and_the_names_of_the_flags() {
    let host = Properties::cpu_visible().union(Properties::coherent());
    assert_eq!(
        HeapsError::NoSuitableMemory(3, host).message(),
        "Memory type among (3) with properties (CPU_VISIBLE | COHERENT) not found"
    );
    assert_eq!(
        HeapsError::NoSuitableMemory(u32::MAX, Properties::device_local()).message(),
        "Memory type among (4294967295) with properties (DEVICE_LOCAL) not found"
    );
    assert_eq!(
        HeapsError::NoSuitableMemory(0, Properties::empty()).message(),
        "Memory type among (0) with properties ((empty)) not found"
    );
}

#[test]
fn the_message_of_no_suitable_memory_takes_the_names_as_they_are_given() {
    assert_eq!(
        no_suitable_memory_message(10, "ANY"),
        "Memory type among (10) with properties (ANY) not found"
    );
    assert_eq!(
        no_suitable_memory_message(0, ""),
        "Memory type among (0) with properties () not found"
    );
}
