//! Plain descriptions of device memory: sizes, property flags and segments.

use vstd::prelude::*;

verus! {

/// A number of bytes of device memory.
pub type Size = u64;

/// Bit of the flag for memory that is local to the device.
pub const DEVICE_LOCAL: u16 = 0x1;

/// Bit of the flag for memory that the host can map and access.
pub const CPU_VISIBLE: u16 = 0x2;

/// Bit of the flag for memory that stays coherent between host and device
/// without explicit flushes.
pub const COHERENT: u16 = 0x4;

/// Bit of the flag for memory that the host caches.
pub const CPU_CACHED: u16 = 0x8;

/// Bit of the flag for memory that the device may allocate lazily.
pub const LAZILY_ALLOCATED: u16 = 0x10;

/// The bits of all five flags.
pub const ALL_FLAGS: u16 = 0x1f;

/// What the flag with the bit `flag` adds to the names of the flags in
/// `mask`: nothing where `mask` lacks the flag, and else its `name`,
/// after a separator where `mask` has one of the `earlier` flags too.
pub open spec fn listed(mask: u16, flag: u16, earlier: u16, name: Seq<char>) -> Seq<char> {
    if mask & flag != flag {
        Seq::empty()
    } else if mask & earlier == 0 {
        name
    } else {
        " | "@ + name
    }
}

/// The names of the flags in the set with the mask `bits`, in the order
/// of their bits and with a separator between them; a word in brackets
/// for the set without flags. Bits that are no flag count for nothing.
pub open spec fn flag_names(bits: u16) -> Seq<char> {
    if bits & ALL_FLAGS == 0 {
        "(empty)"@
    } else {
        listed(bits, DEVICE_LOCAL, 0x0, "DEVICE_LOCAL"@) + listed(
            bits,
            CPU_VISIBLE,
            0x1,
            "CPU_VISIBLE"@,
        ) + listed(bits, COHERENT, 0x3, "COHERENT"@) + listed(
            bits,
            CPU_CACHED,
            0x7,
            "CPU_CACHED"@,
        ) + listed(bits, LAZILY_ALLOCATED, 0xf, "LAZILY_ALLOCATED"@)
    }
}

/// A set of memory property flags.
///
/// The view of a set is its bit mask; no bit outside [`ALL_FLAGS`] is ever
/// set in it.
#[derive(Clone, Copy, Debug, PartialEq, Eq, Hash, Structural)]
pub struct Properties {
    bits: u16,
}

impl View for Properties {
    type V = u16;

    closed spec fn view(&self) -> u16 {
        self.bits
    }
}

impl Properties {
    #[verifier::type_invariant]
    spec fn in_range(self) -> bool {
        self.bits <= ALL_FLAGS
    }

    /// Whether every bit of `mask` is set in `self`.
    pub open spec fn has(self, mask: u16) -> bool {
        self@ & mask == mask
    }

    /// Whether every flag of `other` is also a flag of `self`.
    pub open spec fn includes(self, other: Properties) -> bool {
        self.has(other@)
    }

    /// The set that holds only the device-local flag.
    pub fn device_local() -> (set: Properties)
        ensures
            set@ == DEVICE_LOCAL,
    {
        Properties { bits: DEVICE_LOCAL }
    }

    /// The set that holds only the host-visible flag.
    pub fn cpu_visible() -> (set: Properties)
        ensures
            set@ == CPU_VISIBLE,
    {
        Properties { bits: CPU_VISIBLE }
    }

    /// The set that holds only the coherent flag.
    pub fn coherent() -> (set: Properties)
        ensures
            set@ == COHERENT,
    {
        Properties { bits: COHERENT }
    }

    /// The set that holds only the host-cached flag.
    pub fn cpu_cached() -> (set: Properties)
        ensures
            set@ == CPU_CACHED,
    {
        Properties { bits: CPU_CACHED }
    }

    /// The set that holds only the lazily-allocated flag.
    pub fn lazily_allocated() -> (set: Properties)
        ensures
            set@ == LAZILY_ALLOCATED,
    {
        Properties { bits: LAZILY_ALLOCATED }
    }

    /// The set without any flag.
    pub fn empty() -> (set: Properties)
        ensures
            set@ == 0,
    {
        Properties { bits: 0 }
    }

    /// The set of all five flags.
    pub fn all() -> (set: Properties)
        ensures
            set@ == ALL_FLAGS,
    {
        Properties { bits: ALL_FLAGS }
    }

    /// The set whose mask is `bits` without the bits that are no flag.
    pub fn from_bits_truncate(bits: u16) -> (set: Properties)
        ensures
            set@ == bits & ALL_FLAGS,
    {
        assert(bits & 0x1f <= 0x1f) by (bit_vector);
        Properties { bits: bits & ALL_FLAGS }
    }

    /// The bit mask of the set.
    pub fn bits(&self) -> (bits: u16)
        ensures
            bits == self@,
            bits <= ALL_FLAGS,
    {
        proof {
            use_type_invariant(self);
        }
        self.bits
    }

    /// Whether every flag of `other` is set in `self`.
    pub fn contains(&self, other: Properties) -> (found: bool)
        ensures
            found == self.includes(other),
    {
        (self.bits & other.bits) == other.bits
    }

    /// The names of the flags in the set, as the device layer prints
    /// them: see [`flag_names`].
    pub fn names(&self) -> (text: String)
        ensures
            text@ == flag_names(self@),
    {
        flag_names_text(self.bits)
    }

    /// The flags of `self` together with the flags of `other`.
    pub fn union(self, other: Properties) -> (set: Properties)
        ensures
            set@ == self@ | other@,
    {
        proof {
            use_type_invariant(self);
            use_type_invariant(other);
        }
        let a: u16 = self.bits;
        let b: u16 = other.bits;
        assert(a <= 0x1f && b <= 0x1f ==> a | b <= 0x1f) by (bit_vector);
        Properties { bits: a | b }
    }
}

/// Calls the `Debug` implementation of `gfx_hal::memory::Properties` on the
/// set that `from_bits_truncate` makes of `bits`. Taken on trust: that
/// implementation writes the names of the flags that are set, in the
/// order in which the flags are declared, which is the order of their
/// bits, with `" | "` between them, and `"(empty)"` where none is set.
#[verifier::external_body]
fn flag_names_text(bits: u16) -> (text: String)
    ensures
        text@ == flag_names(bits),
{
    format!("{:?}", gfx_hal::memory::Properties::from_bits_truncate(bits))
}

/// A run of bytes inside one device memory object.
#[derive(Clone, Copy, Debug, PartialEq, Eq, Hash, Structural)]
pub struct Segment {
    /// Where the run starts, in bytes from the start of the memory object.
    pub offset: Size,
    /// How many bytes the run has; `None` for all that follow `offset`.
    pub size: Option<Size>,
}

} // verus!
