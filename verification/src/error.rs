//! What can go wrong when device memory is requested.

use crate::memory::{flag_names, Properties};
use crate::text::{decimal, decimal_text};
use vstd::prelude::*;
use vstd::std_specs::convert::FromSpecImpl;
use vstd::string::StringExecFns;

verus! {

/// Which side ran out of memory.
#[derive(Clone, Copy, Debug, PartialEq, Eq, Structural)]
pub enum OutOfMemory {
    /// The host has no memory left.
    Host,
    /// The device has no memory left.
    Device,
}

/// Why a device could not hand out memory.
#[derive(Clone, Copy, Debug, PartialEq, Eq, Structural)]
pub enum AllocationError {
    /// The host or the device has no memory left.
    OutOfMemory(OutOfMemory),
    /// The device cannot create another memory object.
    TooManyObjects,
}

/// Why [`Heaps`](crate::heaps::Heaps) could not serve a request.
#[derive(Clone, Copy, Debug, PartialEq, Eq, Structural)]
pub enum HeapsError {
    /// Memory could not be handed out: a heap's budget is used up, or the
    /// device refused.
    AllocationError(AllocationError),
    /// None of the memory types that the mask admits has the required
    /// properties. Holds the mask and the required properties.
    NoSuitableMemory(u32, Properties),
}

impl OutOfMemory {
    /// The name of the side that ran out of memory.
    pub open spec fn text(self) -> Seq<char> {
        match self {
            OutOfMemory::Host => "Host"@,
            OutOfMemory::Device => "Device"@,
        }
    }

    /// The name of the side that ran out of memory.
    pub fn message(&self) -> (text: String)
        ensures
            text@ == self.text(),
    {
        match self {
            OutOfMemory::Host => String::from_str("Host"),
            OutOfMemory::Device => String::from_str("Device"),
        }
    }
}

impl AllocationError {
    /// The error as text: its name, and after it in brackets the side
    /// that ran out of memory, where one did.
    pub open spec fn text(self) -> Seq<char> {
        match self {
            AllocationError::OutOfMemory(side) => "OutOfMemory("@ + side.text() + ")"@,
            AllocationError::TooManyObjects => "TooManyObjects"@,
        }
    }

    /// The error as text.
    pub fn message(&self) -> (text: String)
        ensures
            text@ == self.text(),
    {
        match self {
            AllocationError::OutOfMemory(side) => {
                let mut text = String::from_str("OutOfMemory(");
                text.append(side.message().as_str());
                text.append(")");
                text
            },
            AllocationError::TooManyObjects => String::from_str("TooManyObjects"),
        }
    }
}

/// What is said of a request that no memory type can ever serve: the
/// mask in decimal, and the required properties as `properties` names
/// them.
pub open spec fn no_suitable_memory_text(mask: u32, properties: Seq<char>) -> Seq<char> {
    "Memory type among ("@ + decimal(mask as nat) + ") with properties ("@ + properties
        + ") not found"@
}

/// Says that none of the memory types that `mask` admits has the
/// properties that `properties` names.
pub fn no_suitable_memory_message(mask: u32, properties: &str) -> (text: String)
    ensures
        text@ == no_suitable_memory_text(mask, properties@),
{
    let mut text = String::from_str("Memory type among (");
    text.append(decimal_text(mask).as_str());
    text.append(") with properties (");
    text.append(properties);
    text.append(") not found");
    text
}

impl HeapsError {
    /// The failure as text, for a person to read.
    pub open spec fn text(self) -> Seq<char> {
        match self {
            HeapsError::AllocationError(error) => error.text(),
            HeapsError::NoSuitableMemory(mask, properties) => no_suitable_memory_text(
                mask,
                flag_names(properties@),
            ),
        }
    }

    /// The failure as text, for a person to read.
    pub fn message(&self) -> (text: String)
        ensures
            text@ == self.text(),
    {
        match self {
            HeapsError::AllocationError(error) => error.message(),
            HeapsError::NoSuitableMemory(mask, properties) => no_suitable_memory_message(
                *mask,
                properties.names().as_str(),
            ),
        }
    }

    /// The failure that lies under this one, if there is one.
    pub fn source(&self) -> (cause: Option<AllocationError>)
        ensures
            cause == match *self {
                HeapsError::AllocationError(error) => Some(error),
                HeapsError::NoSuitableMemory(_, _) => None,
            },
    {
        match *self {
            HeapsError::AllocationError(error) => Some(error),
            HeapsError::NoSuitableMemory(_, _) => None,
        }
    }
}

impl From<OutOfMemory> for AllocationError {
    fn from(error: OutOfMemory) -> (wrapped: AllocationError) {
        AllocationError::OutOfMemory(error)
    }
}

impl FromSpecImpl<OutOfMemory> for AllocationError {
    open spec fn obeys_from_spec() -> bool {
        true
    }

    open spec fn from_spec(error: OutOfMemory) -> AllocationError {
        AllocationError::OutOfMemory(error)
    }
}

impl From<AllocationError> for HeapsError {
    fn from(error: AllocationError) -> (wrapped: HeapsError) {
        HeapsError::AllocationError(error)
    }
}

impl FromSpecImpl<AllocationError> for HeapsError {
    open spec fn obeys_from_spec() -> bool {
        true
    }

    open spec fn from_spec(error: AllocationError) -> HeapsError {
        HeapsError::AllocationError(error)
    }
}

impl From<OutOfMemory> for HeapsError {
    fn from(error: OutOfMemory) -> (wrapped: HeapsError) {
        HeapsError::AllocationError(AllocationError::OutOfMemory(error))
    }
}

impl FromSpecImpl<OutOfMemory> for HeapsError {
    open spec fn obeys_from_spec() -> bool {
        true
    }

    open spec fn from_spec(error: OutOfMemory) -> HeapsError {
        HeapsError::AllocationError(AllocationError::OutOfMemory(error))
    }
}

} // verus!
