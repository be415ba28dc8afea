//! How a resource is going to use its memory, and how well a memory type
//! serves that use.

use crate::memory::{
    Properties, COHERENT, CPU_CACHED, CPU_VISIBLE, DEVICE_LOCAL, LAZILY_ALLOCATED,
};
use vstd::prelude::*;

verus! {

/// The ways in which a resource can use its memory.
#[derive(Clone, Copy, Debug, PartialEq, Eq, Structural)]
pub enum MemoryUsage {
    /// The device alone reads and writes the memory, at full speed.
    /// Fits render targets and resources that stay where they are.
    Private,
    /// The host writes and the device reads, again and again.
    /// Fits buffers that change every frame.
    Dynamic {
        /// The host updates many small pieces rather than long runs.
        sparse_updates: bool,
    },
    /// The host fills the memory through a mapping and the device copies
    /// out of it, or the other way round.
    Staging {
        /// The host reads what the device wrote.
        read_back: bool,
    },
}

/// The strategies by which the blocks of a memory type are produced.
#[derive(Clone, Copy, Debug, PartialEq, Eq, Structural)]
pub enum Kind {
    /// Every block gets a memory object of the device to itself.
    Dedicated,
    /// Blocks are cut out of chunks, and freed blocks are handed out
    /// again.
    General,
    /// Blocks are cut off lines one after the other, and a line comes
    /// back once all of its blocks are freed.
    Linear,
}

/// `weight` where `wanted` holds, and nothing where it does not.
pub open spec fn credit(wanted: bool, weight: int) -> int {
    if wanted {
        weight
    } else {
        0
    }
}

impl MemoryUsage {
    /// The bit mask of the properties that a memory type must have to
    /// serve this usage at all.
    pub open spec fn required(self) -> u16 {
        match self {
            MemoryUsage::Private => DEVICE_LOCAL,
            MemoryUsage::Dynamic { .. } => CPU_VISIBLE,
            MemoryUsage::Staging { .. } => CPU_VISIBLE,
        }
    }

    /// How well memory with `properties` serves this usage; more is
    /// better. Each trait that the usage looks for adds its weight.
    pub open spec fn fitness(self, properties: Properties) -> int {
        match self {
            MemoryUsage::Private => {
                credit(!properties.has(CPU_VISIBLE), 8)
                    + credit(!properties.has(LAZILY_ALLOCATED), 4)
                    + credit(!properties.has(CPU_CACHED), 2)
                    + credit(!properties.has(COHERENT), 1)
            },
            MemoryUsage::Dynamic { sparse_updates } => {
                credit(properties.has(DEVICE_LOCAL), 4)
                    + credit(properties.has(COHERENT) == sparse_updates, 2)
                    + credit(!properties.has(CPU_CACHED), 1)
            },
            MemoryUsage::Staging { read_back } => {
                credit(!properties.has(DEVICE_LOCAL), 4)
                    + credit(properties.has(CPU_CACHED) == read_back, 2)
                    + credit(!properties.has(COHERENT), 1)
            },
        }
    }

    /// How well a strategy of `kind` serves this usage; more is better.
    /// Memory that the host stages data in is short-lived and does best
    /// in lines; all other memory does best in chunks, and must not pin
    /// a line.
    pub open spec fn strategy_fitness(self, kind: Kind) -> int {
        match self {
            MemoryUsage::Staging { .. } => match kind {
                Kind::Dedicated => 0,
                Kind::General => 1,
                Kind::Linear => 2,
            },
            _ => match kind {
                Kind::Dedicated => 1,
                Kind::General => 2,
                Kind::Linear => 0,
            },
        }
    }

    /// Scores a strategy of `kind` for this usage.
    pub fn allocator_fitness(self, kind: Kind) -> (score: u32)
        ensures
            score == self.strategy_fitness(kind),
    {
        match self {
            MemoryUsage::Staging { .. } => match kind {
                Kind::Dedicated => 0,
                Kind::General => 1,
                Kind::Linear => 2,
            },
            _ => match kind {
                Kind::Dedicated => 1,
                Kind::General => 2,
                Kind::Linear => 0,
            },
        }
    }

    /// The properties that a memory type must have to serve this usage.
    pub fn properties_required(self) -> (properties: Properties)
        ensures
            properties@ == self.required(),
    {
        match self {
            MemoryUsage::Private => Properties::device_local(),
            MemoryUsage::Dynamic { .. } => Properties::cpu_visible(),
            MemoryUsage::Staging { .. } => Properties::cpu_visible(),
        }
    }

    /// Scores memory with `properties` for this usage.
    pub fn memory_fitness(self, properties: Properties) -> (score: u32)
        ensures
            score == self.fitness(properties),
            score <= 15,
    {
        let local = properties.contains(Properties::device_local());
        let visible = properties.contains(Properties::cpu_visible());
        let coherent = properties.contains(Properties::coherent());
        let cached = properties.contains(Properties::cpu_cached());
        let lazy = properties.contains(Properties::lazily_allocated());
        match self {
            MemoryUsage::Private => {
                points(!visible, 8) + points(!lazy, 4) + points(!cached, 2) + points(
                    !coherent,
                    1,
                )
            },
            MemoryUsage::Dynamic { sparse_updates } => {
                points(local, 4) + points(coherent == sparse_updates, 2) + points(!cached, 1)
            },
            MemoryUsage::Staging { read_back } => {
                points(!local, 4) + points(cached == read_back, 2) + points(!coherent, 1)
            },
        }
    }
}

/// `weight` where `wanted` holds, and nothing where it does not.
fn points(wanted: bool, weight: u32) -> (score: u32)
    ensures
        score == credit(wanted, weight as int),
{
    if wanted {
        weight
    } else {
        0
    }
}

} // verus!
