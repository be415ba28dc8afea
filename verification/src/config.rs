//! Settings of the sub-allocation strategies of one memory type.

use crate::memory::Size;
use crate::usage::{Kind, MemoryUsage};
use vstd::prelude::*;

verus! {

/// Settings of a strategy that hands out memory from lines, one request
/// after the other, and takes a line back once all of it is free again.
#[derive(Clone, Copy, Debug, PartialEq, Eq, Structural)]
pub struct LinearConfig {
    /// Bytes in one line.
    pub line_size: Size,
}

/// Settings of a strategy that cuts chunks of device memory into blocks
/// of equal size and hands freed blocks out again.
#[derive(Clone, Copy, Debug, PartialEq, Eq, Structural)]
pub struct GeneralConfig {
    /// Every request is rounded up to a multiple of this many bytes.
    pub block_size_granularity: Size,
    /// The largest chunk, in bytes, that is cut into blocks.
    pub max_chunk_size: Size,
    /// The smallest amount, in bytes, that is asked of the device at once.
    pub min_device_allocation: Size,
}

/// Which strategies a memory type has besides the dedicated one, which it
/// always has.
#[derive(Clone, Copy, Debug, PartialEq, Eq, Structural)]
pub struct HeapsConfig {
    /// Settings of the linear strategy, where the memory type has one.
    pub linear: Option<LinearConfig>,
    /// Settings of the general strategy, where the memory type has one.
    pub general: Option<GeneralConfig>,
}

impl HeapsConfig {
    /// Whether a memory type with these settings has a strategy of `kind`
    /// that can produce a block of `size` bytes. The dedicated strategy
    /// always can; the general one can where the block fits in a chunk,
    /// and the linear one where it fits in a line.
    pub open spec fn serves(self, kind: Kind, size: Size) -> bool {
        match kind {
            Kind::Dedicated => true,
            Kind::General => self.general matches Some(general) && size <= general.max_chunk_size,
            Kind::Linear => self.linear matches Some(linear) && size <= linear.line_size,
        }
    }

    /// Whether `kind` is the strategy to use for a block of `size` bytes
    /// for `usage`: it can produce the block, and no strategy that can
    /// serves the usage better.
    pub open spec fn fittest(self, usage: MemoryUsage, size: Size, kind: Kind) -> bool {
        &&& self.serves(kind, size)
        &&& forall|other: Kind| #[trigger]
            self.serves(other, size) ==> usage.strategy_fitness(other) <= usage.strategy_fitness(
                kind,
            )
    }

    /// Picks the strategy for a block of `size` bytes for `usage`. The
    /// choice depends on nothing but the settings, the usage and the
    /// size.
    pub fn strategy_for(&self, usage: MemoryUsage, size: Size) -> (kind: Kind)
        ensures
            self.fittest(usage, size, kind),
    {
        let mut kind = Kind::Dedicated;
        let mut score = usage.allocator_fitness(Kind::Dedicated);
        if let Some(general) = self.general {
            if size <= general.max_chunk_size && score < usage.allocator_fitness(Kind::General) {
                kind = Kind::General;
                score = usage.allocator_fitness(Kind::General);
            }
        }
        if let Some(linear) = self.linear {
            if size <= linear.line_size && score < usage.allocator_fitness(Kind::Linear) {
                kind = Kind::Linear;
            }
        }
        kind
    }
}

/// The strategy to use is determined: no two strategies are both the one
/// to use for the same block.
pub proof fn lemma_fittest_is_unique(
    config: HeapsConfig,
    usage: MemoryUsage,
    size: Size,
    first: Kind,
    second: Kind,
)
    requires
        config.fittest(usage, size, first),
        config.fittest(usage, size, second),
    ensures
        first == second,
{
}

/// A memory type without settings for the general and the linear
/// strategy produces every block by the dedicated one.
pub proof fn lemma_dedicated_without_settings(
    config: HeapsConfig,
    usage: MemoryUsage,
    size: Size,
    kind: Kind,
)
    requires
        config.general is None,
        config.linear is None,
        config.fittest(usage, size, kind),
    ensures
        kind == Kind::Dedicated,
{
}

} // verus!
