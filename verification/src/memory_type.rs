//! One memory type of a device: where its memory comes from, what it is
//! like, and the strategies that produce its blocks.

use crate::allocator::Allocators;
use crate::block::{BlockFlavor, DedicatedBlock, GeneralBlock, LinearBlock};
use crate::config::{lemma_fittest_is_unique, HeapsConfig};
use crate::error::AllocationError;
use crate::memory::{Properties, Size};
use crate::model::TypeView;
use crate::stats::MemoryTypeUtilization;
use crate::usage::{Kind, MemoryUsage};
use vstd::prelude::*;

verus! {

/// A memory type with its strategies and the count of the bytes handed
/// out through it.
///
/// Its view is what the accounting needs to know of it. The strategies
/// are no part of the view; contracts speak of them by
/// [`MemoryType::strategies`].
#[derive(Debug)]
pub struct MemoryType<A: Allocators> {
    index: usize,
    heap_index: usize,
    properties: Properties,
    config: HeapsConfig,
    non_coherent_atom_size: Size,
    used: Size,
    allocators: A,
}

impl<A: Allocators> View for MemoryType<A> {
    type V = TypeView;

    closed spec fn view(&self) -> TypeView {
        TypeView {
            index: self.index as int,
            properties: self.properties,
            heap_index: self.heap_index as int,
            config: self.config,
            non_coherent_atom_size: self.non_coherent_atom_size as nat,
            used: self.used as nat,
        }
    }
}

/// What a memory type makes of the answer of its dedicated strategy:
/// the block is marked as dedicated, and a failure is passed on.
pub open spec fn from_dedicated<M>(
    answer: Result<(DedicatedBlock<M>, Size), AllocationError>,
) -> Result<(BlockFlavor<M>, Size), AllocationError> {
    match answer {
        Ok((block, charged)) => Ok((BlockFlavor::Dedicated(block), charged)),
        Err(error) => Err(error),
    }
}

/// What a memory type makes of the answer of its general strategy: the
/// block is marked as general, and a failure is passed on.
pub open spec fn from_general<M>(
    answer: Result<(GeneralBlock<M>, Size), AllocationError>,
) -> Result<(BlockFlavor<M>, Size), AllocationError> {
    match answer {
        Ok((block, charged)) => Ok((BlockFlavor::General(block), charged)),
        Err(error) => Err(error),
    }
}

/// What a memory type makes of the answer of its linear strategy: the
/// block is marked as linear, and a failure is passed on.
pub open spec fn from_linear<M>(
    answer: Result<(LinearBlock<M>, Size), AllocationError>,
) -> Result<(BlockFlavor<M>, Size), AllocationError> {
    match answer {
        Ok((block, charged)) => Ok((BlockFlavor::Linear(block), charged)),
        Err(error) => Err(error),
    }
}

impl<A: Allocators> MemoryType<A> {
    /// The strategies of the memory type, as they stand.
    pub closed spec fn strategies(&self) -> A {
        self.allocators
    }

    /// The memory type with index `memory_type`, which takes its memory
    /// from the heap `heap_index`, with the strategies that
    /// [`Allocators::new`] makes from the index, the properties, `config`
    /// and `non_coherent_atom_size`.
    pub fn new(
        memory_type: usize,
        heap_index: usize,
        properties: Properties,
        config: HeapsConfig,
        non_coherent_atom_size: Size,
    ) -> (this: Self)
        ensures
            this@ == (TypeView {
                index: memory_type as int,
                properties,
                heap_index: heap_index as int,
                config,
                non_coherent_atom_size: non_coherent_atom_size as nat,
                used: 0,
            }),
            call_ensures(
                A::new,
                (memory_type, properties, config, non_coherent_atom_size),
                this.strategies(),
            ),
    {
        MemoryType {
            index: memory_type,
            heap_index,
            properties,
            config,
            non_coherent_atom_size,
            used: 0,
            allocators: A::new(memory_type, properties, config, non_coherent_atom_size),
        }
    }

    /// Index of this memory type among the memory types of the device.
    pub fn index(&self) -> (index: usize)
        ensures
            index == self@.index,
    {
        self.index
    }

    /// Granularity, in bytes, of flushes of mapped memory of this type
    /// where the memory is not coherent.
    pub fn non_coherent_atom_size(&self) -> (bytes: Size)
        ensures
            bytes == self@.non_coherent_atom_size,
    {
        self.non_coherent_atom_size
    }

    /// Properties of the memory of this type.
    pub fn properties(&self) -> (properties: Properties)
        ensures
            properties == self@.properties,
    {
        self.properties
    }

    /// Index of the heap that the memory of this type is taken from.
    pub fn heap_index(&self) -> (index: usize)
        ensures
            index == self@.heap_index,
    {
        self.heap_index
    }

    /// Bytes handed out through this type.
    pub fn used(&self) -> (bytes: Size)
        ensures
            bytes == self@.used,
    {
        self.used
    }

    /// Which strategies produce the blocks of this type, and how they
    /// are set.
    pub fn config(&self) -> (config: HeapsConfig)
        ensures
            config == self@.config,
    {
        self.config
    }

    /// Asks for a block the strategy that
    /// [`HeapsConfig::strategy_for`] picks for `usage` and `size`, and
    /// marks what it produces as its own. The strategy is asked for
    /// `size` bytes aligned to `align`, and what comes back is its
    /// answer: the block that it produced with the bytes that it
    /// charged, or its failure. No other strategy is touched. The count
    /// of bytes handed out does not change: see [`MemoryType::charge`].
    pub fn allocate(
        &mut self,
        device: &A::Device,
        usage: MemoryUsage,
        size: Size,
        align: Size,
    ) -> (outcome: Result<(BlockFlavor<A::Memory>, Size), AllocationError>)
        ensures
            final(self)@ == old(self)@,
            outcome matches Ok((flavor, _)) ==> old(self)@.config.fittest(
                usage,
                size,
                flavor.spec_kind(),
            ),
            old(self)@.config.fittest(usage, size, Kind::Dedicated) ==> exists|
                strategies: &mut A,
                answer: Result<(DedicatedBlock<A::Memory>, Size), AllocationError>,
            |
                {
                    &&& *strategies == old(self).strategies()
                    &&& *final(strategies) == final(self).strategies()
                    &&& #[trigger] call_ensures(
                        A::allocate_dedicated,
                        (strategies, device, size, align),
                        answer,
                    )
                    &&& outcome == from_dedicated(answer)
                },
            old(self)@.config.fittest(usage, size, Kind::General) ==> exists|
                strategies: &mut A,
                answer: Result<(GeneralBlock<A::Memory>, Size), AllocationError>,
            |
                {
                    &&& *strategies == old(self).strategies()
                    &&& *final(strategies) == final(self).strategies()
                    &&& #[trigger] call_ensures(
                        A::allocate_general,
                        (strategies, device, size, align),
                        answer,
                    )
                    &&& outcome == from_general(answer)
                },
            old(self)@.config.fittest(usage, size, Kind::Linear) ==> exists|
                strategies: &mut A,
                answer: Result<(LinearBlock<A::Memory>, Size), AllocationError>,
            |
                {
                    &&& *strategies == old(self).strategies()
                    &&& *final(strategies) == final(self).strategies()
                    &&& #[trigger] call_ensures(
                        A::allocate_linear,
                        (strategies, device, size, align),
                        answer,
                    )
                    &&& outcome == from_linear(answer)
                },
    {
        let kind = self.config.strategy_for(usage, size);
        proof {
            if self.config.fittest(usage, size, Kind::Dedicated) {
                lemma_fittest_is_unique(self.config, usage, size, kind, Kind::Dedicated);
            }
            if self.config.fittest(usage, size, Kind::General) {
                lemma_fittest_is_unique(self.config, usage, size, kind, Kind::General);
            }
            if self.config.fittest(usage, size, Kind::Linear) {
                lemma_fittest_is_unique(self.config, usage, size, kind, Kind::Linear);
            }
        }
        match kind {
            Kind::Dedicated => match self.allocators.allocate_dedicated(device, size, align) {
                Ok((block, charged)) => Ok((BlockFlavor::Dedicated(block), charged)),
                Err(error) => Err(error),
            },
            Kind::General => match self.allocators.allocate_general(device, size, align) {
                Ok((block, charged)) => Ok((BlockFlavor::General(block), charged)),
                Err(error) => Err(error),
            },
            Kind::Linear => match self.allocators.allocate_linear(device, size, align) {
                Ok((block, charged)) => Ok((BlockFlavor::Linear(block), charged)),
                Err(error) => Err(error),
            },
        }
    }

    /// Hands a block back to the strategy that produced it, and returns
    /// what that strategy reports. No other strategy is touched. The
    /// count of bytes handed out does not change: see
    /// [`MemoryType::reclaim`].
    pub fn free(&mut self, device: &A::Device, block: BlockFlavor<A::Memory>) -> (reported: Size)
        ensures
            final(self)@ == old(self)@,
            exists|strategies: &mut A|
                {
                    &&& *strategies == old(self).strategies()
                    &&& *final(strategies) == final(self).strategies()
                    &&& match block {
                        BlockFlavor::Dedicated(inner) => call_ensures(
                            A::free_dedicated,
                            (strategies, device, inner),
                            reported,
                        ),
                        BlockFlavor::General(inner) => call_ensures(
                            A::free_general,
                            (strategies, device, inner),
                            reported,
                        ),
                        BlockFlavor::Linear(inner) => call_ensures(
                            A::free_linear,
                            (strategies, device, inner),
                            reported,
                        ),
                    }
                },
    {
        match block {
            BlockFlavor::Dedicated(block) => self.allocators.free_dedicated(device, block),
            BlockFlavor::General(block) => self.allocators.free_general(device, block),
            BlockFlavor::Linear(block) => self.allocators.free_linear(device, block),
        }
    }

    /// Counts `amount` more bytes as handed out. The strategies are not
    /// touched.
    pub fn charge(&mut self, amount: Size)
        requires
            old(self)@.used + amount <= u64::MAX,
        ensures
            final(self)@ == old(self)@.charge(amount as nat),
            final(self).strategies() == old(self).strategies(),
    {
        self.used = self.used + amount;
    }

    /// Counts `amount` bytes as given back. The strategies are not
    /// touched.
    pub fn reclaim(&mut self, amount: Size)
        requires
            amount <= old(self)@.used,
        ensures
            final(self)@ == old(self)@.release(amount as nat),
            final(self).strategies() == old(self).strategies(),
    {
        self.used = self.used - amount;
    }

    /// Has the strategies give back to the device whatever they still
    /// hold: they are left as their `clear` leaves them. The count of
    /// bytes handed out does not change.
    pub fn clear(&mut self, device: &A::Device)
        ensures
            final(self)@ == old(self)@,
            exists|strategies: &mut A|
                {
                    &&& *strategies == old(self).strategies()
                    &&& *final(strategies) == final(self).strategies()
                    &&& #[trigger] call_ensures(A::clear, (strategies, device), ())
                },
    {
        self.allocators.clear(device);
    }

    /// The bytes handed out through this type, with its properties and
    /// its heap.
    pub fn utilization(&self) -> (report: MemoryTypeUtilization)
        ensures
            report.used == self@.used,
            report.properties == self@.properties,
            report.heap_index == self@.heap_index,
    {
        MemoryTypeUtilization {
            used: self.used,
            properties: self.properties,
            heap_index: self.heap_index,
        }
    }
}

} // verus!
