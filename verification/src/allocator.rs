//! What a memory type asks of the strategies that produce its blocks.

use crate::block::{DedicatedBlock, GeneralBlock, LinearBlock};
use crate::config::HeapsConfig;
use crate::error::AllocationError;
use crate::memory::{Properties, Size};
use vstd::prelude::*;

verus! {

/// The strategies that produce the blocks of one memory type out of
/// device memory: the dedicated one, and the general and the linear one
/// where the memory type has them.
///
/// Which strategy serves a request is decided for the implementation, by
/// [`HeapsConfig::strategy_for`]; a strategy that the settings do not
/// name is never asked for a block. Nothing is taken on trust from an
/// implementation: [`Heaps`](crate::heaps::Heaps) checks the bytes that
/// a strategy reports against the budget of the heap, and keeps its own
/// record of what each block was charged.
pub trait Allocators: Sized {
    /// The device that memory is taken from.
    type Device;

    /// A memory object of that device.
    type Memory;

    /// Makes the strategies of the memory type with index `memory_type`
    /// and with `properties`. `config` says which strategies there are
    /// besides the dedicated one; `non_coherent_atom_size` is the
    /// granularity, in bytes, of flushes of memory that is not coherent.
    fn new(
        memory_type: usize,
        properties: Properties,
        config: HeapsConfig,
        non_coherent_atom_size: Size,
    ) -> Self;

    /// Produces a block of at least `size` bytes, aligned to `align`
    /// bytes, in a memory object of its own, and says how many bytes of
    /// the heap it takes.
    fn allocate_dedicated(
        &mut self,
        device: &Self::Device,
        size: Size,
        align: Size,
    ) -> Result<(DedicatedBlock<Self::Memory>, Size), AllocationError>;

    /// Produces a block of at least `size` bytes, aligned to `align`
    /// bytes, out of a chunk, and says how many bytes of the heap it
    /// takes.
    fn allocate_general(
        &mut self,
        device: &Self::Device,
        size: Size,
        align: Size,
    ) -> Result<(GeneralBlock<Self::Memory>, Size), AllocationError>;

    /// Produces a block of at least `size` bytes, aligned to `align`
    /// bytes, at the end of a line, and says how many bytes of the heap
    /// it takes.
    fn allocate_linear(
        &mut self,
        device: &Self::Device,
        size: Size,
        align: Size,
    ) -> Result<(LinearBlock<Self::Memory>, Size), AllocationError>;

    /// Takes back a block that `allocate_dedicated` produced, and says
    /// how many bytes of the heap that gives back.
    fn free_dedicated(
        &mut self,
        device: &Self::Device,
        block: DedicatedBlock<Self::Memory>,
    ) -> Size;

    /// Takes back a block that `allocate_general` produced, and says how
    /// many bytes of the heap that gives back.
    fn free_general(&mut self, device: &Self::Device, block: GeneralBlock<Self::Memory>) -> Size;

    /// Takes back a block that `allocate_linear` produced, and says how
    /// many bytes of the heap that gives back.
    fn free_linear(&mut self, device: &Self::Device, block: LinearBlock<Self::Memory>) -> Size;

    /// Gives back to the device whatever the strategies still hold.
    fn clear(&mut self, device: &Self::Device);
}

} // verus!
