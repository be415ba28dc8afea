//! The blocks of device memory that the strategies produce, and the block
//! that [`Heaps`](crate::heaps::Heaps) hands out.

use crate::memory::{Properties, Segment, Size};
use crate::usage::Kind;
use vstd::prelude::*;

verus! {

/// A block that has a device memory object `M` to itself.
#[derive(Debug)]
pub struct DedicatedBlock<M> {
    /// The memory object.
    pub memory: M,
    /// Bytes in the memory object.
    pub size: Size,
    /// Properties of the memory.
    pub properties: Properties,
}

/// A block of fixed size, cut out of a chunk that it shares with others.
#[derive(Debug)]
pub struct GeneralBlock<M> {
    /// The memory object of the chunk.
    pub memory: M,
    /// Where the block starts in the chunk, in bytes.
    pub offset: Size,
    /// Bytes in the block.
    pub size: Size,
    /// Properties of the memory.
    pub properties: Properties,
}

/// A block that lies in a line, behind the blocks that were cut before it.
#[derive(Debug)]
pub struct LinearBlock<M> {
    /// The memory object of the line.
    pub memory: M,
    /// Where the block starts in the line, in bytes.
    pub offset: Size,
    /// Bytes in the block.
    pub size: Size,
    /// Properties of the memory.
    pub properties: Properties,
}

/// A block together with the strategy that produced it.
#[derive(Debug)]
pub enum BlockFlavor<M> {
    /// Produced by the strategy that asks the device for every block.
    Dedicated(DedicatedBlock<M>),
    /// Produced by the strategy that cuts chunks into equal blocks.
    General(GeneralBlock<M>),
    /// Produced by the strategy that fills lines.
    Linear(LinearBlock<M>),
}

impl<M> BlockFlavor<M> {
    /// The strategy that produced the block.
    pub open spec fn spec_kind(self) -> Kind {
        match self {
            BlockFlavor::Dedicated(_) => Kind::Dedicated,
            BlockFlavor::General(_) => Kind::General,
            BlockFlavor::Linear(_) => Kind::Linear,
        }
    }

    /// Bytes in the block.
    pub open spec fn spec_size(self) -> Size {
        match self {
            BlockFlavor::Dedicated(block) => block.size,
            BlockFlavor::General(block) => block.size,
            BlockFlavor::Linear(block) => block.size,
        }
    }

    /// Properties of the block's memory.
    pub open spec fn spec_properties(self) -> Properties {
        match self {
            BlockFlavor::Dedicated(block) => block.properties,
            BlockFlavor::General(block) => block.properties,
            BlockFlavor::Linear(block) => block.properties,
        }
    }

    /// The memory object in which the block lies.
    pub open spec fn spec_memory(self) -> M {
        match self {
            BlockFlavor::Dedicated(block) => block.memory,
            BlockFlavor::General(block) => block.memory,
            BlockFlavor::Linear(block) => block.memory,
        }
    }

    /// The bytes of the memory object that belong to the block: all of a
    /// dedicated block's object, and `size` bytes from `offset` on for the
    /// others.
    pub open spec fn spec_segment(self) -> Segment {
        match self {
            BlockFlavor::Dedicated(block) => Segment { offset: 0, size: Some(block.size) },
            BlockFlavor::General(block) => Segment {
                offset: block.offset,
                size: Some(block.size),
            },
            BlockFlavor::Linear(block) => Segment { offset: block.offset, size: Some(block.size) },
        }
    }

    /// The strategy that produced the block.
    pub fn kind(&self) -> (kind: Kind)
        ensures
            kind == self.spec_kind(),
    {
        match self {
            BlockFlavor::Dedicated(_) => Kind::Dedicated,
            BlockFlavor::General(_) => Kind::General,
            BlockFlavor::Linear(_) => Kind::Linear,
        }
    }

    /// Bytes in the block.
    pub fn size(&self) -> (size: Size)
        ensures
            size == self.spec_size(),
    {
        match self {
            BlockFlavor::Dedicated(block) => block.size,
            BlockFlavor::General(block) => block.size,
            BlockFlavor::Linear(block) => block.size,
        }
    }

    /// Properties of the block's memory.
    pub fn properties(&self) -> (properties: Properties)
        ensures
            properties == self.spec_properties(),
    {
        match self {
            BlockFlavor::Dedicated(block) => block.properties,
            BlockFlavor::General(block) => block.properties,
            BlockFlavor::Linear(block) => block.properties,
        }
    }

    /// The memory object in which the block lies.
    pub fn memory(&self) -> (memory: &M)
        ensures
            *memory == self.spec_memory(),
    {
        match self {
            BlockFlavor::Dedicated(block) => &block.memory,
            BlockFlavor::General(block) => &block.memory,
            BlockFlavor::Linear(block) => &block.memory,
        }
    }

    /// The bytes of the memory object that belong to the block.
    pub fn segment(&self) -> (segment: Segment)
        ensures
            segment == self.spec_segment(),
    {
        match self {
            BlockFlavor::Dedicated(block) => Segment { offset: 0, size: Some(block.size) },
            BlockFlavor::General(block) => Segment {
                offset: block.offset,
                size: Some(block.size),
            },
            BlockFlavor::Linear(block) => Segment { offset: block.offset, size: Some(block.size) },
        }
    }
}

/// A block of device memory handed out by [`Heaps`](crate::heaps::Heaps).
///
/// It remembers the memory type it came from and the bytes that were
/// charged to that type's heap for it, so that freeing it gives back
/// exactly those bytes.
#[derive(Debug)]
pub struct MemoryBlock<M> {
    flavor: BlockFlavor<M>,
    memory_index: u32,
    charged: Size,
}

impl<M> MemoryBlock<M> {
    /// The block as its strategy produced it.
    pub closed spec fn flavor(self) -> BlockFlavor<M> {
        self.flavor
    }

    /// Index of the memory type that the block came from.
    pub closed spec fn index(self) -> u32 {
        self.memory_index
    }

    /// Bytes that the block takes from the budget of its heap.
    pub closed spec fn charge(self) -> Size {
        self.charged
    }

    /// Puts a block together from what a strategy produced, the memory
    /// type that owns the strategy, and the bytes charged for the block.
    pub(crate) fn new(flavor: BlockFlavor<M>, memory_index: u32, charged: Size) -> (block: Self)
        ensures
            block.flavor() == flavor,
            block.index() == memory_index,
            block.charge() == charged,
    {
        MemoryBlock { flavor, memory_index, charged }
    }

    /// Takes the block apart again.
    pub(crate) fn into_flavor(self) -> (flavor: BlockFlavor<M>)
        ensures
            flavor == self.flavor(),
    {
        self.flavor
    }

    /// Index of the memory type that the block came from.
    pub fn memory_type(&self) -> (index: u32)
        ensures
            index == self.index(),
    {
        self.memory_index
    }

    /// Bytes that the block takes from the budget of its heap.
    pub fn charged(&self) -> (bytes: Size)
        ensures
            bytes == self.charge(),
    {
        self.charged
    }

    /// The strategy that produced the block.
    pub fn kind(&self) -> (kind: Kind)
        ensures
            kind == self.flavor().spec_kind(),
    {
        self.flavor.kind()
    }

    /// Bytes in the block.
    pub fn size(&self) -> (size: Size)
        ensures
            size == self.flavor().spec_size(),
    {
        self.flavor.size()
    }

    /// Properties of the block's memory.
    pub fn properties(&self) -> (properties: Properties)
        ensures
            properties == self.flavor().spec_properties(),
    {
        self.flavor.properties()
    }

    /// The memory object in which the block lies.
    pub fn memory(&self) -> (memory: &M)
        ensures
            *memory == self.flavor().spec_memory(),
    {
        self.flavor.memory()
    }

    /// The bytes of the memory object that belong to the block.
    pub fn segment(&self) -> (segment: Segment)
        ensures
            segment == self.flavor().spec_segment(),
    {
        self.flavor.segment()
    }
}

} // verus!
