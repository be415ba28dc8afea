//! The accounting of heaps and memory types as mathematical values, and
//! the rules by which a request is matched to a memory type.

use crate::config::HeapsConfig;
use crate::memory::Properties;
use crate::usage::MemoryUsage;
use vstd::prelude::*;

verus! {

/// The accounting of one heap.
pub ghost struct HeapView {
    /// Bytes that the heap has.
    pub size: nat,
    /// Bytes of the heap that are handed out.
    pub used: nat,
}

/// One memory type and its accounting.
pub ghost struct TypeView {
    /// Index of the memory type: its place among the memory types of the
    /// device, and the bit that stands for it in a mask.
    pub index: int,
    /// Properties of the memory of this type.
    pub properties: Properties,
    /// Index of the heap that the memory of this type is taken from.
    pub heap_index: int,
    /// Which strategies produce the blocks of this type, and how they
    /// are set.
    pub config: HeapsConfig,
    /// Granularity, in bytes, of flushes of mapped memory of this type
    /// where the memory is not coherent.
    pub non_coherent_atom_size: nat,
    /// Bytes handed out through this type.
    pub used: nat,
}

/// The memory types and heaps of a device, with their accounting.
pub ghost struct HeapsView {
    /// The memory types, by index.
    pub types: Seq<TypeView>,
    /// The heaps, by index.
    pub heaps: Seq<HeapView>,
}

/// Whether `mask` admits the memory type `index`: bit `index` of the mask
/// is set. A mask has 32 bits, so no type from index 32 on is admitted.
pub open spec fn admits(mask: u32, index: int) -> bool {
    0 <= index < 32 && mask & (1u32 << (index as u32)) != 0
}

/// Bytes handed out through those of `types` that take from `heap`.
pub open spec fn load(types: Seq<TypeView>, heap: int) -> nat
    decreases types.len(),
{
    if types.len() == 0 {
        0
    } else {
        load(types.drop_last(), heap) + if types.last().heap_index == heap {
            types.last().used
        } else {
            0
        }
    }
}

impl TypeView {
    /// The same memory type with `used` bytes handed out.
    pub open spec fn with_used(self, used: nat) -> TypeView {
        TypeView { used, ..self }
    }

    /// The memory type after `amount` more bytes were handed out.
    pub open spec fn charge(self, amount: nat) -> TypeView {
        self.with_used(self.used + amount)
    }

    /// The memory type after `amount` bytes came back.
    pub open spec fn release(self, amount: nat) -> TypeView {
        self.with_used((self.used - amount) as nat)
    }
}

impl HeapView {
    /// Bytes of the heap that are not handed out.
    pub open spec fn available(self) -> int {
        self.size - self.used
    }

    /// The heap after `amount` more bytes were handed out.
    pub open spec fn charge(self, amount: nat) -> HeapView {
        HeapView { size: self.size, used: self.used + amount }
    }

    /// The heap after `amount` bytes came back.
    pub open spec fn release(self, amount: nat) -> HeapView {
        HeapView { size: self.size, used: (self.used - amount) as nat }
    }
}

impl HeapsView {
    /// Every memory type knows its index and names a heap that exists,
    /// and no heap has handed out more than it has, nor less than its
    /// memory types account for.
    pub open spec fn wf(self) -> bool {
        &&& forall|t: int|
            0 <= t < self.types.len() ==> {
                &&& (#[trigger] self.types[t]).index == t
                &&& 0 <= self.types[t].heap_index < self.heaps.len()
            }
        &&& forall|h: int|
            0 <= h < self.heaps.len() ==> load(self.types, h) <= (#[trigger] self.heaps[h]).used
                <= self.heaps[h].size
    }

    /// Index of the heap behind the memory type `index`.
    pub open spec fn heap_of(self, index: int) -> int {
        self.types[index].heap_index
    }

    /// Bytes of `heap` that are not handed out.
    pub open spec fn available(self, heap: int) -> int {
        self.heaps[heap].available()
    }

    /// Bytes that are not handed out of the heap behind the memory type
    /// `index`.
    pub open spec fn room(self, index: int) -> int {
        self.available(self.heap_of(index))
    }

    /// Whether the memory type `index` could ever serve a request with
    /// this mask and these required properties: the mask admits it and it
    /// has every required property.
    pub open spec fn suitable(self, index: int, mask: u32, required: u16) -> bool {
        &&& 0 <= index < self.types.len()
        &&& admits(mask, index)
        &&& self.types[index].properties.has(required)
    }

    /// Whether the memory type `index` is suitable and its heap has more
    /// than `size + align` bytes left.
    pub open spec fn eligible(
        self,
        index: int,
        mask: u32,
        required: u16,
        size: nat,
        align: nat,
    ) -> bool {
        &&& self.suitable(index, mask, required)
        &&& self.available(self.heap_of(index)) > size + align
    }

    /// Whether the memory type `index` is the one to take for a request:
    /// it is eligible, no eligible type fits the usage better, and of
    /// those that fit as well it has the lowest index.
    pub open spec fn best(
        self,
        index: int,
        mask: u32,
        usage: MemoryUsage,
        size: nat,
        align: nat,
    ) -> bool {
        &&& self.eligible(index, mask, usage.required(), size, align)
        &&& forall|other: int| #[trigger]
            self.eligible(other, mask, usage.required(), size, align) ==> {
                let mine = usage.fitness(self.types[index].properties);
                let theirs = usage.fitness(self.types[other].properties);
                theirs < mine || (theirs == mine && index <= other)
            }
    }

    /// Whether `amount` bytes are handed out through the memory type
    /// `index`, so that they can be taken back.
    pub open spec fn holds(self, index: int, amount: nat) -> bool {
        &&& 0 <= index < self.types.len()
        &&& amount <= self.types[index].used
    }

    /// The accounting after `amount` more bytes were handed out through
    /// the memory type `index`.
    pub open spec fn charge(self, index: int, amount: nat) -> HeapsView {
        let heap = self.heap_of(index);
        HeapsView {
            types: self.types.update(index, self.types[index].charge(amount)),
            heaps: self.heaps.update(heap, self.heaps[heap].charge(amount)),
        }
    }

    /// The accounting after `amount` bytes came back through the memory
    /// type `index`.
    pub open spec fn release(self, index: int, amount: nat) -> HeapsView {
        let heap = self.heap_of(index);
        HeapsView {
            types: self.types.update(index, self.types[index].release(amount)),
            heaps: self.heaps.update(heap, self.heaps[heap].release(amount)),
        }
    }
}

/// Memory types that have handed out nothing put no load on any heap.
pub proof fn lemma_load_zero(types: Seq<TypeView>, heap: int)
    requires
        forall|t: int| 0 <= t < types.len() ==> (#[trigger] types[t]).used == 0,
    ensures
        load(types, heap) == 0,
    decreases types.len(),
{
    if types.len() > 0 {
        lemma_load_zero(types.drop_last(), heap);
    }
}

/// Changing what one memory type has handed out changes the load of its
/// heap by as much, and the load of no other heap.
pub proof fn lemma_load_update(types: Seq<TypeView>, index: int, used: nat, heap: int)
    requires
        0 <= index < types.len(),
    ensures
        load(types.update(index, types[index].with_used(used)), heap) == if types[index].heap_index
            == heap {
            load(types, heap) - types[index].used + used
        } else {
            load(types, heap) as int
        },
    decreases types.len(),
{
    let changed = types.update(index, types[index].with_used(used));
    if index == types.len() - 1 {
        assert(changed.drop_last() =~= types.drop_last());
    } else {
        lemma_load_update(types.drop_last(), index, used, heap);
        assert(changed.drop_last() =~= types.drop_last().update(
            index,
            types.drop_last()[index].with_used(used),
        ));
    }
}

/// What one memory type has handed out is part of the load of its heap.
pub proof fn lemma_load_covers(types: Seq<TypeView>, index: int)
    requires
        0 <= index < types.len(),
    ensures
        types[index].used <= load(types, types[index].heap_index),
    decreases types.len(),
{
    if index < types.len() - 1 {
        lemma_load_covers(types.drop_last(), index);
    }
}

/// Handing out bytes that the heap still has keeps the accounting sound.
pub proof fn lemma_charge_wf(view: HeapsView, index: int, amount: nat)
    requires
        view.wf(),
        0 <= index < view.types.len(),
        amount <= view.available(view.heap_of(index)),
    ensures
        view.charge(index, amount).wf(),
{
    let after = view.charge(index, amount);
    assert forall|h: int| 0 <= h < after.heaps.len() implies load(after.types, h) <= (
    #[trigger] after.heaps[h]).used <= after.heaps[h].size by {
        lemma_load_update(view.types, index, view.types[index].used + amount, h);
        assert(load(view.types, h) <= view.heaps[h].used);
    }
    assert forall|t: int| 0 <= t < after.types.len() implies (#[trigger] after.types[t]).index == t
        && 0 <= after.types[t].heap_index < after.heaps.len() by {
        assert(view.types[t].index == t);
        assert(0 <= view.types[t].heap_index < view.heaps.len());
    }
}

/// Bytes that a memory type has handed out can be taken back from its
/// heap, and taking them back keeps the accounting sound.
pub proof fn lemma_release_wf(view: HeapsView, index: int, amount: nat)
    requires
        view.wf(),
        view.holds(index, amount),
    ensures
        amount <= view.heaps[view.heap_of(index)].used,
        view.release(index, amount).wf(),
{
    let after = view.release(index, amount);
    let heap = view.heap_of(index);
    assert(0 <= view.types[index].heap_index < view.heaps.len());
    lemma_load_covers(view.types, index);
    assert(load(view.types, heap) <= view.heaps[heap].used);
    assert forall|h: int| 0 <= h < after.heaps.len() implies load(after.types, h) <= (
    #[trigger] after.heaps[h]).used <= after.heaps[h].size by {
        lemma_load_update(view.types, index, (view.types[index].used - amount) as nat, h);
        assert(load(view.types, h) <= view.heaps[h].used);
    }
    assert forall|t: int| 0 <= t < after.types.len() implies (#[trigger] after.types[t]).index == t
        && 0 <= after.types[t].heap_index < after.heaps.len() by {
        assert(view.types[t].index == t);
        assert(0 <= view.types[t].heap_index < view.heaps.len());
    }
}

} // verus!
