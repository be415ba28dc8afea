//! The router: it matches each request to a memory type, keeps every heap
//! within its budget, and leaves the block itself to the type's strategy.

use crate::allocator::Allocators;
use crate::block::{BlockFlavor, DedicatedBlock, GeneralBlock, LinearBlock, MemoryBlock};
use crate::config::HeapsConfig;
use crate::error::{AllocationError, HeapsError, OutOfMemory};
use crate::heap::MemoryHeap;
use crate::laws::lemma_choice_is_unique;
use crate::memory::{Properties, Size};
use crate::memory_type::{from_dedicated, from_general, from_linear, MemoryType};
use crate::model::{
    admits, lemma_charge_wf, lemma_load_covers, lemma_load_zero, lemma_release_wf, load, HeapView,
    HeapsView, TypeView,
};
use crate::stats::{MemoryHeapUtilization, MemoryTypeUtilization, TotalMemoryUtilization};
use crate::usage::{Kind, MemoryUsage};
use vstd::prelude::*;

verus! {

/// The memory types and heaps of one device.
///
/// A request names the memory types it accepts by a mask of 32 bits, one
/// for each index, so only the first 32 memory types can ever be chosen.
///
/// The view is the accounting: what each memory type is and how many
/// bytes are handed out. The strategies are no part of it; contracts
/// speak of them by [`Heaps::strategies`], and say of every call which
/// strategy was asked, what it was handed, and what was made of its
/// answer.
#[derive(Debug)]
pub struct Heaps<A: Allocators> {
    types: Vec<MemoryType<A>>,
    heaps: Vec<MemoryHeap>,
}

impl<A: Allocators> View for Heaps<A> {
    type V = HeapsView;

    closed spec fn view(&self) -> HeapsView {
        HeapsView {
            types: Seq::new(self.types@.len(), |t: int| self.types@[t]@),
            heaps: Seq::new(self.heaps@.len(), |h: int| self.heaps@[h]@),
        }
    }
}

/// The failure that says a heap has no room.
pub open spec fn out_of_device_memory() -> HeapsError {
    HeapsError::AllocationError(AllocationError::OutOfMemory(OutOfMemory::Device))
}

/// Whether `answer` is a block that takes more than the `available`
/// bytes of its heap.
pub open spec fn refused<M>(
    answer: Result<(BlockFlavor<M>, Size), AllocationError>,
    available: int,
) -> bool {
    answer matches Ok((_, charged)) && charged > available
}

/// Whether `result` is what is made of the `answer` of a strategy of the
/// memory type `memory_index`, whose heap has `available` bytes left: a
/// failure is passed on, a block that the heap can bear is handed out
/// with its charge, and any other block is refused for want of device
/// memory.
pub open spec fn booked<M>(
    answer: Result<(BlockFlavor<M>, Size), AllocationError>,
    memory_index: u32,
    available: int,
    result: Result<MemoryBlock<M>, HeapsError>,
) -> bool {
    match answer {
        Err(error) => result == Err::<MemoryBlock<M>, HeapsError>(
            HeapsError::AllocationError(error),
        ),
        Ok((flavor, charged)) => if charged <= available {
            &&& result matches Ok(block)
            &&& block.flavor() == flavor
            &&& block.index() == memory_index
            &&& block.charge() == charged
        } else {
            result == Err::<MemoryBlock<M>, HeapsError>(out_of_device_memory())
        },
    }
}

/// Whether strategies that stood as `before` were told to give back to
/// `device` what they hold.
pub open spec fn cleared<A: Allocators>(before: A, device: &A::Device) -> bool {
    exists|strategies: &mut A|
        *strategies == before && #[trigger] call_ensures(A::clear, (strategies, device), ())
}

impl<A: Allocators> Heaps<A> {
    /// The accounting is sound: see [`HeapsView::wf`].
    pub open spec fn wf(&self) -> bool {
        self@.wf()
    }

    /// The strategies of the memory type `index`, as they stand. They
    /// are no part of the view, which is the accounting alone.
    pub closed spec fn strategies(&self, index: int) -> A {
        self.types@[index].strategies()
    }

    /// Whether all memory types but `index` have their strategies as in
    /// `other`.
    pub open spec fn same_strategies_but(&self, other: &Self, index: int) -> bool {
        forall|t: int|
            0 <= t < other@.types.len() && t != index ==> #[trigger] self.strategies(t)
                == other.strategies(t)
    }

    /// Whether all memory types have their strategies as in `other`.
    pub open spec fn same_strategies(&self, other: &Self) -> bool {
        forall|t: int|
            0 <= t < other@.types.len() ==> #[trigger] self.strategies(t) == other.strategies(t)
    }

    /// Heaps whose memory types and heaps each look the same have the
    /// same accounting.
    proof fn lemma_same_view(&self, other: &Self)
        requires
            self.heaps@ == other.heaps@,
            self.types@.len() == other.types@.len(),
            forall|t: int| 0 <= t < self.types@.len() ==> self.types@[t]@ == other.types@[t]@,
        ensures
            self@ == other@,
    {
        assert(self@.types =~= other@.types);
        assert(self@.heaps =~= other@.heaps);
    }

    /// The memory types and heaps of a device, with nothing handed out.
    ///
    /// `types` gives for each memory type its properties, the index of
    /// its heap and the settings of its strategies; `heaps` gives the
    /// size of each heap in bytes. The strategies of each memory type are
    /// those that [`Allocators::new`] makes from its index, its
    /// properties, its settings and `non_coherent_atom_size`.
    pub fn new(
        types: Vec<(Properties, u32, HeapsConfig)>,
        heaps: Vec<Size>,
        non_coherent_atom_size: Size,
    ) -> (this: Self)
        requires
            forall|t: int| 0 <= t < types@.len() ==> (#[trigger] types@[t]).1 < heaps@.len(),
        ensures
            this.wf(),
            this@.types.len() == types@.len(),
            this@.heaps.len() == heaps@.len(),
            forall|t: int|
                0 <= t < types@.len() ==> #[trigger] this@.types[t] == (TypeView {
                    index: t,
                    properties: types@[t].0,
                    heap_index: types@[t].1 as int,
                    config: types@[t].2,
                    non_coherent_atom_size: non_coherent_atom_size as nat,
                    used: 0,
                }),
            forall|h: int|
                0 <= h < heaps@.len() ==> #[trigger] this@.heaps[h] == (HeapView {
                    size: heaps@[h] as nat,
                    used: 0,
                }),
            forall|t: int|
                0 <= t < types@.len() ==> call_ensures(
                    A::new,
                    (t as usize, types@[t].0, types@[t].2, non_coherent_atom_size),
                    #[trigger] this.strategies(t),
                ),
    {
        let mut memory_heaps: Vec<MemoryHeap> = Vec::new();
        let mut h: usize = 0;
        while h < heaps.len()
            invariant
                h <= heaps@.len(),
                memory_heaps@.len() == h,
                forall|k: int|
                    0 <= k < h ==> (#[trigger] memory_heaps@[k])@ == (HeapView {
                        size: heaps@[k] as nat,
                        used: 0,
                    }),
            decreases heaps@.len() - h,
        {
            memory_heaps.push(MemoryHeap::new(heaps[h]));
            h += 1;
        }
        let mut memory_types: Vec<MemoryType<A>> = Vec::new();
        let mut t: usize = 0;
        while t < types.len()
            invariant
                t <= types@.len(),
                memory_types@.len() == t,
                memory_heaps@.len() == heaps@.len(),
                forall|k: int| 0 <= k < types@.len() ==> (#[trigger] types@[k]).1 < heaps@.len(),
                forall|k: int|
                    0 <= k < t ==> (#[trigger] memory_types@[k])@ == (TypeView {
                        index: k,
                        properties: types@[k].0,
                        heap_index: types@[k].1 as int,
                        config: types@[k].2,
                        non_coherent_atom_size: non_coherent_atom_size as nat,
                        used: 0,
                    }),
                forall|k: int|
                    0 <= k < t ==> call_ensures(
                        A::new,
                        (k as usize, types@[k].0, types@[k].2, non_coherent_atom_size),
                        (#[trigger] memory_types@[k]).strategies(),
                    ),
            decreases types@.len() - t,
        {
            let (properties, heap_index, config) = types[t];
            memory_types.push(
                MemoryType::new(
                    t,
                    heap_index as usize,
                    properties,
                    config,
                    non_coherent_atom_size,
                ),
            );
            t += 1;
        }
        let this = Heaps { types: memory_types, heaps: memory_heaps };
        proof {
            assert forall|k: int| 0 <= k < this@.heaps.len() implies load(this@.types, k) <= (
            #[trigger] this@.heaps[k]).used <= this@.heaps[k].size by {
                lemma_load_zero(this@.types, k);
            }
        }
        this
    }

    /// How many memory types there are. Zero once [`Heaps::clear`] has
    /// run; anything else when the value is dropped means that strategies
    /// still hold device memory.
    pub fn live_types(&self) -> (count: usize)
        ensures
            count == self@.types.len(),
    {
        self.types.len()
    }

    /// Picks the memory type for a request, and changes nothing.
    ///
    /// Of the memory types that `mask` admits and that have the
    /// properties that `usage` requires, those come into question whose
    /// heap has more than `size + align` bytes left. The one that fits
    /// `usage` best is picked, and where several fit equally well, the
    /// one with the lowest index.
    ///
    /// Where no memory type that `mask` admits has the required
    /// properties, the request can never be served, and the answer is
    /// [`HeapsError::NoSuitableMemory`]. Where some have them, but none
    /// with a heap that has the room, the answer is an
    /// [`HeapsError::AllocationError`] for want of device memory.
    pub fn select(&self, mask: u32, usage: MemoryUsage, size: Size, align: Size) -> (choice:
        Result<u32, HeapsError>)
        requires
            self.wf(),
        ensures
            (forall|i: int| !self@.suitable(i, mask, usage.required())) ==> choice
                is Err && choice->Err_0 is NoSuitableMemory,
            (exists|i: int| self@.suitable(i, mask, usage.required())) && (forall|i: int|
                !self@.eligible(i, mask, usage.required(), size as nat, align as nat)) ==> choice
                == Err::<u32, HeapsError>(out_of_device_memory()),
            (exists|i: int| self@.eligible(i, mask, usage.required(), size as nat, align as nat))
                ==> choice is Ok,
            match choice {
                Ok(index) => self@.best(index as int, mask, usage, size as nat, align as nat),
                Err(HeapsError::NoSuitableMemory(m, p)) => {
                    &&& m == mask
                    &&& p@ == usage.required()
                    &&& forall|i: int| !self@.suitable(i, mask, usage.required())
                },
                Err(HeapsError::AllocationError(error)) => {
                    &&& error == AllocationError::OutOfMemory(OutOfMemory::Device)
                    &&& exists|i: int| self@.suitable(i, mask, usage.required())
                    &&& forall|i: int|
                        !self@.eligible(i, mask, usage.required(), size as nat, align as nat)
                },
            },
    {
        let required = usage.properties_required();
        let count: usize = if self.types.len() < 32 {
            self.types.len()
        } else {
            32
        };
        let mut found: bool = false;
        let ghost mut witness: int = 0;
        let mut best: Option<(u32, u32)> = None;
        let mut i: usize = 0;
        while i < count
            invariant
                self.wf(),
                i <= count <= 32,
                count <= self.types@.len(),
                count == 32 || count == self.types@.len(),
                required@ == usage.required(),
                found ==> self@.suitable(witness, mask, usage.required()),
                !found ==> forall|j: int| 0 <= j < i ==> !self@.suitable(j, mask, usage.required()),
                match best {
                    None => forall|j: int|
                        0 <= j < i ==> !self@.eligible(
                            j,
                            mask,
                            usage.required(),
                            size as nat,
                            align as nat,
                        ),
                    Some((index, fitness)) => {
                        &&& index < i
                        &&& self@.eligible(
                            index as int,
                            mask,
                            usage.required(),
                            size as nat,
                            align as nat,
                        )
                        &&& fitness == usage.fitness(self@.types[index as int].properties)
                        &&& forall|j: int|
                            0 <= j < i && #[trigger] self@.eligible(
                                j,
                                mask,
                                usage.required(),
                                size as nat,
                                align as nat,
                            ) ==> {
                                let theirs = usage.fitness(self@.types[j].properties);
                                theirs < fitness || (theirs == fitness && index <= j)
                            }
                    },
                },
            decreases count - i,
        {
            let memory_type = &self.types[i];
            let properties = memory_type.properties();
            assert(self@.types[i as int] == memory_type@);
            if mask & (1u32 << (i as u32)) != 0 && properties.contains(required) {
                found = true;
                proof {
                    witness = i as int;
                }
                let heap_index = memory_type.heap_index();
                assert(0 <= self@.types[i as int].heap_index < self@.heaps.len());
                let heap = &self.heaps[heap_index];
                assert(self@.heaps[heap_index as int] == heap@);
                let available = heap.available();
                if size < available && align < available - size {
                    let fitness = usage.memory_fitness(properties);
                    let better = match best {
                        Some((_, held)) => held < fitness,
                        None => true,
                    };
                    if better {
                        best = Some((i as u32, fitness));
                    }
                }
            }
            i += 1;
        }
        proof {
            assert forall|j: int| count <= j implies !self@.suitable(
                j,
                mask,
                usage.required(),
            ) by {
                if j < self@.types.len() {
                    assert(!admits(mask, j));
                }
            }
        }
        match best {
            Some((index, _)) => Ok(index),
            None => if found {
                Err(HeapsError::AllocationError(AllocationError::OutOfMemory(OutOfMemory::Device)))
            } else {
                Err(HeapsError::NoSuitableMemory(mask, required))
            },
        }
    }

    /// Serves a request from one of the memory types that `mask` admits.
    ///
    /// The memory type is picked as [`Heaps::select`] says, and the block
    /// comes from its strategy as [`Heaps::allocate_from`] says: the
    /// strategy that [`HeapsConfig::strategy_for`] picks is asked once,
    /// for `size` bytes aligned to `align`, and its answer is booked as
    /// [`Heaps::settle`] says. Whether the strategy succeeds is for the
    /// strategy and the device to say; whatever they say, either a block
    /// comes back and exactly its charge is added to the accounting, or
    /// nothing changes. The strategies of no other memory type are
    /// touched, and where the request fails before a strategy is asked,
    /// none are.
    ///
    /// A heap is asked to have more than `size + align` bytes left, which
    /// covers the bytes that alignment can cost at worst. A heap that
    /// passes has `size` bytes left as well, so the test that
    /// [`Heaps::allocate_from`] makes never fails a request that came
    /// this way.
    pub fn allocate(
        &mut self,
        device: &A::Device,
        mask: u32,
        usage: MemoryUsage,
        size: Size,
        align: Size,
    ) -> (result: Result<MemoryBlock<A::Memory>, HeapsError>)
        requires
            old(self).wf(),
        ensures
            final(self).wf(),
            (forall|i: int| !old(self)@.suitable(i, mask, usage.required())) ==> result
                is Err && result->Err_0 is NoSuitableMemory,
            (exists|i: int| old(self)@.suitable(i, mask, usage.required())) && (forall|i: int|
                !old(self)@.eligible(i, mask, usage.required(), size as nat, align as nat))
                ==> result == Err::<MemoryBlock<A::Memory>, HeapsError>(out_of_device_memory()),
            (forall|i: int|
                !old(self)@.eligible(i, mask, usage.required(), size as nat, align as nat))
                ==> final(self).same_strategies(old(self)),
            forall|t: int|
                0 <= t < old(self)@.types.len() && !old(self)@.best(
                    t,
                    mask,
                    usage,
                    size as nat,
                    align as nat,
                ) ==> #[trigger] final(self).strategies(t) == old(self).strategies(t),
            forall|index: int|
                #[trigger] old(self)@.best(index, mask, usage, size as nat, align as nat)
                    && old(self)@.types[index].config.fittest(usage, size, Kind::Dedicated)
                    ==> exists|
                strategies: &mut A,
                answer: Result<(DedicatedBlock<A::Memory>, Size), AllocationError>,
            |
                {
                    &&& *strategies == old(self).strategies(index)
                    &&& #[trigger] call_ensures(
                        A::allocate_dedicated,
                        (strategies, device, size, align),
                        answer,
                    )
                    &&& booked(from_dedicated(answer), index as u32, old(self)@.room(index), result)
                    &&& if refused(from_dedicated(answer), old(self)@.room(index)) {
                        answer matches Ok((inner, _)) && exists|second: &mut A, reported: Size|
                            {
                                &&& *second == *final(strategies)
                                &&& *final(second) == final(self).strategies(index)
                                &&& #[trigger] call_ensures(
                                    A::free_dedicated,
                                    (second, device, inner),
                                    reported,
                                )
                            }
                    } else {
                        *final(strategies) == final(self).strategies(index)
                    }
                },
            forall|index: int|
                #[trigger] old(self)@.best(index, mask, usage, size as nat, align as nat)
                    && old(self)@.types[index].config.fittest(usage, size, Kind::General)
                    ==> exists|
                strategies: &mut A,
                answer: Result<(GeneralBlock<A::Memory>, Size), AllocationError>,
            |
                {
                    &&& *strategies == old(self).strategies(index)
                    &&& #[trigger] call_ensures(
                        A::allocate_general,
                        (strategies, device, size, align),
                        answer,
                    )
                    &&& booked(from_general(answer), index as u32, old(self)@.room(index), result)
                    &&& if refused(from_general(answer), old(self)@.room(index)) {
                        answer matches Ok((inner, _)) && exists|second: &mut A, reported: Size|
                            {
                                &&& *second == *final(strategies)
                                &&& *final(second) == final(self).strategies(index)
                                &&& #[trigger] call_ensures(
                                    A::free_general,
                                    (second, device, inner),
                                    reported,
                                )
                            }
                    } else {
                        *final(strategies) == final(self).strategies(index)
                    }
                },
            forall|index: int|
                #[trigger] old(self)@.best(index, mask, usage, size as nat, align as nat)
                    && old(self)@.types[index].config.fittest(usage, size, Kind::Linear)
                    ==> exists|
                strategies: &mut A,
                answer: Result<(LinearBlock<A::Memory>, Size), AllocationError>,
            |
                {
                    &&& *strategies == old(self).strategies(index)
                    &&& #[trigger] call_ensures(
                        A::allocate_linear,
                        (strategies, device, size, align),
                        answer,
                    )
                    &&& booked(from_linear(answer), index as u32, old(self)@.room(index), result)
                    &&& if refused(from_linear(answer), old(self)@.room(index)) {
                        answer matches Ok((inner, _)) && exists|second: &mut A, reported: Size|
                            {
                                &&& *second == *final(strategies)
                                &&& *final(second) == final(self).strategies(index)
                                &&& #[trigger] call_ensures(
                                    A::free_linear,
                                    (second, device, inner),
                                    reported,
                                )
                            }
                    } else {
                        *final(strategies) == final(self).strategies(index)
                    }
                },
            match result {
                Ok(block) => {
                    &&& old(self)@.best(
                        block.index() as int,
                        mask,
                        usage,
                        size as nat,
                        align as nat,
                    )
                    &&& old(self)@.types[block.index() as int].config.fittest(
                        usage,
                        size,
                        block.flavor().spec_kind(),
                    )
                    &&& block.charge() <= old(self)@.room(block.index() as int)
                    &&& final(self)@ == old(self)@.charge(
                        block.index() as int,
                        block.charge() as nat,
                    )
                    &&& final(self)@.holds(block.index() as int, block.charge() as nat)
                },
                Err(HeapsError::NoSuitableMemory(m, p)) => {
                    &&& m == mask
                    &&& p@ == usage.required()
                    &&& forall|i: int| !old(self)@.suitable(i, mask, usage.required())
                    &&& final(self)@ == old(self)@
                },
                Err(HeapsError::AllocationError(error)) => {
                    &&& exists|i: int| old(self)@.suitable(i, mask, usage.required())
                    &&& (forall|i: int|
                        !old(self)@.eligible(i, mask, usage.required(), size as nat, align as nat))
                        ==> error == AllocationError::OutOfMemory(OutOfMemory::Device)
                    &&& final(self)@ == old(self)@
                },
            },
    {
        match self.select(mask, usage, size, align) {
            Ok(memory_index) => {
                proof {
                    assert forall|index: int| #[trigger]
                        self@.best(index, mask, usage, size as nat, align as nat) implies index
                        == memory_index by {
                        lemma_choice_is_unique(
                            self@,
                            index,
                            memory_index as int,
                            mask,
                            usage,
                            size as nat,
                            align as nat,
                        );
                    }
                }
                let result = self.allocate_from(device, memory_index, usage, size, align);
                proof {
                    if result is Err {
                        assert(old(self)@.suitable(memory_index as int, mask, usage.required()));
                    }
                }
                result
            },
            Err(error) => Err(error),
        }
    }

    /// Serves a request from the memory type `memory_index`.
    ///
    /// Where the heap of that memory type has fewer than `size` bytes
    /// left, the request fails at once for want of device memory, and
    /// no strategy is asked. Otherwise the memory type asks the strategy
    /// that [`HeapsConfig::strategy_for`] picks, once, for `size` bytes
    /// aligned to `align`, and what it answers is booked as
    /// [`Heaps::settle`] says: the request fails only as the strategy
    /// failed, or because the block takes more than the heap has left,
    /// in which case the strategy gets the block back. The strategies of
    /// no other memory type are touched.
    pub fn allocate_from(
        &mut self,
        device: &A::Device,
        memory_index: u32,
        usage: MemoryUsage,
        size: Size,
        align: Size,
    ) -> (result: Result<MemoryBlock<A::Memory>, HeapsError>)
        requires
            old(self).wf(),
            (memory_index as int) < old(self)@.types.len(),
        ensures
            final(self).wf(),
            old(self)@.room(memory_index as int) < size ==> result
                == Err::<MemoryBlock<A::Memory>, HeapsError>(out_of_device_memory()),
            old(self)@.room(memory_index as int) < size
                ==> final(self).same_strategies(old(self)),
            final(self).same_strategies_but(old(self), memory_index as int),
            old(self)@.types[memory_index as int].config.fittest(usage, size, Kind::Dedicated)
                && size <= old(self)@.room(memory_index as int) ==> exists|
                strategies: &mut A,
                answer: Result<(DedicatedBlock<A::Memory>, Size), AllocationError>,
            |
                {
                    &&& *strategies == old(self).strategies(memory_index as int)
                    &&& #[trigger] call_ensures(
                        A::allocate_dedicated,
                        (strategies, device, size, align),
                        answer,
                    )
                    &&& booked(
                        from_dedicated(answer),
                        memory_index,
                        old(self)@.room(memory_index as int),
                        result,
                    )
                    &&& if refused(
                        from_dedicated(answer),
                        old(self)@.room(memory_index as int),
                    ) {
                        answer matches Ok((inner, _)) && exists|second: &mut A, reported: Size|
                            {
                                &&& *second == *final(strategies)
                                &&& *final(second) == final(self).strategies(
                                    memory_index as int,
                                )
                                &&& #[trigger] call_ensures(
                                    A::free_dedicated,
                                    (second, device, inner),
                                    reported,
                                )
                            }
                    } else {
                        *final(strategies) == final(self).strategies(memory_index as int)
                    }
                },
            old(self)@.types[memory_index as int].config.fittest(usage, size, Kind::General)
                && size <= old(self)@.room(memory_index as int) ==> exists|
                strategies: &mut A,
                answer: Result<(GeneralBlock<A::Memory>, Size), AllocationError>,
            |
                {
                    &&& *strategies == old(self).strategies(memory_index as int)
                    &&& #[trigger] call_ensures(
                        A::allocate_general,
                        (strategies, device, size, align),
                        answer,
                    )
                    &&& booked(
                        from_general(answer),
                        memory_index,
                        old(self)@.room(memory_index as int),
                        result,
                    )
                    &&& if refused(
                        from_general(answer),
                        old(self)@.room(memory_index as int),
                    ) {
                        answer matches Ok((inner, _)) && exists|second: &mut A, reported: Size|
                            {
                                &&& *second == *final(strategies)
                                &&& *final(second) == final(self).strategies(
                                    memory_index as int,
                                )
                                &&& #[trigger] call_ensures(
                                    A::free_general,
                                    (second, device, inner),
                                    reported,
                                )
                            }
                    } else {
                        *final(strategies) == final(self).strategies(memory_index as int)
                    }
                },
            old(self)@.types[memory_index as int].config.fittest(usage, size, Kind::Linear)
                && size <= old(self)@.room(memory_index as int) ==> exists|
                strategies: &mut A,
                answer: Result<(LinearBlock<A::Memory>, Size), AllocationError>,
            |
                {
                    &&& *strategies == old(self).strategies(memory_index as int)
                    &&& #[trigger] call_ensures(
                        A::allocate_linear,
                        (strategies, device, size, align),
                        answer,
                    )
                    &&& booked(
                        from_linear(answer),
                        memory_index,
                        old(self)@.room(memory_index as int),
                        result,
                    )
                    &&& if refused(
                        from_linear(answer),
                        old(self)@.room(memory_index as int),
                    ) {
                        answer matches Ok((inner, _)) && exists|second: &mut A, reported: Size|
                            {
                                &&& *second == *final(strategies)
                                &&& *final(second) == final(self).strategies(
                                    memory_index as int,
                                )
                                &&& #[trigger] call_ensures(
                                    A::free_linear,
                                    (second, device, inner),
                                    reported,
                                )
                            }
                    } else {
                        *final(strategies) == final(self).strategies(memory_index as int)
                    }
                },
            match result {
                Ok(block) => {
                    &&& block.index() == memory_index
                    &&& old(self)@.types[memory_index as int].config.fittest(
                        usage,
                        size,
                        block.flavor().spec_kind(),
                    )
                    &&& size <= old(self)@.room(memory_index as int)
                    &&& block.charge() <= old(self)@.room(memory_index as int)
                    &&& final(self)@ == old(self)@.charge(
                        memory_index as int,
                        block.charge() as nat,
                    )
                    &&& final(self)@.holds(memory_index as int, block.charge() as nat)
                },
                Err(error) => {
                    &&& error is AllocationError
                    &&& final(self)@ == old(self)@
                },
            },
    {
        let heap_index = self.types[memory_index as usize].heap_index();
        assert(self@.types[memory_index as int] == self.types@[memory_index as int]@);
        assert(0 <= self@.types[memory_index as int].heap_index < self@.heaps.len());
        assert(self@.heaps[heap_index as int] == self.heaps@[heap_index as int]@);
        if self.heaps[heap_index].available() < size {
            return Err(
                HeapsError::AllocationError(AllocationError::OutOfMemory(OutOfMemory::Device)),
            );
        }
        let outcome = self.types[memory_index as usize].allocate(device, usage, size, align);
        proof {
            self.lemma_same_view(old(self));
        }
        self.settle(device, memory_index, outcome)
    }

    /// Books what a strategy of the memory type `memory_index` answered
    /// to a request.
    ///
    /// A failure is passed on. A block whose charge the heap can bear is
    /// charged to the heap and to the memory type, and handed out. A block
    /// that would take more than the heap has left goes back to the
    /// strategy of its kind, and the request fails for want of device
    /// memory. No strategy is touched but to take such a block back.
    pub fn settle(
        &mut self,
        device: &A::Device,
        memory_index: u32,
        outcome: Result<(BlockFlavor<A::Memory>, Size), AllocationError>,
    ) -> (result: Result<MemoryBlock<A::Memory>, HeapsError>)
        requires
            old(self).wf(),
            (memory_index as int) < old(self)@.types.len(),
        ensures
            final(self).wf(),
            booked(
                outcome,
                memory_index,
                old(self)@.room(memory_index as int),
                result,
            ),
            final(self).same_strategies_but(old(self), memory_index as int),
            match outcome {
                Err(error) => {
                    &&& final(self)@ == old(self)@
                    &&& final(self).strategies(memory_index as int) == old(self).strategies(
                        memory_index as int,
                    )
                },
                Ok((flavor, charged)) => if charged <= old(self)@.room(memory_index as int) {
                    &&& final(self)@ == old(self)@.charge(memory_index as int, charged as nat)
                    &&& final(self)@.holds(memory_index as int, charged as nat)
                    &&& final(self).strategies(memory_index as int) == old(self).strategies(
                        memory_index as int,
                    )
                } else {
                    &&& final(self)@ == old(self)@
                    &&& match flavor {
                        BlockFlavor::Dedicated(inner) => exists|strategies: &mut A, reported: Size|
                            {
                                &&& *strategies == old(self).strategies(memory_index as int)
                                &&& *final(strategies) == final(self).strategies(
                                memory_index as int,
                            )
                                &&& #[trigger] call_ensures(
                                    A::free_dedicated,
                                    (strategies, device, inner),
                                    reported,
                                )
                            },
                        BlockFlavor::General(inner) => exists|strategies: &mut A, reported: Size|
                            {
                                &&& *strategies == old(self).strategies(memory_index as int)
                                &&& *final(strategies) == final(self).strategies(
                                memory_index as int,
                            )
                                &&& #[trigger] call_ensures(
                                    A::free_general,
                                    (strategies, device, inner),
                                    reported,
                                )
                            },
                        BlockFlavor::Linear(inner) => exists|strategies: &mut A, reported: Size|
                            {
                                &&& *strategies == old(self).strategies(memory_index as int)
                                &&& *final(strategies) == final(self).strategies(
                                memory_index as int,
                            )
                                &&& #[trigger] call_ensures(
                                    A::free_linear,
                                    (strategies, device, inner),
                                    reported,
                                )
                            },
                    }
                },
            },
    {
        match outcome {
            Err(error) => Err(HeapsError::AllocationError(error)),
            Ok((flavor, charged)) => {
                let heap_index = self.types[memory_index as usize].heap_index();
                assert(self@.types[memory_index as int] == self.types@[memory_index as int]@);
                assert(0 <= self@.types[memory_index as int].heap_index < self@.heaps.len());
                assert(self@.heaps[heap_index as int] == self.heaps@[heap_index as int]@);
                if charged <= self.heaps[heap_index].available() {
                    proof {
                        lemma_charge_wf(self@, memory_index as int, charged as nat);
                        lemma_load_covers(self@.types, memory_index as int);
                        self.heaps[heap_index as int].lemma_bounded();
                        assert(load(self@.types, heap_index as int)
                            <= self@.heaps[heap_index as int].used);
                    }
                    self.heaps[heap_index].allocated(charged);
                    self.types[memory_index as usize].charge(charged);
                    proof {
                        let after = old(self)@.charge(memory_index as int, charged as nat);
                        assert(self@.types =~= after.types);
                        assert(self@.heaps =~= after.heaps);
                    }
                    Ok(MemoryBlock::new(flavor, memory_index, charged))
                } else {
                    let _ = self.types[memory_index as usize].free(device, flavor);
                    proof {
                        self.lemma_same_view(old(self));
                    }
                    Err(
                        HeapsError::AllocationError(
                            AllocationError::OutOfMemory(OutOfMemory::Device),
                        ),
                    )
                }
            },
        }
    }

    /// Whether the accounting has what it takes to free `block`: its
    /// memory type exists and has at least the block's charge handed out.
    /// This holds of every block that came from these heaps and has not
    /// been freed.
    pub fn accounts_for(&self, block: &MemoryBlock<A::Memory>) -> (held: bool)
        ensures
            held == self@.holds(block.index() as int, block.charge() as nat),
    {
        let index = block.memory_type() as usize;
        if index < self.types.len() {
            assert(self@.types[index as int] == self.types@[index as int]@);
            block.charged() <= self.types[index].used()
        } else {
            false
        }
    }

    /// Frees a block that came from these heaps.
    ///
    /// The block goes back to the strategy that produced it: the one of
    /// its kind, of its memory type. The bytes that were charged for it
    /// are taken off its memory type and off the heap. A strategy reports
    /// the bytes it gives back, and has to report what it charged; the
    /// bytes taken off are those charged, so that a strategy that
    /// reports anything else cannot unsettle the accounting. No other
    /// memory type is touched.
    pub fn free(&mut self, device: &A::Device, block: MemoryBlock<A::Memory>)
        requires
            old(self).wf(),
            old(self)@.holds(block.index() as int, block.charge() as nat),
        ensures
            final(self).wf(),
            final(self)@ == old(self)@.release(block.index() as int, block.charge() as nat),
            final(self).same_strategies_but(old(self), block.index() as int),
            match block.flavor() {
                BlockFlavor::Dedicated(inner) => exists|strategies: &mut A, reported: Size|
                    {
                        &&& *strategies == old(self).strategies(block.index() as int)
                        &&& *final(strategies) == final(self).strategies(block.index() as int)
                        &&& #[trigger] call_ensures(
                            A::free_dedicated,
                            (strategies, device, inner),
                            reported,
                        )
                    },
                BlockFlavor::General(inner) => exists|strategies: &mut A, reported: Size|
                    {
                        &&& *strategies == old(self).strategies(block.index() as int)
                        &&& *final(strategies) == final(self).strategies(block.index() as int)
                        &&& #[trigger] call_ensures(
                            A::free_general,
                            (strategies, device, inner),
                            reported,
                        )
                    },
                BlockFlavor::Linear(inner) => exists|strategies: &mut A, reported: Size|
                    {
                        &&& *strategies == old(self).strategies(block.index() as int)
                        &&& *final(strategies) == final(self).strategies(block.index() as int)
                        &&& #[trigger] call_ensures(
                            A::free_linear,
                            (strategies, device, inner),
                            reported,
                        )
                    },
            },
    {
        let memory_index = block.memory_type() as usize;
        let charged = block.charged();
        let heap_index = self.types[memory_index].heap_index();
        assert(self@.types[memory_index as int] == self.types@[memory_index as int]@);
        assert(0 <= self@.types[memory_index as int].heap_index < self@.heaps.len());
        assert(self@.heaps[heap_index as int] == self.heaps@[heap_index as int]@);
        proof {
            lemma_release_wf(self@, memory_index as int, charged as nat);
        }
        let _ = self.types[memory_index].free(device, block.into_flavor());
        self.types[memory_index].reclaim(charged);
        self.heaps[heap_index].freed(charged);
        proof {
            let after = old(self)@.release(memory_index as int, charged as nat);
            assert(self@.types =~= after.types);
            assert(self@.heaps =~= after.heaps);
        }
    }

    /// Ends every memory type, in the order of their indices: the
    /// strategies of each are told to give back what they hold.
    ///
    /// To be called once every block is freed and before the value is
    /// dropped. Afterwards there is no memory type left, and the heaps
    /// are as they were.
    pub fn clear(&mut self, device: &A::Device)
        requires
            old(self).wf(),
        ensures
            final(self).wf(),
            final(self)@.types.len() == 0,
            final(self)@.heaps == old(self)@.heaps,
            forall|t: int|
                0 <= t < old(self)@.types.len() ==> cleared(
                    #[trigger] old(self).strategies(t),
                    device,
                ),
    {
        let mut t: usize = 0;
        while t < self.types.len()
            invariant
                self.heaps == old(self).heaps,
                self.types@.len() == old(self).types@.len(),
                forall|k: int| 0 <= k < t ==> cleared(#[trigger] old(self).strategies(k), device),
                forall|k: int|
                    t <= k < self.types@.len() ==> #[trigger] self.types@[k]
                        == old(self).types@[k],
            decreases self.types@.len() - t,
        {
            self.types[t].clear(device);
            t += 1;
        }
        self.types.clear();
        assert(self@.heaps =~= old(self)@.heaps);
    }

    /// How much is handed out of every heap and through every memory
    /// type.
    pub fn utilization(&self) -> (report: TotalMemoryUtilization)
        ensures
            report.heaps@.len() == self@.heaps.len(),
            report.types@.len() == self@.types.len(),
            forall|h: int|
                0 <= h < self@.heaps.len() ==> {
                    &&& (#[trigger] report.heaps@[h]).used == self@.heaps[h].used
                    &&& report.heaps@[h].size == self@.heaps[h].size
                },
            forall|t: int|
                0 <= t < self@.types.len() ==> {
                    &&& (#[trigger] report.types@[t]).used == self@.types[t].used
                    &&& report.types@[t].properties == self@.types[t].properties
                    &&& report.types@[t].heap_index == self@.types[t].heap_index
                },
    {
        let mut heaps: Vec<MemoryHeapUtilization> = Vec::new();
        let mut h: usize = 0;
        while h < self.heaps.len()
            invariant
                h <= self.heaps@.len(),
                heaps@.len() == h,
                forall|k: int|
                    0 <= k < h ==> {
                        &&& (#[trigger] heaps@[k]).used == self.heaps@[k]@.used
                        &&& heaps@[k].size == self.heaps@[k]@.size
                    },
            decreases self.heaps@.len() - h,
        {
            heaps.push(self.heaps[h].utilization());
            h += 1;
        }
        let mut types: Vec<MemoryTypeUtilization> = Vec::new();
        let mut t: usize = 0;
        while t < self.types.len()
            invariant
                t <= self.types@.len(),
                types@.len() == t,
                forall|k: int|
                    0 <= k < t ==> {
                        &&& (#[trigger] types@[k]).used == self.types@[k]@.used
                        &&& types@[k].properties == self.types@[k]@.properties
                        &&& types@[k].heap_index == self.types@[k]@.heap_index
                    },
            decreases self.types@.len() - t,
        {
            types.push(self.types[t].utilization());
            t += 1;
        }
        TotalMemoryUtilization { heaps, types }
    }
}

} // verus!
