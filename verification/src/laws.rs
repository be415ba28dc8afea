//! What holds of the accounting over any run of requests, stated over
//! the same mathematical values that the contracts of
//! [`Heaps`](crate::heaps::Heaps) use.

use crate::block::MemoryBlock;
use crate::model::{admits, lemma_charge_wf, lemma_release_wf, HeapsView, TypeView};
use crate::usage::MemoryUsage;
use vstd::prelude::*;

verus! {

/// What one block that is handed out takes: the bytes charged for it, and
/// the memory type they were charged to.
pub ghost struct Charge {
    /// Index of the memory type that the block came from.
    pub memory_index: int,
    /// Bytes charged for the block.
    pub amount: nat,
}

/// What `block` takes.
pub open spec fn charge_of<M>(block: MemoryBlock<M>) -> Charge {
    Charge { memory_index: block.index() as int, amount: block.charge() as nat }
}

/// Bytes charged to the memory type `index` for the blocks of `live`.
pub open spec fn charged_to_type(live: Seq<Charge>, index: int) -> nat
    decreases live.len(),
{
    if live.len() == 0 {
        0
    } else {
        charged_to_type(live.drop_last(), index) + if live.last().memory_index == index {
            live.last().amount
        } else {
            0
        }
    }
}

/// Bytes charged to `heap` for the blocks of `live`, where `types` says
/// which heap is behind each memory type.
pub open spec fn charged_to_heap(types: Seq<TypeView>, live: Seq<Charge>, heap: int) -> nat
    decreases live.len(),
{
    if live.len() == 0 {
        0
    } else {
        let last = live.last();
        charged_to_heap(types, live.drop_last(), heap) + if types[last.memory_index].heap_index
            == heap {
            last.amount
        } else {
            0
        }
    }
}

/// The accounting agrees with the blocks that are handed out: each block
/// came from a memory type that exists, and every memory type and every
/// heap counts as handed out exactly the bytes charged for those blocks.
pub open spec fn balanced(view: HeapsView, live: Seq<Charge>) -> bool {
    &&& forall|k: int|
        0 <= k < live.len() ==> 0 <= (#[trigger] live[k]).memory_index < view.types.len()
    &&& forall|t: int|
        0 <= t < view.types.len() ==> (#[trigger] view.types[t]).used == charged_to_type(live, t)
    &&& forall|h: int|
        0 <= h < view.heaps.len() ==> (#[trigger] view.heaps[h]).used == charged_to_heap(
            view.types,
            live,
            h,
        )
}

/// Whether the same heap is behind each memory type before and after.
spec fn same_heaps_behind(before: Seq<TypeView>, after: Seq<TypeView>) -> bool {
    &&& before.len() == after.len()
    &&& forall|t: int|
        0 <= t < before.len() ==> (#[trigger] before[t]).heap_index == after[t].heap_index
}

/// What is charged to a heap depends on the memory types only through
/// the heaps behind them.
proof fn lemma_charged_to_heap_by_types(
    before: Seq<TypeView>,
    after: Seq<TypeView>,
    live: Seq<Charge>,
    heap: int,
)
    requires
        same_heaps_behind(before, after),
        forall|k: int|
            0 <= k < live.len() ==> 0 <= (#[trigger] live[k]).memory_index < before.len(),
    ensures
        charged_to_heap(before, live, heap) == charged_to_heap(after, live, heap),
    decreases live.len(),
{
    if live.len() > 0 {
        lemma_charged_to_heap_by_types(before, after, live.drop_last(), heap);
        assert(0 <= live[live.len() - 1].memory_index < before.len());
    }
}

/// Without one of the blocks, a memory type is charged less by the
/// charge of that block, if it is the block's memory type.
proof fn lemma_charged_to_type_remove(live: Seq<Charge>, position: int, index: int)
    requires
        0 <= position < live.len(),
    ensures
        charged_to_type(live, index) == charged_to_type(live.remove(position), index)
            + if live[position].memory_index == index {
            live[position].amount
        } else {
            0
        },
    decreases live.len(),
{
    if position == live.len() - 1 {
        assert(live.remove(position) =~= live.drop_last());
    } else {
        lemma_charged_to_type_remove(live.drop_last(), position, index);
        assert(live.remove(position).drop_last() =~= live.drop_last().remove(position));
    }
}

/// Without one of the blocks, a heap is charged less by the charge of
/// that block, if it is the heap behind the block's memory type.
proof fn lemma_charged_to_heap_remove(
    types: Seq<TypeView>,
    live: Seq<Charge>,
    position: int,
    heap: int,
)
    requires
        0 <= position < live.len(),
    ensures
        charged_to_heap(types, live, heap) == charged_to_heap(types, live.remove(position), heap)
            + if types[live[position].memory_index].heap_index == heap {
            live[position].amount
        } else {
            0
        },
    decreases live.len(),
{
    if position == live.len() - 1 {
        assert(live.remove(position) =~= live.drop_last());
    } else {
        lemma_charged_to_heap_remove(types, live.drop_last(), position, heap);
        assert(live.remove(position).drop_last() =~= live.drop_last().remove(position));
    }
}

/// With nothing handed out and nothing counted as handed out, the
/// accounting agrees with the blocks: there are none.
pub proof fn lemma_fresh_is_balanced(view: HeapsView)
    requires
        forall|t: int| 0 <= t < view.types.len() ==> (#[trigger] view.types[t]).used == 0,
        forall|h: int| 0 <= h < view.heaps.len() ==> (#[trigger] view.heaps[h]).used == 0,
    ensures
        balanced(view, Seq::<Charge>::empty()),
{
}

/// An allocation keeps the books: where the accounting agreed with the
/// blocks handed out, it agrees again after a block was charged and
/// joined them, and every heap is still within its size.
pub proof fn lemma_allocation_keeps_balance(
    view: HeapsView,
    live: Seq<Charge>,
    index: int,
    amount: nat,
)
    requires
        view.wf(),
        balanced(view, live),
        0 <= index < view.types.len(),
        amount <= view.available(view.heap_of(index)),
    ensures
        view.charge(index, amount).wf(),
        balanced(view.charge(index, amount), live.push(Charge { memory_index: index, amount })),
{
    let after = view.charge(index, amount);
    let grown = live.push(Charge { memory_index: index, amount });
    lemma_charge_wf(view, index, amount);
    assert(grown.drop_last() =~= live);
    assert(0 <= view.types[index].heap_index < view.heaps.len());
    assert forall|k: int| 0 <= k < grown.len() implies 0 <= (#[trigger] grown[k]).memory_index
        < after.types.len() by {
        if k < live.len() {
            assert(grown[k] == live[k]);
        }
    }
    assert forall|h: int| 0 <= h < after.heaps.len() implies (#[trigger] after.heaps[h]).used
        == charged_to_heap(after.types, grown, h) by {
        lemma_charged_to_heap_by_types(view.types, after.types, live, h);
        assert(view.heaps[h].used == charged_to_heap(view.types, live, h));
    }
    assert forall|t: int| 0 <= t < after.types.len() implies (#[trigger] after.types[t]).used
        == charged_to_type(grown, t) by {
        assert(view.types[t].used == charged_to_type(live, t));
    }
}

/// A free keeps the books: where the accounting agrees with the blocks
/// handed out, each of them can be freed, and once it is, the accounting
/// agrees with the blocks that remain.
pub proof fn lemma_free_keeps_balance(view: HeapsView, live: Seq<Charge>, position: int)
    requires
        view.wf(),
        balanced(view, live),
        0 <= position < live.len(),
    ensures
        view.holds(live[position].memory_index, live[position].amount),
        view.release(live[position].memory_index, live[position].amount).wf(),
        balanced(
            view.release(live[position].memory_index, live[position].amount),
            live.remove(position),
        ),
{
    let index = live[position].memory_index;
    let amount = live[position].amount;
    let after = view.release(index, amount);
    let rest = live.remove(position);
    assert(0 <= index < view.types.len());
    assert(0 <= view.types[index].heap_index < view.heaps.len());
    lemma_charged_to_type_remove(live, position, index);
    assert(view.types[index].used == charged_to_type(live, index));
    lemma_release_wf(view, index, amount);
    assert forall|k: int| 0 <= k < rest.len() implies 0 <= (#[trigger] rest[k]).memory_index
        < after.types.len() by {
        if k < position {
            assert(rest[k] == live[k]);
        } else {
            assert(rest[k] == live[k + 1]);
        }
    }
    assert forall|t: int| 0 <= t < after.types.len() implies (#[trigger] after.types[t]).used
        == charged_to_type(rest, t) by {
        lemma_charged_to_type_remove(live, position, t);
        assert(view.types[t].used == charged_to_type(live, t));
    }
    assert forall|h: int| 0 <= h < after.heaps.len() implies (#[trigger] after.heaps[h]).used
        == charged_to_heap(after.types, rest, h) by {
        lemma_charged_to_heap_remove(view.types, live, position, h);
        assert forall|k: int| 0 <= k < rest.len() implies 0 <= (#[trigger] rest[k]).memory_index
            < view.types.len() by {
            if k < position {
                assert(rest[k] == live[k]);
            } else {
                assert(rest[k] == live[k + 1]);
            }
        }
        lemma_charged_to_heap_by_types(view.types, after.types, rest, h);
        assert(view.heaps[h].used == charged_to_heap(view.types, live, h));
    }
}

/// One request that succeeded.
pub ghost enum Step {
    /// A block was handed out and charged.
    Allocated(Charge),
    /// One of the blocks handed out was freed: the one at this place in
    /// their sequence.
    Freed(int),
}

/// Whether `step` can follow on accounting `view` with the blocks `live`
/// handed out: an allocation takes from a memory type that exists, and
/// no more than its heap has left; a free takes one of the blocks.
pub open spec fn step_allowed(view: HeapsView, live: Seq<Charge>, step: Step) -> bool {
    match step {
        Step::Allocated(charge) => {
            &&& 0 <= charge.memory_index < view.types.len()
            &&& charge.amount <= view.available(view.heap_of(charge.memory_index))
        },
        Step::Freed(position) => 0 <= position < live.len(),
    }
}

/// The accounting after `step`.
pub open spec fn view_after(view: HeapsView, live: Seq<Charge>, step: Step) -> HeapsView {
    match step {
        Step::Allocated(charge) => view.charge(charge.memory_index, charge.amount),
        Step::Freed(position) => view.release(
            live[position].memory_index,
            live[position].amount,
        ),
    }
}

/// The blocks handed out after `step`.
pub open spec fn live_after(live: Seq<Charge>, step: Step) -> Seq<Charge> {
    match step {
        Step::Allocated(charge) => live.push(charge),
        Step::Freed(position) => live.remove(position),
    }
}

/// Whether the steps of `run` can follow one another, the first of them
/// on accounting `view` with the blocks `live` handed out.
pub open spec fn run_allowed(view: HeapsView, live: Seq<Charge>, run: Seq<Step>) -> bool
    decreases run.len(),
{
    run.len() == 0 || {
        &&& step_allowed(view, live, run.first())
        &&& run_allowed(
            view_after(view, live, run.first()),
            live_after(live, run.first()),
            run.drop_first(),
        )
    }
}

/// The accounting after all steps of `run`.
pub open spec fn view_after_run(view: HeapsView, live: Seq<Charge>, run: Seq<Step>) -> HeapsView
    decreases run.len(),
{
    if run.len() == 0 {
        view
    } else {
        view_after_run(
            view_after(view, live, run.first()),
            live_after(live, run.first()),
            run.drop_first(),
        )
    }
}

/// The blocks handed out after all steps of `run`.
pub open spec fn live_after_run(view: HeapsView, live: Seq<Charge>, run: Seq<Step>) -> Seq<
    Charge,
>
    decreases run.len(),
{
    if run.len() == 0 {
        live
    } else {
        live_after_run(
            view_after(view, live, run.first()),
            live_after(live, run.first()),
            run.drop_first(),
        )
    }
}

/// After any run of allocations and frees that succeeded, every memory
/// type and every heap counts as handed out exactly the bytes charged
/// for the blocks that are handed out then, and no heap counts more than
/// its size. A run holds each of its beginnings, so this is so at every
/// point of it.
pub proof fn lemma_run_keeps_balance(view: HeapsView, live: Seq<Charge>, run: Seq<Step>)
    requires
        view.wf(),
        balanced(view, live),
        run_allowed(view, live, run),
    ensures
        view_after_run(view, live, run).wf(),
        balanced(view_after_run(view, live, run), live_after_run(view, live, run)),
    decreases run.len(),
{
    if run.len() > 0 {
        match run.first() {
            Step::Allocated(charge) => {
                lemma_allocation_keeps_balance(view, live, charge.memory_index, charge.amount);
            },
            Step::Freed(position) => {
                lemma_free_keeps_balance(view, live, position);
            },
        }
        lemma_run_keeps_balance(
            view_after(view, live, run.first()),
            live_after(live, run.first()),
            run.drop_first(),
        );
    }
}

/// Charging a block and then freeing it leaves the accounting as it was
/// before the block was charged.
pub proof fn lemma_free_undoes_allocation(view: HeapsView, index: int, amount: nat)
    requires
        view.wf(),
        0 <= index < view.types.len(),
    ensures
        view.charge(index, amount).holds(index, amount),
        view.charge(index, amount).release(index, amount) == view,
{
    let back = view.charge(index, amount).release(index, amount);
    assert(0 <= view.types[index].heap_index < view.heaps.len());
    assert(back.types =~= view.types);
    assert(back.heaps =~= view.heaps);
}

/// The memory type that is picked for a request is one that the mask
/// admits, it has every property that the usage requires, and its heap
/// has more than the size and the alignment of the request left.
pub proof fn lemma_choice_is_suitable(
    view: HeapsView,
    index: int,
    mask: u32,
    usage: MemoryUsage,
    size: nat,
    align: nat,
)
    requires
        view.best(index, mask, usage, size, align),
    ensures
        0 <= index < view.types.len(),
        admits(mask, index),
        view.types[index].properties.has(usage.required()),
        view.available(view.heap_of(index)) > size + align,
{
}

/// No memory type that could have served the request fits the usage
/// better than the one that is picked, and none that fits as well has a
/// lower index.
pub proof fn lemma_choice_fits_best(
    view: HeapsView,
    index: int,
    other: int,
    mask: u32,
    usage: MemoryUsage,
    size: nat,
    align: nat,
)
    requires
        view.best(index, mask, usage, size, align),
        view.eligible(other, mask, usage.required(), size, align),
    ensures
        usage.fitness(view.types[other].properties) <= usage.fitness(
            view.types[index].properties,
        ),
        usage.fitness(view.types[other].properties) == usage.fitness(
            view.types[index].properties,
        ) ==> index <= other,
{
}

/// The choice is determined: a request has at most one memory type that
/// is the one to take.
pub proof fn lemma_choice_is_unique(
    view: HeapsView,
    first: int,
    second: int,
    mask: u32,
    usage: MemoryUsage,
    size: nat,
    align: nat,
)
    requires
        view.best(first, mask, usage, size, align),
        view.best(second, mask, usage, size, align),
    ensures
        first == second,
{
    lemma_choice_fits_best(view, first, second, mask, usage, size, align);
    lemma_choice_fits_best(view, second, first, mask, usage, size, align);
}

/// A request that some memory type could serve has a memory type that is
/// the one to take.
pub proof fn lemma_choice_exists(
    view: HeapsView,
    candidate: int,
    mask: u32,
    usage: MemoryUsage,
    size: nat,
    align: nat,
) -> (index: int)
    requires
        view.eligible(candidate, mask, usage.required(), size, align),
    ensures
        view.best(index, mask, usage, size, align),
{
    lemma_best_among(view, view.types.len() as int, candidate, mask, usage, size, align)
}

/// Whether `index` is the one to take among the memory types below
/// `bound`.
spec fn best_below(
    view: HeapsView,
    bound: int,
    index: int,
    mask: u32,
    usage: MemoryUsage,
    size: nat,
    align: nat,
) -> bool {
    &&& 0 <= index < bound
    &&& view.eligible(index, mask, usage.required(), size, align)
    &&& forall|other: int|
        0 <= other < bound && #[trigger] view.eligible(
            other,
            mask,
            usage.required(),
            size,
            align,
        ) ==> {
            let mine = usage.fitness(view.types[index].properties);
            let theirs = usage.fitness(view.types[other].properties);
            theirs < mine || (theirs == mine && index <= other)
        }
}

/// Among the memory types below `bound`, of which `candidate` could
/// serve the request, one is the one to take.
proof fn lemma_best_among(
    view: HeapsView,
    bound: int,
    candidate: int,
    mask: u32,
    usage: MemoryUsage,
    size: nat,
    align: nat,
) -> (index: int)
    requires
        0 <= candidate < bound <= view.types.len(),
        view.eligible(candidate, mask, usage.required(), size, align),
    ensures
        best_below(view, bound, index, mask, usage, size, align),
        bound == view.types.len() ==> view.best(index, mask, usage, size, align),
    decreases bound,
{
    let last = bound - 1;
    if candidate == last && forall|j: int|
        0 <= j < last ==> !view.eligible(j, mask, usage.required(), size, align) {
        last
    } else {
        let earlier = if candidate < last {
            candidate
        } else {
            choose|j: int| 0 <= j < last && view.eligible(j, mask, usage.required(), size, align)
        };
        let held = lemma_best_among(view, last, earlier, mask, usage, size, align);
        if view.eligible(last, mask, usage.required(), size, align) && usage.fitness(
            view.types[held].properties,
        ) < usage.fitness(view.types[last].properties) {
            last
        } else {
            held
        }
    }
}

} // verus!
