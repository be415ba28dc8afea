//! The byte budget of one heap.

use crate::memory::Size;
use crate::model::HeapView;
use crate::stats::MemoryHeapUtilization;
use vstd::prelude::*;

verus! {

/// Keeps count of the bytes of one heap that are handed out.
#[derive(Debug)]
pub struct MemoryHeap {
    size: Size,
    used: Size,
}

impl View for MemoryHeap {
    type V = HeapView;

    closed spec fn view(&self) -> HeapView {
        HeapView { size: self.size as nat, used: self.used as nat }
    }
}

impl MemoryHeap {
    /// No more is handed out than the heap has.
    pub open spec fn wf(&self) -> bool {
        self@.used <= self@.size
    }

    /// The counts of a heap are machine numbers.
    pub proof fn lemma_bounded(&self)
        ensures
            self@.size <= u64::MAX,
            self@.used <= u64::MAX,
    {
    }

    /// A heap of `size` bytes, none of them handed out.
    pub fn new(size: Size) -> (heap: Self)
        ensures
            heap@ == (HeapView { size: size as nat, used: 0 }),
            heap.wf(),
    {
        MemoryHeap { size, used: 0 }
    }

    /// Bytes that are not handed out.
    pub fn available(&self) -> (bytes: Size)
        requires
            self.wf(),
        ensures
            bytes == self@.available(),
    {
        self.size - self.used
    }

    /// Counts `amount` more bytes as handed out.
    pub fn allocated(&mut self, amount: Size)
        requires
            old(self).wf(),
            amount <= old(self)@.available(),
        ensures
            final(self)@ == old(self)@.charge(amount as nat),
            final(self).wf(),
    {
        self.used = self.used + amount;
    }

    /// Counts `amount` bytes as given back.
    pub fn freed(&mut self, amount: Size)
        requires
            old(self).wf(),
            amount <= old(self)@.used,
        ensures
            final(self)@ == old(self)@.release(amount as nat),
            final(self).wf(),
    {
        self.used = self.used - amount;
    }

    /// The bytes handed out and the bytes that the heap has.
    pub fn utilization(&self) -> (report: MemoryHeapUtilization)
        ensures
            report.used == self@.used,
            report.size == self@.size,
    {
        MemoryHeapUtilization { used: self.used, size: self.size }
    }
}

} // verus!
