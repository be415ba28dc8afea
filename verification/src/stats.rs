//! Reports of how much memory is handed out.

use crate::memory::{Properties, Size};
use vstd::prelude::*;

verus! {

/// How much of one heap is handed out.
#[derive(Clone, Copy, Debug, PartialEq, Eq, Structural)]
pub struct MemoryHeapUtilization {
    /// Bytes handed out.
    pub used: Size,
    /// Bytes that the heap has.
    pub size: Size,
}

/// How much is handed out through one memory type.
#[derive(Clone, Copy, Debug, PartialEq, Eq, Structural)]
pub struct MemoryTypeUtilization {
    /// Bytes handed out through the memory type.
    pub used: Size,
    /// Properties of the memory type.
    pub properties: Properties,
    /// Index of the heap behind the memory type.
    pub heap_index: usize,
}

/// How much is handed out of every heap and through every memory type.
#[derive(Debug, PartialEq, Eq)]
pub struct TotalMemoryUtilization {
    /// One report for each heap, by index.
    pub heaps: Vec<MemoryHeapUtilization>,
    /// One report for each memory type, by index.
    pub types: Vec<MemoryTypeUtilization>,
}

} // verus!
