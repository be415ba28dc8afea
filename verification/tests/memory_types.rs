use gfx_memory::memory_type::MemoryType;
use gfx_memory::{
    AllocationError, Allocators, BlockFlavor, DedicatedBlock, GeneralBlock, GeneralConfig,
    HeapsConfig, Kind, LinearBlock, LinearConfig, MemoryTypeUtilization, MemoryUsage, Properties,
    Size,
};
use std::cell::RefCell;

/// Strategies that write down on the device what is asked of them.
struct Recorder {
    properties: Properties,
}

type Journal = RefCell<Vec<String>>;

impl Allocators for Recorder {
    type Device = Journal;
    type Memory = ();

    fn new(_: usize, properties: Properties, _: HeapsConfig, _: Size) -> Self {
        Recorder { properties }
    }

    fn allocate_dedicated(
        &mut self,
        device: &Journal,
        size: Size,
        align: Size,
    ) -> Result<(DedicatedBlock<()>, Size), AllocationError> {
        device.borrow_mut().push(format!("dedicated {} {}", size, align));
        Ok((DedicatedBlock { memory: (), size, properties: self.properties }, size + 1))
    }

    fn allocate_general(
        &mut self,
        device: &Journal,
        size: Size,
        align: Size,
    ) -> Result<(GeneralBlock<()>, Size), AllocationError> {
        device.borrow_mut().push(format!("general {} {}", size, align));
        Ok((GeneralBlock { memory: (), offset: 0, size, properties: self.properties }, size + 2))
    }

    fn allocate_linear(
        &mut self,
        device: &Journal,
        size: Size,
        align: Size,
    ) -> Result<(LinearBlock<()>, Size), AllocationError> {
        device.borrow_mut().push(format!("linear {} {}", size, align));
        Err(AllocationError::TooManyObjects)
    }

    fn free_dedicated(&mut self, device: &Journal, block: DedicatedBlock<()>) -> Size {
        device.borrow_mut().push(format!("free dedicated {}", block.size));
        11
    }

    fn free_general(&mut self, device: &Journal, block: GeneralBlock<()>) -> Size {
        device.borrow_mut().push(format!("free general {}", block.size));
        22
    }

    fn free_linear(&mut self, device: &Journal, block: LinearBlock<()>) -> Size {
        device.borrow_mut().push(format!("free linear {}", block.size));
        33
    }

    fn clear(&mut self, device: &Journal) {
        device.borrow_mut().push("clear".to_string());
    }
}

fn settings() -> HeapsConfig {
    let general = GeneralConfig {
        block_size_granularity: 16,
        max_chunk_size: 256,
        min_device_allocation: 64,
    };
    HeapsConfig { linear: Some(LinearConfig { line_size: 128 }), general: Some(general) }
}

fn memory_type() -> MemoryType<Recorder> {
    MemoryType::new(3, 1, Properties::cpu_visible(), settings(), 64)
}

#[test]
fn a_new_memory_type_keeps_what_it_was_made_of() {
    let memory_type = memory_type();
    assert_eq!(memory_type.index(), 3);
    assert_eq!(memory_type.heap_index(), 1);
    assert_eq!(memory_type.properties(), Properties::cpu_visible());
    assert_eq!(memory_type.config(), settings());
    assert_eq!(memory_type.non_coherent_atom_size(), 64);
    assert_eq!(memory_type.used(), 0);
}

#[test]
fn a_memory_type_asks_the_strategy_that_was_picked() {
    let journal = Journal::default();
    let mut memory_type = memory_type();
    let (block, charged) = memory_type.allocate(&journal, MemoryUsage::Private, 200, 8).unwrap();
    assert_eq!((block.kind(), block.size(), charged), (Kind::General, 200, 202));
    let (block, charged) = memory_type.allocate(&journal, MemoryUsage::Private, 300, 4).unwrap();
    assert_eq!((block.kind(), block.size(), charged), (Kind::Dedicated, 300, 301));
    let staging = MemoryUsage::Staging { read_back: false };
    let refused = memory_type.allocate(&journal, staging, 100, 2);
    assert_eq!(refused.err(), Some(AllocationError::TooManyObjects));
    assert_eq!(*journal.borrow(), ["general 200 8", "dedicated 300 4", "linear 100 2"]);
    assert_eq!(memory_type.used(), 0);
}

#[test]
fn a_memory_type_returns_a_block_to_the_strategy_that_produced_it() {
    let journal = Journal::default();
    let mut memory_type = memory_type();
    let properties = Properties::cpu_visible();
    let dedicated = BlockFlavor::Dedicated(DedicatedBlock { memory: (), size: 1, properties });
    let general = BlockFlavor::General(GeneralBlock { memory: (), offset: 0, size: 2, properties });
    let linear = BlockFlavor::Linear(LinearBlock { memory: (), offset: 0, size: 3, properties });
    assert_eq!(memory_type.free(&journal, general), 22);
    assert_eq!(memory_type.free(&journal, linear), 33);
    assert_eq!(memory_type.free(&journal, dedicated), 11);
    assert_eq!(*journal.borrow(), ["free general 2", "free linear 3", "free dedicated 1"]);
    assert_eq!(memory_type.used(), 0);
}

#[test]
fn a_memory_type_counts_what_is_charged_and_reclaimed() {
    let mut memory_type = memory_type();
    memory_type.charge(100);
    memory_type.charge(u64::MAX - 100);
    assert_eq!(memory_type.used(), u64::MAX);
    memory_type.reclaim(u64::MAX - 1);
    assert_eq!(memory_type.used(), 1);
    assert_eq!(
        memory_type.utilization(),
        MemoryTypeUtilization { used: 1, properties: Properties::cpu_visible(), heap_index: 1 }
    );
    memory_type.reclaim(1);
    assert_eq!(memory_type.used(), 0);
}

#[test]
fn clear_reaches_the_strategies() {
    let journal = Journal::default();
    let mut memory_type = memory_type();
    memory_type.charge(5);
    memory_type.clear(&journal);
    assert_eq!(*journal.borrow(), ["clear"]);
    assert_eq!(memory_type.used(), 5);
}
