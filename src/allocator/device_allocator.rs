//! The base strategy: every block is a whole memory object of its own.

use vstd::multiset::Multiset;
use vstd::prelude::*;

use crate::allocator::{block_for, AllocationRequirements, Block, ComposableAllocator, DeviceMemory};

verus! {

broadcast use vstd::seq_lib::group_to_multiset_ensures;

/// Allocates memory directly on the device: each block is one memory
/// object, mapped right away when it is host visible.
pub struct DeviceAllocator {
    logical_device: u64,
    blocks: Vec<Block>,
}

impl DeviceAllocator {
    /// A strategy for the device `logical_device`, with no block yet.
    pub fn new(logical_device: u64) -> (r: DeviceAllocator)
        ensures
            r.wf(),
            r.live_blocks() == Multiset::<Block>::empty(),
            r.logical_device_spec() == logical_device,
    {
        let r = DeviceAllocator { logical_device, blocks: Vec::new() };
        assert(r.blocks@.to_multiset() =~= Multiset::empty());
        r
    }

    pub closed spec fn logical_device_spec(&self) -> u64 {
        self.logical_device
    }

    /// The device this strategy allocates on.
    pub fn logical_device(&self) -> (r: u64)
        ensures
            r == self.logical_device_spec(),
    {
        self.logical_device
    }
}

impl ComposableAllocator for DeviceAllocator {
    closed spec fn live_blocks(&self) -> Multiset<Block> {
        self.blocks@.to_multiset()
    }

    closed spec fn wf(&self) -> bool {
        true
    }

    fn owns(&self, block: &Block) -> (r: bool) {
        let mut i: usize = 0;
        while i < self.blocks.len()
            invariant
                i <= self.blocks.len(),
                forall|j: int| 0 <= j < i ==> self.blocks@[j] != *block,
            decreases self.blocks.len() - i,
        {
            if self.blocks[i] == *block {
                assert(self.blocks@.contains(*block)) by {
                    assert(self.blocks@[i as int] == *block);
                }
                return true;
            }
            i = i + 1;
        }
        false
    }

    fn allocate_memory(&mut self, requirements: AllocationRequirements, memory: DeviceMemory) -> (r:
        Block) {
        let mapped_address = if requirements.should_map() {
            memory.mapped_address
        } else {
            None
        };
        let block = Block {
            offset: 0,
            size: requirements.allocation_size,
            memory: memory.memory,
            mapped_address,
            memory_type_index: requirements.memory_type_index,
            device_addressable: requirements.device_addressable(),
        };
        self.blocks.push(block);
        block
    }

    fn free_memory(&mut self, block: &Block) -> (r: u64) {
        let mut i: usize = 0;
        while i < self.blocks.len()
            invariant
                i <= self.blocks.len(),
                self.blocks@ == old(self).blocks@,
                forall|j: int| 0 <= j < i ==> self.blocks@[j] != *block,
            decreases self.blocks.len() - i,
        {
            if self.blocks[i] == *block {
                self.blocks.remove(i);
                return block.memory;
            }
            i = i + 1;
        }
        proof {
            assert(!self.blocks@.contains(*block));
        }
        block.memory
    }
}

} // verus!
