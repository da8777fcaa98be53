//! A block tied to the one resource (image or buffer) it backs.

use vstd::prelude::*;

use crate::allocator::{
    block_for, has_flags, requirements_of, AllocationRequirements, AllocatorError, Block,
    ComposableAllocator, DeviceMemory, MemoryRequirements, BUFFER_USAGE_SHADER_DEVICE_ADDRESS,
    MEMORY_ALLOCATE_DEVICE_ADDRESS,
};

verus! {

/// Whether the device prefers or requires a resource to have a memory
/// object of its own.
#[derive(Copy, Clone, Debug, PartialEq, Eq, Structural)]
pub struct DedicatedRequirements {
    pub prefers_dedicated_allocation: bool,
    pub requires_dedicated_allocation: bool,
}

/// The allocate flags a buffer with `usage` needs: device addresses when
/// shaders read the buffer's address, none otherwise.
pub open spec fn buffer_allocate_flags(usage: u32) -> u32 {
    if has_flags(usage, BUFFER_USAGE_SHADER_DEVICE_ADDRESS) {
        MEMORY_ALLOCATE_DEVICE_ADDRESS
    } else {
        0
    }
}

/// A block that backs one resource and is freed exactly once: releasing
/// it consumes it.
pub struct OwnedBlock {
    block: Block,
}

impl OwnedBlock {
    /// The allocation requirements for an image's memory: a dedicated
    /// memory object is asked for when the device prefers or requires one.
    pub fn image_allocation_requirements(
        memory_type_flags: &Vec<u32>,
        requirements: &MemoryRequirements,
        dedicated: DedicatedRequirements,
        memory_property_flags: u32,
    ) -> (r: Result<AllocationRequirements, AllocatorError>)
        ensures
            r == requirements_of(
                memory_type_flags@,
                *requirements,
                memory_property_flags,
                0,
                dedicated.prefers_dedicated_allocation || dedicated.requires_dedicated_allocation,
            ),
    {
        AllocationRequirements::new(
            memory_type_flags,
            requirements,
            memory_property_flags,
            0,
            dedicated.prefers_dedicated_allocation || dedicated.requires_dedicated_allocation,
        )
    }

    /// The allocation requirements for a buffer's memory: as for an image,
    /// and device addressable when shaders read the buffer's address.
    pub fn buffer_allocation_requirements(
        memory_type_flags: &Vec<u32>,
        requirements: &MemoryRequirements,
        dedicated: DedicatedRequirements,
        usage: u32,
        memory_property_flags: u32,
    ) -> (r: Result<AllocationRequirements, AllocatorError>)
        ensures
            r == requirements_of(
                memory_type_flags@,
                *requirements,
                memory_property_flags,
                buffer_allocate_flags(usage),
                dedicated.prefers_dedicated_allocation || dedicated.requires_dedicated_allocation,
            ),
    {
        let memory_allocate_flags = if crate::allocator::contains_flags(
            usage,
            BUFFER_USAGE_SHADER_DEVICE_ADDRESS,
        ) {
            MEMORY_ALLOCATE_DEVICE_ADDRESS
        } else {
            0
        };
        AllocationRequirements::new(
            memory_type_flags,
            requirements,
            memory_property_flags,
            memory_allocate_flags,
            dedicated.prefers_dedicated_allocation || dedicated.requires_dedicated_allocation,
        )
    }

    /// Takes a block from `allocator` for `requirements`, backed by
    /// `memory`. The resource is then bound to the block's memory object at
    /// the block's offset.
    pub fn allocate<S: ComposableAllocator>(
        allocator: &mut S,
        requirements: AllocationRequirements,
        memory: DeviceMemory,
    ) -> (r: OwnedBlock)
        requires
            old(allocator).wf(),
        ensures
            final(allocator).wf(),
            r@ == block_for(requirements, memory),
            final(allocator).live_blocks() == old(allocator).live_blocks().insert(r@),
    {
        let block = allocator.allocate_memory(requirements, memory);
        OwnedBlock { block }
    }

    /// The block.
    pub fn block(&self) -> (r: Block)
        ensures
            r == self@,
    {
        self.block
    }

    /// Gives the block back to the allocator that produced it. Returns the
    /// memory object the caller frees on the device.
    pub fn release<S: ComposableAllocator>(self, allocator: &mut S) -> (r: u64)
        requires
            old(allocator).wf(),
            old(allocator).live_blocks().contains(self@),
        ensures
            final(allocator).wf(),
            final(allocator).live_blocks() == old(allocator).live_blocks().remove(self@),
            r == self@.memory,
    {
        allocator.free_memory(&self.block)
    }
}

impl View for OwnedBlock {
    type V = Block;

    closed spec fn view(&self) -> Block {
        self.block
    }
}

} // verus!
