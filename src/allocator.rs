//! Device memory allocation: requirements, blocks, and the strategies that
//! hand blocks out and take them back.
//!
//! The device calls themselves (allocating, mapping, freeing memory objects)
//! are made by the caller; a strategy decides what is asked of the device
//! and keeps track of the blocks it produced. Strategies are meant for one
//! thread: calling one from several threads at once is not supported.

use vstd::multiset::Multiset;
use vstd::prelude::*;

pub mod device_allocator;
pub mod owned_block;
pub mod type_index_allocator;

verus! {

/// Memory property: the host can map the memory.
pub const MEMORY_PROPERTY_HOST_VISIBLE: u32 = 0x2;

/// Allocate flag: the memory can be bound to buffers with device addresses.
pub const MEMORY_ALLOCATE_DEVICE_ADDRESS: u32 = 0x2;

/// Buffer usage: the buffer's device address is read by shaders.
pub const BUFFER_USAGE_SHADER_DEVICE_ADDRESS: u32 = 0x20000;

/// The number of memory types a device can describe.
pub const MAX_MEMORY_TYPES: usize = 32;

/// `flags` has every bit of `required` set.
pub open spec fn has_flags(flags: u32, required: u32) -> bool {
    flags & required == required
}

/// Whether `flags` has every bit of `required` set.
pub fn contains_flags(flags: u32, required: u32) -> (r: bool)
    ensures
        r == has_flags(flags, required),
{
    flags & required == required
}

/// A resource's memory requirements, as the device reports them.
#[derive(Copy, Clone, Debug, PartialEq, Eq, Structural)]
pub struct MemoryRequirements {
    pub size: u64,
    pub alignment: u64,
    /// Bit `i` is set when memory type `i` can back the resource.
    pub memory_type_bits: u32,
}

#[derive(Copy, Clone, Debug, PartialEq, Eq, Structural)]
pub enum AllocatorError {
    /// No memory type of the device is both allowed for the resource and
    /// has the requested properties.
    NoCompatibleMemoryType,
}

/// Memory type `index` can back a resource with `requirements` and has every
/// property in `property_flags`.
pub open spec fn is_compatible_type(
    memory_type_flags: Seq<u32>,
    requirements: MemoryRequirements,
    property_flags: u32,
    index: int,
) -> bool {
    &&& 0 <= index < memory_type_flags.len()
    &&& index < 32
    &&& requirements.memory_type_bits & (1u32 << index as u32) != 0
    &&& has_flags(memory_type_flags[index], property_flags)
}

/// The requirements for these inputs: the memory type is the first
/// compatible one.
pub open spec fn requirements_of(
    memory_type_flags: Seq<u32>,
    requirements: MemoryRequirements,
    memory_property_flags: u32,
    memory_allocate_flags: u32,
    dedicated: bool,
) -> Result<AllocationRequirements, AllocatorError> {
    if exists|i: int| is_compatible_type(memory_type_flags, requirements, memory_property_flags, i) {
        let index = choose|i: int|
            is_compatible_type(memory_type_flags, requirements, memory_property_flags, i) && forall|
                j: int,
            |
                0 <= j < i ==> !is_compatible_type(
                    memory_type_flags,
                    requirements,
                    memory_property_flags,
                    j,
                );
        Ok(
            AllocationRequirements {
                alignment: requirements.alignment,
                allocation_size: requirements.size,
                memory_type_index: index as u32,
                memory_property_flags,
                memory_allocate_flags,
                should_be_dedicated: dedicated,
            },
        )
    } else {
        Err(AllocatorError::NoCompatibleMemoryType)
    }
}

/// Everything needed to allocate a block of memory.
#[derive(Copy, Clone, Debug, PartialEq, Eq, Structural)]
pub struct AllocationRequirements {
    pub alignment: u64,
    pub allocation_size: u64,
    pub memory_type_index: u32,
    pub memory_property_flags: u32,
    pub memory_allocate_flags: u32,
    pub should_be_dedicated: bool,
}

/// What a device memory allocation is asked for.
#[derive(Copy, Clone, Debug, PartialEq, Eq, Structural)]
pub struct MemoryAllocateInfo {
    pub allocation_size: u64,
    pub memory_type_index: u32,
    pub flags: u32,
}

impl AllocationRequirements {
    pub open spec fn is_addressable(&self) -> bool {
        has_flags(self.memory_allocate_flags, MEMORY_ALLOCATE_DEVICE_ADDRESS)
    }

    pub open spec fn is_host_visible(&self) -> bool {
        has_flags(self.memory_property_flags, MEMORY_PROPERTY_HOST_VISIBLE)
    }

    /// Determines the allocation requirements: the memory type is the first
    /// one, by index, that the resource allows and that has every property
    /// in `memory_property_flags`.
    ///
    /// `memory_type_flags` holds the property flags of each of the device's
    /// memory types. The same inputs always select the same type.
    pub fn new(
        memory_type_flags: &Vec<u32>,
        requirements: &MemoryRequirements,
        memory_property_flags: u32,
        memory_allocate_flags: u32,
        dedicated: bool,
    ) -> (r: Result<AllocationRequirements, AllocatorError>)
        ensures
            r is Ok <==> exists|i: int|
                is_compatible_type(memory_type_flags@, *requirements, memory_property_flags, i),
            r is Err ==> r->Err_0 == AllocatorError::NoCompatibleMemoryType,
            r is Ok ==> ({
                let a = r->Ok_0;
                &&& is_compatible_type(
                    memory_type_flags@,
                    *requirements,
                    memory_property_flags,
                    a.memory_type_index as int,
                )
                &&& forall|j: int|
                    0 <= j < a.memory_type_index ==> !is_compatible_type(
                        memory_type_flags@,
                        *requirements,
                        memory_property_flags,
                        j,
                    )
                &&& a.alignment == requirements.alignment
                &&& a.allocation_size == requirements.size
                &&& a.memory_property_flags == memory_property_flags
                &&& a.memory_allocate_flags == memory_allocate_flags
                &&& a.should_be_dedicated == dedicated
            }),
            r == requirements_of(
                memory_type_flags@,
                *requirements,
                memory_property_flags,
                memory_allocate_flags,
                dedicated,
            ),
    {
        let mut index: usize = 0;
        while index < memory_type_flags.len() && index < MAX_MEMORY_TYPES
            invariant
                index <= MAX_MEMORY_TYPES,
                forall|j: int|
                    0 <= j < index ==> !is_compatible_type(
                        memory_type_flags@,
                        *requirements,
                        memory_property_flags,
                        j,
                    ),
            decreases MAX_MEMORY_TYPES - index,
        {
            let type_bits: u32 = 1u32 << index as u32;
            let is_supported_type = requirements.memory_type_bits & type_bits != 0;
            let has_properties = contains_flags(memory_type_flags[index], memory_property_flags);
            if is_supported_type && has_properties {
                assert(is_compatible_type(
                    memory_type_flags@,
                    *requirements,
                    memory_property_flags,
                    index as int,
                ));
                let r = Ok(
                    AllocationRequirements {
                        alignment: requirements.alignment,
                        allocation_size: requirements.size,
                        memory_type_index: index as u32,
                        memory_property_flags,
                        memory_allocate_flags,
                        should_be_dedicated: dedicated,
                    },
                );
                proof {
                    let first = choose|i: int|
                        is_compatible_type(memory_type_flags@, *requirements, memory_property_flags, i)
                            && forall|j: int|
                            0 <= j < i ==> !is_compatible_type(
                                memory_type_flags@,
                                *requirements,
                                memory_property_flags,
                                j,
                            );
                    if first < index {
                        assert(!is_compatible_type(
                            memory_type_flags@,
                            *requirements,
                            memory_property_flags,
                            first,
                        ));
                    }
                }
                return r;
            }
            index = index + 1;
        }
        Err(AllocatorError::NoCompatibleMemoryType)
    }

    /// What to ask the device for: this many bytes of this memory type, with
    /// these allocate flags.
    pub fn memory_allocate_info(&self) -> (r: MemoryAllocateInfo)
        ensures
            r == (MemoryAllocateInfo {
                allocation_size: self.allocation_size,
                memory_type_index: self.memory_type_index,
                flags: self.memory_allocate_flags,
            }),
    {
        MemoryAllocateInfo {
            allocation_size: self.allocation_size,
            memory_type_index: self.memory_type_index,
            flags: self.memory_allocate_flags,
        }
    }

    /// Whether the memory is device addressable.
    pub fn device_addressable(&self) -> (r: bool)
        ensures
            r == self.is_addressable(),
    {
        contains_flags(self.memory_allocate_flags, MEMORY_ALLOCATE_DEVICE_ADDRESS)
    }

    /// Whether the memory is mapped for the host right after it is
    /// allocated: it is when it is host visible.
    pub fn should_map(&self) -> (r: bool)
        ensures
            r == self.is_host_visible(),
    {
        contains_flags(self.memory_property_flags, MEMORY_PROPERTY_HOST_VISIBLE)
    }
}

/// A memory object the device allocated, and the host address it is mapped
/// at, if it is.
#[derive(Copy, Clone, Debug, PartialEq, Eq, Structural)]
pub struct DeviceMemory {
    pub memory: u64,
    pub mapped_address: Option<usize>,
}

/// A range of device memory reserved for one resource. It does not free
/// itself.
#[derive(Copy, Clone, Debug, PartialEq, Eq, Structural)]
pub struct Block {
    pub offset: u64,
    pub size: u64,
    pub memory: u64,
    /// Where the host sees the block's first byte, when the memory is mapped.
    pub mapped_address: Option<usize>,
    pub memory_type_index: u32,
    pub device_addressable: bool,
}

/// The block made of a whole memory object allocated for `requirements`:
/// it starts at offset 0, and it is mapped only when the memory is host
/// visible.
pub open spec fn block_for(requirements: AllocationRequirements, memory: DeviceMemory) -> Block {
    Block {
        offset: 0,
        size: requirements.allocation_size,
        memory: memory.memory,
        mapped_address: if requirements.is_host_visible() {
            memory.mapped_address
        } else {
            None
        },
        memory_type_index: requirements.memory_type_index,
        device_addressable: requirements.is_addressable(),
    }
}

/// The partition a block or a request belongs to.
pub open spec fn block_key(block: Block) -> (u32, bool) {
    (block.memory_type_index, block.device_addressable)
}

/// An allocation strategy. Strategies compose: one can route requests to
/// others.
pub trait ComposableAllocator: Sized {
    /// The blocks this strategy produced and that were not freed yet.
    spec fn live_blocks(&self) -> Multiset<Block>;

    /// The strategy's own well-formedness.
    spec fn wf(&self) -> bool;

    /// Whether this strategy produced `block` (and it was not freed since).
    fn owns(&self, block: &Block) -> (r: bool)
        requires
            self.wf(),
        ensures
            r == self.live_blocks().contains(*block),
    ;

    /// Hands out the block for `requirements`, backed by `memory`, which the
    /// device allocated as [AllocationRequirements::memory_allocate_info]
    /// asks (and mapped when [AllocationRequirements::should_map] says so).
    fn allocate_memory(&mut self, requirements: AllocationRequirements, memory: DeviceMemory) -> (r:
        Block)
        requires
            old(self).wf(),
        ensures
            final(self).wf(),
            r == block_for(requirements, memory),
            final(self).live_blocks() == old(self).live_blocks().insert(r),
    ;

    /// Takes back a block this strategy produced. Returns the memory object
    /// that the caller frees on the device.
    fn free_memory(&mut self, block: &Block) -> (r: u64)
        requires
            old(self).wf(),
            old(self).live_blocks().contains(*block),
        ensures
            final(self).wf(),
            final(self).live_blocks() == old(self).live_blocks().remove(*block),
            r == block.memory,
    ;
}

/// A strategy owns every block it produced and has not freed since, and no
/// block produced by an unrelated strategy, one that holds none of its live
/// blocks.
pub proof fn lemma_owns_exactly_produced_blocks<S: ComposableAllocator, T: ComposableAllocator>(
    before: S,
    after: S,
    requirements: AllocationRequirements,
    memory: DeviceMemory,
    unrelated: T,
    foreign: Block,
)
    requires
        after.live_blocks() == before.live_blocks().insert(block_for(requirements, memory)),
        unrelated.live_blocks().contains(foreign),
        forall|b: Block|
            !(after.live_blocks().contains(b) && #[trigger] unrelated.live_blocks().contains(b)),
    ensures
        after.live_blocks().contains(block_for(requirements, memory)),
        !after.live_blocks().contains(foreign),
{
}

} // verus!
