//! A strategy that partitions requests by memory type and addressability,
//! each partition backed by a strategy of its own, made when first needed.

use vstd::multiset::Multiset;
use vstd::prelude::*;

use crate::allocator::{
    block_for, block_key, AllocationRequirements, Block, ComposableAllocator, DeviceMemory,
};

verus! {

/// One partition: the requests of one memory type index and addressability,
/// and the strategy that serves them.
pub struct Partition<A> {
    pub memory_type_index: u32,
    pub addressable: bool,
    pub allocator: A,
}

/// The key a request is routed by.
pub open spec fn request_key(requirements: AllocationRequirements) -> (u32, bool) {
    (requirements.memory_type_index, requirements.is_addressable())
}

pub open spec fn partition_key<A>(p: Partition<A>) -> (u32, bool) {
    (p.memory_type_index, p.addressable)
}

/// The partition keys after a request: a partition is made for the request's
/// key when there is none yet.
pub open spec fn keys_after_allocate(
    keys: Seq<(u32, bool)>,
    requirements: AllocationRequirements,
) -> Seq<(u32, bool)> {
    if keys.contains(request_key(requirements)) {
        keys
    } else {
        keys.push(request_key(requirements))
    }
}

/// The live blocks of all partitions together.
pub open spec fn live_of<A: ComposableAllocator>(parts: Seq<Partition<A>>) -> Multiset<Block>
    decreases parts.len(),
{
    if parts.len() == 0 {
        Multiset::empty()
    } else {
        live_of(parts.drop_last()).add(parts.last().allocator.live_blocks())
    }
}

proof fn lemma_live_of_update<A: ComposableAllocator>(
    parts: Seq<Partition<A>>,
    i: int,
    q: Partition<A>,
)
    requires
        0 <= i < parts.len(),
    ensures
        forall|b: Block|
            #[trigger] live_of(parts.update(i, q)).count(b) + parts[i].allocator.live_blocks().count(
                b,
            ) == live_of(parts).count(b) + q.allocator.live_blocks().count(b),
    decreases parts.len(),
{
    let u = parts.update(i, q);
    if i == parts.len() - 1 {
        assert(u.drop_last() =~= parts.drop_last());
        assert(u.last() == q);
    } else {
        assert(u.drop_last() =~= parts.drop_last().update(i, q));
        assert(u.last() == parts.last());
        assert(parts.drop_last()[i] == parts[i]);
        lemma_live_of_update(parts.drop_last(), i, q);
    }
    assert forall|b: Block|
        #[trigger] live_of(u).count(b) + parts[i].allocator.live_blocks().count(b) == live_of(
            parts,
        ).count(b) + q.allocator.live_blocks().count(b) by {
        assert(live_of(u).count(b) == live_of(u.drop_last()).count(b) + u.last().allocator.live_blocks().count(b));
        assert(live_of(parts).count(b) == live_of(parts.drop_last()).count(b) + parts.last().allocator.live_blocks().count(b));
    }
}

proof fn lemma_live_of_contains<A: ComposableAllocator>(parts: Seq<Partition<A>>, b: Block)
    ensures
        live_of(parts).count(b) > 0 <==> exists|i: int|
            0 <= i < parts.len() && #[trigger] parts[i].allocator.live_blocks().count(b) > 0,
    decreases parts.len(),
{
    if parts.len() > 0 {
        lemma_live_of_contains(parts.drop_last(), b);
        if live_of(parts).count(b) > 0 {
            if parts.last().allocator.live_blocks().count(b) == 0 {
                let i = choose|i: int|
                    0 <= i < parts.drop_last().len()
                        && #[trigger] parts.drop_last()[i].allocator.live_blocks().count(b) > 0;
                assert(parts[i] == parts.drop_last()[i]);
            } else {
                assert(parts[parts.len() - 1] == parts.last());
            }
        }
        if exists|i: int| 0 <= i < parts.len() && #[trigger] parts[i].allocator.live_blocks().count(b) > 0 {
            let i = choose|i: int|
                0 <= i < parts.len() && #[trigger] parts[i].allocator.live_blocks().count(b) > 0;
            if i < parts.len() - 1 {
                assert(parts.drop_last()[i] == parts[i]);
            }
        }
    }
}

/// Routes each request to the partition of its memory type index and
/// addressability; a partition's strategy is made by the factory the first
/// time a request needs it.
pub struct TypeIndexAllocator<A, F> {
    allocators: Vec<Partition<A>>,
    type_index_factory: F,
}

/// The factory can always be called and makes well-formed, empty strategies.
pub open spec fn is_fresh_factory<A: ComposableAllocator, F: Fn(u32, bool) -> A>(f: F) -> bool {
    &&& forall|index: u32, addressable: bool| #[trigger] f.requires((index, addressable))
    &&& forall|index: u32, addressable: bool, a: A|
        #[trigger] f.ensures((index, addressable), a) ==> a.wf() && a.live_blocks()
            == Multiset::<Block>::empty()
}

impl<A: ComposableAllocator, F: Fn(u32, bool) -> A> TypeIndexAllocator<A, F> {
    /// A strategy with no partition yet, that makes the partition of memory
    /// type `i` and addressability `a` with `type_index_factory(i, a)`.
    pub fn new(type_index_factory: F) -> (r: TypeIndexAllocator<A, F>)
        requires
            is_fresh_factory(type_index_factory),
        ensures
            r.wf(),
            r.live_blocks() == Multiset::<Block>::empty(),
            r.partition_keys() == Seq::<(u32, bool)>::empty(),
    {
        let r = TypeIndexAllocator { allocators: Vec::new(), type_index_factory };
        assert(r.allocators@.map_values(|p: Partition<A>| partition_key(p)) =~= Seq::empty());
        r
    }

    /// The keys of the partitions made so far, in the order they were made.
    pub closed spec fn partition_keys(&self) -> Seq<(u32, bool)> {
        self.allocators@.map_values(|p: Partition<A>| partition_key(p))
    }

    /// The number of partitions made so far.
    pub fn partition_count(&self) -> (r: usize)
        ensures
            r == self.partition_keys().len(),
    {
        self.allocators.len()
    }

    /// The index of the partition with `key`, if there is one.
    fn find_partition(&self, key: (u32, bool)) -> (r: Option<usize>)
        requires
            self.wf(),
        ensures
            r is Some ==> r->0 < self.allocators.len() && partition_key(self.allocators@[r->0 as int]) == key,
            r is None ==> !self.partition_keys().contains(key),
    {
        let mut i: usize = 0;
        while i < self.allocators.len()
            invariant
                i <= self.allocators.len(),
                forall|j: int| 0 <= j < i ==> partition_key(#[trigger] self.allocators@[j]) != key,
            decreases self.allocators.len() - i,
        {
            let p = &self.allocators[i];
            if p.memory_type_index == key.0 && p.addressable == key.1 {
                return Some(i);
            }
            i = i + 1;
        }
        proof {
            if self.partition_keys().contains(key) {
                let j = choose|j: int| 0 <= j < self.partition_keys().len() && self.partition_keys()[j] == key;
                assert(partition_key(self.allocators@[j]) == key);
            }
        }
        None
    }
}

impl<A: ComposableAllocator, F: Fn(u32, bool) -> A> ComposableAllocator for TypeIndexAllocator<
    A,
    F,
> {
    closed spec fn live_blocks(&self) -> Multiset<Block> {
        live_of(self.allocators@)
    }

    closed spec fn wf(&self) -> bool {
        &&& is_fresh_factory(self.type_index_factory)
        &&& forall|i: int, j: int|
            0 <= i < j < self.allocators.len() ==> partition_key(#[trigger] self.allocators@[i])
                != partition_key(#[trigger] self.allocators@[j])
        &&& forall|i: int| 0 <= i < self.allocators.len() ==> (#[trigger] self.allocators@[i]).allocator.wf()
        &&& forall|i: int, b: Block|
            0 <= i < self.allocators.len() && #[trigger] self.allocators@[i].allocator.live_blocks().count(b)
                > 0 ==> block_key(b) == partition_key(self.allocators@[i])
    }

    fn owns(&self, block: &Block) -> (r: bool) {
        let mut i: usize = 0;
        while i < self.allocators.len()
            invariant
                self.wf(),
                i <= self.allocators.len(),
                forall|j: int|
                    0 <= j < i ==> !(#[trigger] self.allocators@[j]).allocator.live_blocks().contains(*block),
            decreases self.allocators.len() - i,
        {
            if self.allocators[i].allocator.owns(block) {
                proof {
                    lemma_live_of_contains(self.allocators@, *block);
                }
                return true;
            }
            i = i + 1;
        }
        proof {
            lemma_live_of_contains(self.allocators@, *block);
        }
        false
    }

    fn allocate_memory(&mut self, requirements: AllocationRequirements, memory: DeviceMemory) -> (r:
        Block)
        ensures
            final(self).partition_keys() == keys_after_allocate(
                old(self).partition_keys(),
                requirements,
            ),
    {
        let key = (requirements.memory_type_index, requirements.device_addressable());
        let index = match self.find_partition(key) {
            Some(index) => {
                assert(self.partition_keys()[index as int] == key);
                index
            },
            None => {
                let allocator = (self.type_index_factory)(key.0, key.1);
                let ghost before = self.allocators@;
                self.allocators.push(
                    Partition { memory_type_index: key.0, addressable: key.1, allocator },
                );
                proof {
                    assert(self.allocators@.drop_last() =~= before);
                    assert(live_of(self.allocators@) =~= live_of(before));
                    assert forall|j: int| 0 <= j < before.len() implies partition_key(
                        #[trigger] before[j],
                    ) != key by {
                        assert(old(self).partition_keys()[j] == partition_key(before[j]));
                    }
                    assert(self.partition_keys() =~= old(self).partition_keys().push(key));
                }
                self.allocators.len() - 1
            },
        };
        let ghost before = self.allocators@;
        let ghost keys_before = self.partition_keys();
        let mut partition = self.allocators.remove(index);
        let block = partition.allocator.allocate_memory(requirements, memory);
        self.allocators.insert(index, partition);
        proof {
            assert(self.allocators@ =~= before.update(index as int, partition));
            lemma_live_of_update(before, index as int, partition);
            assert(live_of(self.allocators@) =~= live_of(before).insert(block));
            assert(self.partition_keys() =~= keys_before);
            assert forall|i: int, b: Block|
                0 <= i < self.allocators.len()
                    && #[trigger] self.allocators@[i].allocator.live_blocks().count(b) > 0 implies block_key(
                b,
            ) == partition_key(self.allocators@[i]) by {
                if i == index && b != block {
                    assert(before[i].allocator.live_blocks().count(b) > 0);
                }
            }
        }
        block
    }

    fn free_memory(&mut self, block: &Block) -> (r: u64)
        ensures
            final(self).partition_keys() == old(self).partition_keys(),
    {
        proof {
            lemma_live_of_contains(self.allocators@, *block);
        }
        let index = match self.find_partition((block.memory_type_index, block.device_addressable)) {
            Some(index) => index,
            None => {
                proof {
                    let i = choose|i: int|
                        0 <= i < self.allocators@.len()
                            && #[trigger] self.allocators@[i].allocator.live_blocks().count(*block) > 0;
                    assert(self.partition_keys()[i] == partition_key(self.allocators@[i]));
                }
                return block.memory;
            },
        };
        let ghost before = self.allocators@;
        proof {
            let i = choose|i: int|
                0 <= i < before.len() && #[trigger] before[i].allocator.live_blocks().count(*block) > 0;
            if i != index {
                assert(partition_key(before[i]) == block_key(*block));
            }
        }
        let mut partition = self.allocators.remove(index);
        let memory = partition.allocator.free_memory(block);
        self.allocators.insert(index, partition);
        proof {
            assert(self.allocators@ =~= before.update(index as int, partition));
            lemma_live_of_update(before, index as int, partition);
            assert(live_of(self.allocators@) =~= live_of(before).remove(*block));
            assert(self.partition_keys() =~= old(self).partition_keys());
        }
        memory
    }
}

/// Allocating a block and freeing it right away leaves the live blocks as
/// they were, the block goes back to the partition it came from, and an
/// identical request afterwards finds its partition: it is served without
/// making a new one.
pub proof fn lemma_free_after_allocate_needs_no_growth<A: ComposableAllocator, F: Fn(u32, bool) -> A>(
    allocator: TypeIndexAllocator<A, F>,
    requirements: AllocationRequirements,
    memory: DeviceMemory,
)
    requires
        allocator.wf(),
    ensures
        ({
            let block = block_for(requirements, memory);
            let keys = keys_after_allocate(allocator.partition_keys(), requirements);
            &&& allocator.live_blocks().insert(block).remove(block) == allocator.live_blocks()
            &&& block_key(block) == request_key(requirements)
            &&& keys.contains(request_key(requirements))
            &&& keys_after_allocate(keys, requirements) == keys
        }),
{
    let block = block_for(requirements, memory);
    assert(allocator.live_blocks().insert(block).remove(block) =~= allocator.live_blocks());
    let keys = allocator.partition_keys();
    if !keys.contains(request_key(requirements)) {
        assert(keys.push(request_key(requirements))[keys.len() as int] == request_key(requirements));
    }
}

} // verus!
