use vstd::prelude::*;

verus! {

/// Number of distinct operation identifiers.
pub open spec fn id_space() -> int {
    u64::MAX as int + 1
}

/// The identifier that follows `n`; the counter wraps after the last one.
pub open spec fn next_after(n: u64) -> u64 {
    if n == u64::MAX {
        0
    } else {
        (n + 1) as u64
    }
}

/// The identifier handed out by the `i`-th allocation (counting from zero)
/// of an allocator whose next identifier was `start`.
pub open spec fn id_at(start: u64, i: nat) -> u64 {
    let s = start as int + i as int;
    if s < id_space() {
        s as u64
    } else {
        (s - id_space()) as u64
    }
}

/// Mathematical counterpart of [`OperationIdAllocator`].
pub struct AllocatorView {
    /// The identifier that the next allocation returns.
    pub next: u64,
    /// Every identifier handed out so far.
    pub issued: Set<u64>,
    /// Whether every identifier has been handed out once, so that the
    /// counter may repeat one.
    pub exhausted: bool,
}

/// Hands out operation identifiers: each allocation returns the current
/// counter and advances it by one.
pub struct OperationIdAllocator {
    next: u64,
    start: Ghost<u64>,
    count: Ghost<nat>,
}

/// The identifiers that the first `count` allocations from `start` return.
pub open spec fn issued_from(start: u64, count: nat) -> Set<u64> {
    Set::new(|id: u64| exists|i: nat| i < count && #[trigger] id_at(start, i) == id)
}

impl View for OperationIdAllocator {
    type V = AllocatorView;

    closed spec fn view(&self) -> AllocatorView {
        AllocatorView {
            next: self.next,
            issued: issued_from(self.start@, self.count@),
            exhausted: self.count@ >= id_space(),
        }
    }
}

impl OperationIdAllocator {
    #[verifier::type_invariant]
    spec fn counts_from_start(&self) -> bool {
        &&& self.count@ <= id_space()
        &&& self.count@ < id_space() ==> self.next == id_at(self.start@, self.count@)
    }

    /// An allocator whose first identifier is zero.
    pub fn new() -> (r: OperationIdAllocator)
        ensures
            r@.next == 0,
            r@.issued == Set::<u64>::empty(),
            !r@.exhausted,
    {
        OperationIdAllocator::starting_at(0)
    }

    /// An allocator whose first identifier is `start`.
    pub fn starting_at(start: u64) -> (r: OperationIdAllocator)
        ensures
            r@.next == start,
            r@.issued == Set::<u64>::empty(),
            !r@.exhausted,
    {
        let r = OperationIdAllocator { next: start, start: Ghost(start), count: Ghost(0) };
        assert(r@.issued =~= Set::<u64>::empty());
        r
    }

    /// The identifier that the next allocation returns.
    pub fn peek(&self) -> (r: u64)
        ensures
            r == self@.next,
    {
        self.next
    }

    /// Allocates one identifier. Until every identifier has been handed out
    /// once, it is one that was never handed out before.
    pub fn next_id(&mut self) -> (r: u64)
        ensures
            r == old(self)@.next,
            final(self)@.next == next_after(old(self)@.next),
            !old(self)@.exhausted ==> !old(self)@.issued.contains(r) && final(self)@.issued
                == old(self)@.issued.insert(r),
            old(self)@.exhausted ==> final(self)@.exhausted,
    {
        proof {
            use_type_invariant(&*self);
        }
        let r = self.next;
        let ghost start = self.start@;
        let ghost count = self.count@;
        proof {
            if count < id_space() {
                lemma_allocation_sequence(start, count);
                lemma_allocations_unique(start, count + 1);
                assert(!issued_from(start, count).contains(r));
                assert(issued_from(start, count + 1) =~= issued_from(start, count).insert(r)) by {
                    assert(id_at(start, count) == r);
                }
            }
        }
        let ghost advanced: nat = if count < id_space() {
            count + 1
        } else {
            count
        };
        *self = OperationIdAllocator {
            next: r.wrapping_add(1),
            start: Ghost(start),
            count: Ghost(advanced),
        };
        r
    }
}

/// Successive allocations: the first returns the allocator's counter, and each
/// one's successor is what the following allocation returns. So `k` calls of
/// `next_id` on an allocator at `start` return `id_at(start, 0)`, ...,
/// `id_at(start, k - 1)`.
pub proof fn lemma_allocation_sequence(start: u64, i: nat)
    requires
        i < id_space(),
    ensures
        id_at(start, 0) == start,
        next_after(id_at(start, i)) == id_at(start, i + 1),
{
}

/// Uniqueness: among any `k` successive allocations, with `k` at most the
/// number of identifiers, no two return the same identifier.
pub proof fn lemma_allocations_unique(start: u64, k: nat)
    requires
        k <= id_space(),
    ensures
        forall|i: nat, j: nat| i < k && j < k && i != j ==> id_at(start, i) != id_at(start, j),
{
}

} // verus!
