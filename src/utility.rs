use vstd::prelude::*;

verus! {

/// `p` is a power of two: 1, 2, 4, 8, ...
pub open spec fn is_power_of_two(p: nat) -> bool
    decreases p,
{
    if p == 1 {
        true
    } else if p >= 2 && p % 2 == 0 {
        is_power_of_two(p / 2)
    } else {
        false
    }
}

/// Every power of two below `q` at least doubles into another power of two
/// that does not exceed a power of two `q` above it.
proof fn lemma_power_of_two_step(p: nat, q: nat)
    requires
        is_power_of_two(p),
        is_power_of_two(q),
        p < q,
    ensures
        2 * p <= q,
    decreases q,
{
    if p == 1 {
        assert(q >= 2);
    } else {
        assert(p % 2 == 0 && p >= 2);
        assert(q % 2 == 0 && q >= 2);
        lemma_power_of_two_step(p / 2, q / 2);
    }
}

/// The largest input whose power-of-two ceiling fits in a `usize`.
pub open spec fn max_roundable() -> nat {
    (usize::MAX as nat + 1) / 2
}

/// Returns the smallest power of two that is greater than or equal to `value`.
///
/// Both 0 and 1 round to 1.
pub fn round_to_power_of_two(value: usize) -> (r: usize)
    requires
        value as nat <= max_roundable(),
    ensures
        r as nat >= value as nat,
        is_power_of_two(r as nat),
        forall|p: nat| is_power_of_two(p) && p >= value as nat ==> p >= r as nat,
{
    let mut p: usize = 1;
    assert(is_power_of_two(1));
    while p < value
        invariant
            is_power_of_two(p as nat),
            value as nat <= max_roundable(),
            p == 1 || (p as nat) / 2 < value as nat,
        decreases usize::MAX - p,
    {
        assert(is_power_of_two(2 * p as nat)) by {
            assert((2 * p as nat) % 2 == 0);
            assert((2 * p as nat) / 2 == p as nat);
        }
        p = p * 2;
    }
    proof {
        assert forall|q: nat| is_power_of_two(q) && q >= value as nat implies q >= p as nat by {
            if q < p as nat {
                lemma_power_of_two_step(q, p as nat);
                assert(q <= (p as nat) / 2);
            }
        }
    }
    p
}

/// The capacity a growable buffer moves to when it must hold `required_size`
/// items: none when its `capacity` already suffices, else the smallest power
/// of two that holds them.
pub fn reallocation_size(capacity: usize, required_size: usize) -> (r: Option<usize>)
    requires
        required_size as nat <= max_roundable(),
    ensures
        capacity >= required_size ==> r is None,
        capacity < required_size ==> r is Some && r->0 >= required_size && is_power_of_two(
            r->0 as nat,
        ) && forall|p: nat| is_power_of_two(p) && p >= required_size as nat ==> p >= r->0 as nat,
{
    if capacity >= required_size {
        None
    } else {
        Some(round_to_power_of_two(required_size))
    }
}

} // verus!
