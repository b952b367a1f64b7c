//! The capacity policy of the container.
//!
//! Capacity is either `0` (nothing allocated yet) or a member of the doubling
//! sequence `4, 8, 16, 32, ...`: the first allocation holds four elements and
//! every growth event doubles the number of slots.  `required_capacity` maps a
//! length to the capacity the policy prescribes for it, and the lemmas below
//! establish that this is exactly the smallest member of the sequence that can
//! hold that many elements.

use vstd::prelude::*;

verus! {

/// Holds when `c` is a capacity the policy can ever produce: `0` before the
/// first allocation, or `4 * 2^k` after `k` growth events.
pub open spec fn in_growth_sequence(c: nat) -> bool
    decreases c,
{
    ||| c == 0
    ||| c == 4
    ||| (c >= 8 && c % 2 == 0 && in_growth_sequence(c / 2))
}

/// The capacity that the policy prescribes for a container of length `n`:
/// the smallest member of `0, 4, 8, 16, ...` that is at least `n`.
pub open spec fn required_capacity(n: nat) -> nat
    decreases n,
{
    if n == 0 {
        0
    } else if n <= 4 {
        4
    } else {
        2 * required_capacity((n + 1) / 2)
    }
}

/// `required_capacity(n)` always leaves room for `n` elements, and is `0`
/// exactly when `n` is `0`.
pub proof fn lemma_required_capacity_bounds(n: nat)
    ensures
        required_capacity(n) >= n,
        n >= 1 ==> required_capacity(n) >= 4,
        n == 0 <==> required_capacity(n) == 0,
    decreases n,
{
    if n >= 5 {
        lemma_required_capacity_bounds((n + 1) / 2);
    }
}

/// A push into a container with a spare slot does not change the prescribed
/// capacity.
pub proof fn lemma_required_capacity_step_within(n: nat)
    requires
        n + 1 <= required_capacity(n),
    ensures
        required_capacity(n + 1) == required_capacity(n),
    decreases n,
{
    if n >= 5 {
        if n % 2 == 0 {
            let m = n / 2;
            assert(required_capacity(n) == 2 * required_capacity(m));
            assert(m + 1 <= required_capacity(m));
            lemma_required_capacity_step_within(m);
            assert((n + 2) / 2 == m + 1);
        }
    }
}

/// A push into a full container doubles the prescribed capacity.
pub proof fn lemma_required_capacity_step_full(n: nat)
    requires
        required_capacity(n) == n,
        n >= 4,
    ensures
        required_capacity(n + 1) == 2 * n,
    decreases n,
{
    if n == 4 {
        assert(required_capacity(3) == 4);
        assert(required_capacity(5) == 8);
    } else {
        let m = n / 2;
        assert(n % 2 == 0);
        assert(required_capacity(m) == m);
        assert(m >= 4);
        lemma_required_capacity_step_full(m);
        assert((n + 2) / 2 == m + 1);
        assert(required_capacity(n + 1) == 2 * required_capacity(m + 1));
    }
}

/// The prescribed capacity is itself a member of the growth sequence.
pub proof fn lemma_required_capacity_in_sequence(n: nat)
    ensures
        in_growth_sequence(required_capacity(n)),
    decreases n,
{
    if n >= 5 {
        lemma_required_capacity_in_sequence((n + 1) / 2);
        lemma_required_capacity_bounds((n + 1) / 2);
    }
}

/// No member of the growth sequence below `required_capacity(n)` can hold `n`
/// elements.
pub proof fn lemma_growth_member_at_least(n: nat, c: nat)
    requires
        in_growth_sequence(c),
        c >= n,
    ensures
        c >= required_capacity(n),
    decreases n,
{
    if n >= 5 {
        let m = (n + 1) / 2;
        assert(c >= 8 && c % 2 == 0 && in_growth_sequence(c / 2));
        assert(c / 2 >= m);
        lemma_growth_member_at_least(m, c / 2);
    }
}

/// The growth sequence, exactly: `required_capacity(n)` is the smallest
/// member of `0, 4, 8, 16, 32, ...` that is at least `n`.
pub proof fn lemma_required_capacity_minimal(n: nat)
    ensures
        in_growth_sequence(required_capacity(n)),
        required_capacity(n) >= n,
        forall|c: nat| in_growth_sequence(c) && c >= n ==> c >= required_capacity(n),
{
    lemma_required_capacity_in_sequence(n);
    lemma_required_capacity_bounds(n);
    assert forall|c: nat| in_growth_sequence(c) && c >= n implies c >= required_capacity(
        n,
    ) by {
        lemma_growth_member_at_least(n, c);
    }
}

} // verus!
