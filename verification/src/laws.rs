//! General properties of the container, stated over the sequence model
//! that the methods' contracts use, and proved once and for all.

use vstd::prelude::*;

use crate::grown_capacity;

verus! {

/// Appending to a container whose view is `s` yields the view `s.push(v)`
/// (the ensures of `push`): the new length is one more, the new last
/// position holds `v`, and every earlier element is unchanged.
pub proof fn lemma_append_then_get<T>(s: Seq<T>, v: T)
    ensures
        s.push(v).len() == s.len() + 1,
        s.push(v)[s.len() as int] == v,
        forall|i: int| 0 <= i < s.len() ==> s.push(v)[i] == s[i],
{
}

/// Appending `v` and then removing from the end hands `v` back and
/// restores the prior view exactly (the ensures of `push` and `pop`).
pub proof fn lemma_push_pop_round_trip<T>(s: Seq<T>, v: T)
    ensures
        s.push(v).last() == v,
        s.push(v).drop_last() == s,
{
    assert(s.push(v).drop_last() =~= s);
}

/// An iterator over a container with view `s` that has already yielded
/// `i` elements holds the remainder `s.subrange(i, s.len())` (the
/// ensures of `iter` and `next`): its next element is `s[i]`, yielding
/// it leaves the remainder starting at `i + 1`, and after the last
/// element the remainder is empty, so iteration yields exactly the
/// elements of `s`, left to right.
pub proof fn lemma_iteration_yields_in_order<T>(s: Seq<T>, i: int)
    requires
        0 <= i < s.len(),
    ensures
        s.subrange(i, s.len() as int).first() == s[i],
        s.subrange(i, s.len() as int).drop_first() == s.subrange(i + 1, s.len() as int),
        s.subrange(s.len() as int, s.len() as int).len() == 0,
{
    assert(s.subrange(i, s.len() as int).drop_first() =~= s.subrange(i + 1, s.len() as int));
}

/// Whether `n` is a power of two: one of 1, 2, 4, 8, ...
pub open spec fn is_pow2(n: nat) -> bool
    decreases n,
{
    if n == 0 {
        false
    } else if n == 1 {
        true
    } else {
        n % 2 == 0 && is_pow2(n / 2)
    }
}

/// The capacity after exactly `k` appends starting from a container of
/// capacity 0: before the next append the length is `k`, and a grow
/// step runs exactly when the length has reached the capacity (the
/// capacity clauses of the ensures of `push`).
pub open spec fn capacity_after_appends(k: nat) -> nat
    decreases k,
{
    if k == 0 {
        0
    } else if capacity_after_appends((k - 1) as nat) == k - 1 {
        grown_capacity(capacity_after_appends((k - 1) as nat))
    } else {
        capacity_after_appends((k - 1) as nat)
    }
}

/// Distinct powers of two differ by at least a factor of two.
proof fn lemma_pow2_strict_order(a: nat, b: nat)
    requires
        is_pow2(a),
        is_pow2(b),
        a < b,
    ensures
        2 * a <= b,
    decreases b,
{
    if a == 1 {
        if b % 2 == 0 {
            assert(2 * (b / 2) == b);
        }
    } else {
        lemma_pow2_strict_order((a / 2) as nat, (b / 2) as nat);
        assert(2 * (a / 2) == a);
        assert(2 * (b / 2) == b);
    }
}

/// Growth doubling: starting from capacity 0, after exactly `k` appends
/// (`k >= 1`) the capacity is the smallest power of two that is at
/// least `k` — it is a power of two, it is at least `k`, it is below
/// `2 * k`, and no smaller power of two reaches `k`.
pub proof fn lemma_growth_doubling(k: nat)
    requires
        k >= 1,
    ensures
        is_pow2(capacity_after_appends(k)),
        capacity_after_appends(k) >= k,
        capacity_after_appends(k) < 2 * k,
        forall|c: nat| is_pow2(c) && c >= k ==> c >= capacity_after_appends(k),
    decreases k,
{
    if k == 1 {
        assert(capacity_after_appends(0) == 0);
        assert(capacity_after_appends(1) == 1);
    } else {
        lemma_growth_doubling((k - 1) as nat);
        let c = capacity_after_appends((k - 1) as nat);
        if c == k - 1 {
            assert(capacity_after_appends(k) == 2 * c);
            assert(is_pow2(2 * c)) by {
                assert((2 * c) % 2 == 0);
                assert((2 * c) / 2 == c);
            }
        }
    }
    assert forall|c: nat| is_pow2(c) && c >= k implies c >= capacity_after_appends(k) by {
        if c < capacity_after_appends(k) {
            lemma_pow2_strict_order(c, capacity_after_appends(k));
        }
    }
}

} // verus!
