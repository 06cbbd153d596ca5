//! The mathematical model of a buffer's contents: a sequence of bytes.
//!
//! The buffer's operations are specified over three functions, `zeros`,
//! `resized` and `carried_over`. The lemmas below spell out what they mean
//! byte by byte.

use vstd::prelude::*;

verus! {

/// `n` zero bytes.
pub open spec fn zeros(n: nat) -> Seq<u8> {
    Seq::new(n, |i: int| 0u8)
}

/// The contents `s` brought to length `n`: the overlapping prefix is kept,
/// what lies beyond `n` is cut off, and what is added is zero.
pub open spec fn resized(s: Seq<u8>, n: nat) -> Seq<u8> {
    Seq::new(
        n,
        |i: int|
            if i < s.len() {
                s[i]
            } else {
                0u8
            },
    )
}

/// The contents of a region `fresh` after the start of `s` was copied over
/// its start, as far as both reach.
pub open spec fn carried_over(s: Seq<u8>, fresh: Seq<u8>) -> Seq<u8> {
    Seq::new(
        fresh.len(),
        |i: int|
            if i < s.len() {
                s[i]
            } else {
                fresh[i]
            },
    )
}

/// The contents after `s` was brought to each length of `lens` in turn.
pub open spec fn resized_through(s: Seq<u8>, lens: Seq<nat>) -> Seq<u8>
    decreases lens.len(),
{
    if lens.len() == 0 {
        s
    } else {
        resized(resized_through(s, lens.drop_last()), lens.last())
    }
}

/// A fresh buffer of `n` bytes has length `n` and holds only zeros.
pub proof fn lemma_zeros(n: nat)
    ensures
        zeros(n).len() == n,
        forall|i: int| 0 <= i < n ==> zeros(n)[i] == 0u8,
{
}

/// Carrying contents over into `n` zero bytes brings them to length `n`.
pub proof fn lemma_carried_over_zeros(s: Seq<u8>, n: nat)
    ensures
        carried_over(s, zeros(n)) == resized(s, n),
{
    assert(carried_over(s, zeros(n)) =~= resized(s, n));
}

/// After contents were carried over into a region, the result is as long as
/// the region, starts with the old bytes as far as both reach, and holds the
/// region's own bytes beyond them.
pub proof fn lemma_carried_over_bytes(s: Seq<u8>, fresh: Seq<u8>)
    ensures
        carried_over(s, fresh).len() == fresh.len(),
        forall|i: int|
            0 <= i < s.len() && i < fresh.len() ==> carried_over(s, fresh)[i] == s[i],
        forall|i: int| s.len() <= i < fresh.len() ==> carried_over(s, fresh)[i] == fresh[i],
{
}

/// Bringing empty contents to length `n` gives `n` zero bytes.
pub proof fn lemma_resized_from_empty(n: nat)
    ensures
        resized(Seq::<u8>::empty(), n) == zeros(n),
{
    assert(resized(Seq::<u8>::empty(), n) =~= zeros(n));
}

/// Bringing contents to length zero leaves nothing.
pub proof fn lemma_resized_to_zero(s: Seq<u8>)
    ensures
        resized(s, 0) == Seq::<u8>::empty(),
{
    assert(resized(s, 0) =~= Seq::<u8>::empty());
}

/// After a change of length to `n` the contents have length `n`, every byte
/// that the old and the new length both cover is what it was, and every byte
/// beyond the old length is zero.
pub proof fn lemma_resized_bytes(s: Seq<u8>, n: nat)
    ensures
        resized(s, n).len() == n,
        forall|i: int| 0 <= i < s.len() && i < n ==> resized(s, n)[i] == s[i],
        forall|i: int| s.len() <= i < n ==> resized(s, n)[i] == 0u8,
{
}

/// Shrinking keeps exactly the first `n` bytes.
pub proof fn lemma_resized_shrink(s: Seq<u8>, n: nat)
    requires
        n <= s.len(),
    ensures
        resized(s, n) == s.subrange(0, n as int),
{
    assert(resized(s, n) =~= s.subrange(0, n as int));
}

/// Growing keeps every byte and appends zeros.
pub proof fn lemma_resized_grow(s: Seq<u8>, n: nat)
    requires
        s.len() <= n,
    ensures
        resized(s, n) == s + zeros((n - s.len()) as nat),
{
    assert(resized(s, n) =~= s + zeros((n - s.len()) as nat));
}

/// Bytes cut off by shrinking to `m` do not come back when the contents
/// grow to `n` again: everything from `m` on is zero.
pub proof fn lemma_shrink_then_grow(s: Seq<u8>, m: nat, n: nat)
    requires
        m <= n,
    ensures
        resized(resized(s, m), n).len() == n,
        forall|i: int| 0 <= i < m && i < s.len() ==> resized(resized(s, m), n)[i] == s[i],
        forall|i: int| m <= i < n ==> resized(resized(s, m), n)[i] == 0u8,
{
}

/// Setting `n` bytes to zero comes to the same as giving all bytes up and
/// taking `n` fresh ones.
pub proof fn lemma_zeros_through_empty(s: Seq<u8>, n: nat)
    ensures
        resized(resized(s, 0), n) == zeros(n),
{
    assert(resized(resized(s, 0), n) =~= zeros(n));
}

/// In a run of changes of length, step `k` leaves the contents at length
/// `lens[k]`, keeps the prefix that the lengths before and after the step
/// both cover, and fills what the step adds with zeros.
pub proof fn lemma_resized_through_step(s: Seq<u8>, lens: Seq<nat>, k: int)
    requires
        0 <= k < lens.len(),
    ensures
        ({
            let before = resized_through(s, lens.take(k));
            let after = resized_through(s, lens.take(k + 1));
            &&& after == resized(before, lens[k])
            &&& after.len() == lens[k]
            &&& forall|i: int| 0 <= i < before.len() && i < lens[k] ==> after[i] == before[i]
            &&& forall|i: int| before.len() <= i < lens[k] ==> after[i] == 0u8
        }),
{
    let upto = lens.take(k + 1);
    assert(upto.drop_last() =~= lens.take(k));
    assert(upto.last() == lens[k]);
}

/// After a run of changes of length the contents have the last length asked
/// for.
pub proof fn lemma_resized_through_len(s: Seq<u8>, lens: Seq<nat>)
    requires
        lens.len() > 0,
    ensures
        resized_through(s, lens).len() == lens.last(),
{
}

} // verus!
