//! Buffer layout of the radix-2 transform.
//!
//! One recursion level of the transform prepares its buffers in three
//! moves, each of them proved here: pad the input with zero samples up to
//! the next power of two, split it by index parity into the even-indexed
//! and the odd-indexed subsequence, and join the two combined half-length
//! results into one full-length output.

use vstd::prelude::*;
use crate::pow2::{next_pow_two, lemma_next_pow_two_bounds};

verus! {

/// The elements at even indices, in their original relative order.
pub open spec fn even_part<T>(s: Seq<T>) -> Seq<T> {
    Seq::new((s.len() + 1) / 2, |i: int| s[2 * i])
}

/// The elements at odd indices, in their original relative order.
pub open spec fn odd_part<T>(s: Seq<T>) -> Seq<T> {
    Seq::new(s.len() / 2, |i: int| s[2 * i + 1])
}

/// The sequence extended with `zero` up to the next power of two: what
/// the transform's padding step produces.
pub open spec fn zero_padded<T>(s: Seq<T>, zero: T) -> Seq<T> {
    s + Seq::new((next_pow_two(s.len()) - s.len()) as nat, |i: int| zero)
}

/// The sequence cut or extended with `fill` to exactly `len` elements:
/// what resizing produces.
pub open spec fn resized<T>(s: Seq<T>, len: nat, fill: T) -> Seq<T> {
    Seq::new(len, |i: int| if i < s.len() { s[i] } else { fill })
}

/// Appends copies of `zero` until the length reaches the next power of
/// two, leaving every original element in place. This is the only padding
/// the transform applies, and it is applied before any recursion.
pub fn pad_with_zeroes<T: Copy>(values: &mut Vec<T>, zero: T)
    requires
        next_pow_two(old(values)@.len()) <= usize::MAX,
    ensures
        final(values)@ == zero_padded(old(values)@, zero),
        final(values)@.len() == next_pow_two(old(values)@.len()),
        forall|i: int| 0 <= i < old(values)@.len() ==> final(values)@[i] == old(values)@[i],
        forall|i: int|
            old(values)@.len() <= i < final(values)@.len() ==> final(values)@[i] == zero,
{
    let ghost orig: Seq<T> = values@;
    proof {
        lemma_next_pow_two_bounds(orig.len());
    }
    let target: usize = match crate::pow2::checked_next_pow_two(values.len()) {
        Some(m) => m,
        None => {
            proof {
                assert(false);
            }
            0
        },
    };
    while values.len() < target
        invariant
            orig.len() <= values@.len() <= target,
            target == next_pow_two(orig.len()),
            forall|i: int| 0 <= i < orig.len() ==> values@[i] == orig[i],
            forall|i: int| orig.len() <= i < values@.len() ==> values@[i] == zero,
        decreases target - values.len(),
    {
        values.push(zero);
    }
    proof {
        assert(values@ =~= zero_padded(orig, zero));
    }
}

/// Splits a buffer by index parity: the even-indexed elements first, the
/// odd-indexed elements second, relative order kept in both.
pub fn split_even_odd<T: Copy>(values: &Vec<T>) -> (r: (Vec<T>, Vec<T>))
    ensures
        r.0@ == even_part(values@),
        r.1@ == odd_part(values@),
{
    let n = values.len();
    let mut evens: Vec<T> = Vec::new();
    let mut odds: Vec<T> = Vec::new();
    let mut i: usize = 0;
    while i < n
        invariant
            i <= n,
            n == values@.len(),
            evens@.len() == (i + 1) / 2,
            odds@.len() == i / 2,
            forall|j: int| 0 <= j < evens@.len() ==> evens@[j] == values@[2 * j],
            forall|j: int| 0 <= j < odds@.len() ==> odds@[j] == values@[2 * j + 1],
        decreases n - i,
    {
        if i % 2 == 0 {
            evens.push(values[i]);
        } else {
            odds.push(values[i]);
        }
        i = i + 1;
    }
    proof {
        assert(evens@ =~= even_part(values@));
        assert(odds@ =~= odd_part(values@));
    }
    (evens, odds)
}

/// Sets the length to exactly `len`: truncates, or appends copies of
/// `fill` at the tail. The convolution sizes both of its inputs this way
/// before transforming them.
pub fn resize_with<T: Copy>(values: &mut Vec<T>, len: usize, fill: T)
    ensures
        final(values)@ == resized(old(values)@, len as nat, fill),
        final(values)@.len() == len,
        forall|i: int|
            0 <= i < len && i < old(values)@.len() ==> final(values)@[i] == old(values)@[i],
        forall|i: int| old(values)@.len() <= i < len ==> final(values)@[i] == fill,
{
    let ghost orig: Seq<T> = values@;
    if values.len() > len {
        values.truncate(len);
    }
    while values.len() < len
        invariant
            values@.len() <= len,
            forall|i: int| 0 <= i < len && i < orig.len() ==> values@.len() > i ==> values@[i] == orig[i],
            forall|i: int| orig.len() <= i < values@.len() ==> values@[i] == fill,
            values@.len() >= orig.len() || values@.len() == len,
        decreases len - values.len(),
    {
        values.push(fill);
    }
    proof {
        assert(values@ =~= resized(orig, len as nat, fill));
    }
}

/// Joins the two combined half-length outputs into the full-length output:
/// the first half, then the second half.
pub fn join_halves<T: Copy>(first: Vec<T>, second: Vec<T>) -> (r: Vec<T>)
    ensures
        r@ == first@ + second@,
{
    let mut joined = first;
    let mut tail = second;
    joined.append(&mut tail);
    joined
}

} // verus!
