//! The recursive radix-2 transform and its convolution scaffold.
//!
//! The divide-and-conquer recursion, the zero-padding policy, the parity
//! split, the combine ordering and the single normalization pass are all
//! here and proved: each entry point returns exactly the sequence that
//! the spec-level recursion [`transformed`] describes. The per-sample
//! arithmetic (complex additions, twiddle factors, scaling) is floating
//! point, which Verus refuses, so callers supply it through the
//! [`Butterfly`] trait on their sample type, and the spec level names
//! each implementation's operations without interpreting them.

use vstd::prelude::*;
use crate::pow2::{
    is_pow_two,
    next_pow_two,
    convolution_len,
    lemma_next_pow_two_bounds,
    lemma_pow_two_is_its_own_next,
};
use crate::radix::{
    even_part,
    odd_part,
    pad_with_zeroes,
    resize_with,
    resized,
    split_even_odd,
    join_halves,
    zero_padded,
};

verus! {

/// The per-sample arithmetic of the transform, supplied by the caller on
/// its own sample type. Each operation must return the value of its own
/// spec-level counterpart, which this crate leaves uninterpreted: the
/// contracts built on them fix which operation is applied to which
/// entries and in which order, never what the numbers are — those are
/// floating point, which Verus refuses, and belong to the
/// implementation.
pub trait Butterfly: Sized + Copy {
    /// The value of one butterfly: the pair `combine` returns.
    spec fn spec_combine(n: usize, j: usize, inverse: bool, even: Self, odd: Self) -> (Self, Self);

    /// The value of one normalization step: what `scale_down` returns.
    spec fn spec_scale_down(n: usize, x: Self) -> Self;

    /// The value of one pointwise product: what `product` returns.
    spec fn spec_product(a: Self, b: Self) -> Self;

    /// One butterfly of a combine level of size `n`: from the `j`-th
    /// entries of the transformed even and odd halves, the pair
    /// `(even + w * odd, even - w * odd)`, where `w` is the principal
    /// `n`-th root of unity (conjugated for the inverse transform) raised
    /// to the power `j`.
    fn combine(n: usize, j: usize, inverse: bool, even: Self, odd: Self) -> (r: (Self, Self))
        ensures
            r == Self::spec_combine(n, j, inverse, even, odd),
    ;

    /// The sample scaled by `1 / n`: the normalization that the inverse
    /// transform applies exactly once, on the full-length result.
    fn scale_down(n: usize, x: Self) -> (r: Self)
        ensures
            r == Self::spec_scale_down(n, x),
    ;

    /// The product of two samples: the pointwise multiplication of the
    /// convolution's frequency domain step.
    fn product(a: Self, b: Self) -> (r: Self)
        ensures
            r == Self::spec_product(a, b),
    ;
}

/// The unnormalized transform of a buffer, defined by the radix-2
/// recursion itself: a sequence of length one is its own transform;
/// otherwise the even-indexed and odd-indexed subsequences are
/// transformed, and entry `j` of the two halves of the output is the
/// butterfly of entry `j` of the two transformed parts, in index order.
pub open spec fn transformed<T: Butterfly>(s: Seq<T>, inverse: bool) -> Seq<T>
    decreases s.len(),
{
    if s.len() <= 1 {
        s
    } else {
        let ye = transformed(even_part(s), inverse);
        let yo = transformed(odd_part(s), inverse);
        let n = s.len() as usize;
        let half = s.len() as int / 2;
        Seq::new(
            s.len(),
            |i: int|
                if i < half {
                    T::spec_combine(n, i as usize, inverse, ye[i], yo[i]).0
                } else {
                    T::spec_combine(n, (i - half) as usize, inverse, ye[i - half], yo[i - half]).1
                },
        )
    }
}

/// The sequence with every element scaled down by the sequence's own
/// length: the inverse transform's single normalization pass.
pub open spec fn normalized<T: Butterfly>(s: Seq<T>) -> Seq<T> {
    Seq::new(s.len(), |i: int| T::spec_scale_down(s.len() as usize, s[i]))
}

/// The elementwise products of two equally long sequences: the
/// convolution's frequency domain step.
pub open spec fn pointwise_product<T: Butterfly>(a: Seq<T>, b: Seq<T>) -> Seq<T> {
    Seq::new(a.len(), |i: int| T::spec_product(a[i], b[i]))
}

/// The convolution scaffold's value: both inputs sized to
/// `len(a) + len(b) - 1`, padded and transformed forward, multiplied
/// pointwise, and the product inverse-transformed and normalized.
pub open spec fn convolved<T: Butterfly>(a: Seq<T>, b: Seq<T>, zero: T) -> Seq<T> {
    let target = (a.len() + b.len() - 1) as nat;
    let fa = transformed(zero_padded(resized(a, target, zero), zero), false);
    let fb = transformed(zero_padded(resized(b, target, zero), zero), false);
    normalized(transformed(zero_padded(pointwise_product(fa, fb), zero), true))
}

/// The structural half of the round-trip guarantee: on an input whose
/// length is already a power of two, padding changes nothing, so neither
/// transform direction changes the length and the inverse of the forward
/// transform is index-aligned with the input. On any other length the
/// forward transform pads, and the round trip cannot return the input.
pub proof fn lemma_round_trip_lengths(n: nat)
    requires
        is_pow_two(n),
    ensures
        next_pow_two(n) == n,
        next_pow_two(next_pow_two(n)) == n,
{
    lemma_pow_two_is_its_own_next(n);
}

/// The recursion itself, on a buffer whose length is already a power of
/// two: split by parity, transform both halves, combine them butterfly by
/// butterfly in index order. No normalization at any depth.
fn transform_pow_two<T: Butterfly>(values: Vec<T>, inverse: bool) -> (r: Vec<T>)
    requires
        is_pow_two(values@.len()),
    ensures
        r@ == transformed(values@, inverse),
        r@.len() == values@.len(),
    decreases values@.len(),
{
    let n = values.len();
    if n == 1 {
        return values;
    }
    let (pe, po) = split_even_odd(&values);
    proof {
        assert(n % 2 == 0 && is_pow_two((n / 2) as nat));
        assert(even_part(values@).len() == n / 2);
        assert(odd_part(values@).len() == n / 2);
    }
    let ye = transform_pow_two(pe, inverse);
    let yo = transform_pow_two(po, inverse);
    let half = n / 2;
    let mut lo: Vec<T> = Vec::new();
    let mut hi: Vec<T> = Vec::new();
    let mut j: usize = 0;
    while j < half
        invariant
            j <= half,
            lo@.len() == j,
            hi@.len() == j,
            ye@.len() == half,
            yo@.len() == half,
            forall|k: int|
                0 <= k < j ==> lo@[k] == T::spec_combine(n, k as usize, inverse, ye@[k], yo@[k]).0,
            forall|k: int|
                0 <= k < j ==> hi@[k] == T::spec_combine(n, k as usize, inverse, ye@[k], yo@[k]).1,
            n == 2 * half,
        decreases half - j,
    {
        let (l, h) = T::combine(n, j, inverse, ye[j], yo[j]);
        lo.push(l);
        hi.push(h);
        j = j + 1;
    }
    let result = join_halves(lo, hi);
    proof {
        let s = values@;
        let st = transformed(s, inverse);
        assert(result@.len() == n && st.len() == n);
        assert forall|i: int| 0 <= i < n implies result@[i] == st[i] by {
            assert(ye@ == transformed(even_part(s), inverse));
            assert(yo@ == transformed(odd_part(s), inverse));
            if i < n / 2 {
                assert(result@[i] == lo@[i]);
            } else {
                assert(result@[i] == hi@[i - n / 2]);
            }
        }
        assert(result@ =~= st);
    }
    result
}

/// Forward or inverse transform without normalization: pads the input
/// with zero samples up to the next power of two, then runs the
/// recursion. The output is exactly the transform of the padded input;
/// its length is the padded length, never the input length, unless the
/// input length was a power of two already.
pub fn fft_core<T: Butterfly>(values: Vec<T>, zero: T, inverse: bool) -> (r: Vec<T>)
    requires
        next_pow_two(values@.len()) <= usize::MAX,
    ensures
        r@ == transformed(zero_padded(values@, zero), inverse),
        r@.len() == next_pow_two(values@.len()),
        values@.len() == 1 ==> r@ == values@,
        values@.len() == 0 ==> r@ == seq![zero],
{
    let mut padded = values;
    pad_with_zeroes(&mut padded, zero);
    proof {
        lemma_next_pow_two_bounds(values@.len());
        if values@.len() == 0 {
            assert(padded@ =~= seq![zero]);
        }
        if values@.len() == 1 {
            assert(padded@ =~= values@);
        }
    }
    transform_pow_two(padded, inverse)
}

/// Inverse transform with its normalization: runs the recursion with the
/// conjugated root, then scales every element by one over the output
/// length, in exactly one pass over the full-length result — never once
/// per recursion level.
pub fn ifft_core<T: Butterfly>(values: Vec<T>, zero: T) -> (r: Vec<T>)
    requires
        next_pow_two(values@.len()) <= usize::MAX,
    ensures
        r@ == normalized(transformed(zero_padded(values@, zero), true)),
        r@.len() == next_pow_two(values@.len()),
{
    let y = fft_core(values, zero, true);
    let n = y.len();
    let mut out: Vec<T> = Vec::new();
    let mut i: usize = 0;
    while i < n
        invariant
            i <= n,
            n == y@.len(),
            out@.len() == i,
            forall|k: int| 0 <= k < i ==> out@[k] == T::spec_scale_down(n, y@[k]),
        decreases n - i,
    {
        out.push(T::scale_down(n, y[i]));
        i = i + 1;
    }
    proof {
        assert(out@ =~= normalized(y@));
    }
    out
}

/// Convolution scaffold: sizes both inputs to `len(a) + len(b) - 1` with
/// zero samples, transforms each, multiplies them pointwise, and
/// inverse-transforms and normalizes the product — exactly the value of
/// [`convolved`]. The output keeps the padded power-of-two length of the
/// internal transforms.
pub fn convolve_core<T: Butterfly>(a: Vec<T>, b: Vec<T>, zero: T) -> (r: Vec<T>)
    requires
        a@.len() + b@.len() >= 1,
        next_pow_two((a@.len() + b@.len() - 1) as nat) <= usize::MAX,
    ensures
        r@ == convolved(a@, b@, zero),
        r@.len() == next_pow_two((a@.len() + b@.len() - 1) as nat),
{
    proof {
        lemma_next_pow_two_bounds((a@.len() + b@.len() - 1) as nat);
    }
    let final_len: usize = match convolution_len(a.len(), b.len()) {
        Some(l) => l,
        None => {
            proof {
                assert(false);
            }
            0
        },
    };
    let ghost a0: Seq<T> = a@;
    let ghost b0: Seq<T> = b@;
    let mut a = a;
    let mut b = b;
    resize_with(&mut a, final_len, zero);
    resize_with(&mut b, final_len, zero);
    let ahat = fft_core(a, zero, false);
    let bhat = fft_core(b, zero, false);
    let n = ahat.len();
    let mut pointwise: Vec<T> = Vec::new();
    let mut i: usize = 0;
    while i < n
        invariant
            i <= n,
            n == ahat@.len(),
            n == bhat@.len(),
            pointwise@.len() == i,
            forall|k: int|
                0 <= k < i ==> pointwise@[k] == T::spec_product(ahat@[k], bhat@[k]),
        decreases n - i,
    {
        pointwise.push(T::product(ahat[i], bhat[i]));
        i = i + 1;
    }
    proof {
        assert(pointwise@ =~= pointwise_product(ahat@, bhat@));
        lemma_pow_two_is_its_own_next(pointwise@.len());
    }
    let r = ifft_core(pointwise, zero);
    proof {
        assert(r@ == convolved(a0, b0, zero));
    }
    r
}

} // verus!
