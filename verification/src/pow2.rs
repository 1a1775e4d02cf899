//! Power-of-two sizing rules.
//!
//! The transform pads every input up to the smallest power of two at least
//! as long as the input, and the convolution wrapper sizes its buffers to
//! `len(a) + len(b) - 1` before transforming. Both length computations are
//! defined and proved here.

use vstd::prelude::*;

verus! {

/// Whether `n` is a power of two: 1, 2, 4, 8, ...
pub open spec fn is_pow_two(n: nat) -> bool
    decreases n,
{
    if n == 0 {
        false
    } else if n == 1 {
        true
    } else {
        n % 2 == 0 && is_pow_two(n / 2)
    }
}

/// The smallest power of two that is at least `n` (1 when `n` is 0).
pub open spec fn next_pow_two(n: nat) -> nat
    decreases n,
{
    if n <= 1 {
        1
    } else {
        2 * next_pow_two((n + 1) / 2)
    }
}

/// `next_pow_two` really returns a power of two, and never one below `n`.
pub proof fn lemma_next_pow_two_bounds(n: nat)
    ensures
        next_pow_two(n) >= n,
        next_pow_two(n) >= 1,
        is_pow_two(next_pow_two(n)),
    decreases n,
{
    if n <= 1 {
        assert(is_pow_two(1));
    } else {
        lemma_next_pow_two_bounds((n + 1) / 2);
        let m = next_pow_two((n + 1) / 2);
        assert(2 * m >= n);
        assert(is_pow_two(2 * m)) by {
            assert(2 * m >= 2);
            assert((2 * m) % 2 == 0);
            assert((2 * m) / 2 == m);
        }
    }
}

/// `next_pow_two(n)` is the least power of two at least `n`: no power of
/// two at least `n` lies below it.
pub proof fn lemma_next_pow_two_least(n: nat, m: nat)
    requires
        is_pow_two(m),
        m >= n,
    ensures
        m >= next_pow_two(n),
    decreases n,
{
    assert(m >= 1) by {
        if m == 0 {
            assert(!is_pow_two(0));
        }
    }
    if n <= 1 {
    } else {
        assert(m >= 2);
        assert(m % 2 == 0 && is_pow_two(m / 2));
        assert(m / 2 >= (n + 1) / 2);
        lemma_next_pow_two_least((n + 1) / 2, m / 2);
    }
}

/// A power of two is its own padded length: padding changes nothing on
/// inputs whose length is already a power of two.
pub proof fn lemma_pow_two_is_its_own_next(n: nat)
    requires
        is_pow_two(n),
    ensures
        next_pow_two(n) == n,
{
    lemma_next_pow_two_bounds(n);
    lemma_next_pow_two_least(n, n);
}

/// Between two distinct powers of two there is at least a factor of two.
proof fn lemma_pow_two_doubling(a: nat, b: nat)
    requires
        is_pow_two(a),
        is_pow_two(b),
        a < b,
    ensures
        2 * a <= b,
    decreases a,
{
    assert(b >= 2);
    assert(b % 2 == 0 && is_pow_two(b / 2));
    if a == 1 {
    } else {
        assert(a % 2 == 0 && is_pow_two(a / 2));
        lemma_pow_two_doubling(a / 2, b / 2);
    }
}

/// The smallest power of two that is at least `n`, or `None` when no such
/// value is representable in `usize`.
pub fn checked_next_pow_two(n: usize) -> (r: Option<usize>)
    ensures
        match r {
            Some(m) => m == next_pow_two(n as nat),
            None => next_pow_two(n as nat) > usize::MAX,
        },
{
    proof {
        lemma_next_pow_two_bounds(n as nat);
    }
    let mut c: usize = 1;
    while c < n
        invariant
            1 <= c,
            is_pow_two(c as nat),
            c as nat <= next_pow_two(n as nat),
            is_pow_two(next_pow_two(n as nat)),
            next_pow_two(n as nat) >= n,
        decreases 2 * n - c,
    {
        proof {
            lemma_pow_two_doubling(c as nat, next_pow_two(n as nat));
        }
        if c > usize::MAX / 2 {
            return None;
        }
        c = 2 * c;
        proof {
            assert(is_pow_two(c as nat)) by {
                assert(c as nat >= 2);
                assert((c as nat) % 2 == 0);
            }
        }
    }
    proof {
        lemma_next_pow_two_least(n as nat, c as nat);
    }
    Some(c)
}

/// Length of the linear convolution of inputs of lengths `a_len` and
/// `b_len`, that is `a_len + b_len - 1`; `None` when both inputs are empty
/// or the length does not fit in `usize`.
pub fn convolution_len(a_len: usize, b_len: usize) -> (r: Option<usize>)
    ensures
        match r {
            Some(l) => l == a_len + b_len - 1,
            None => (a_len == 0 && b_len == 0) || a_len + b_len - 1 > usize::MAX,
        },
{
    if a_len == 0 && b_len == 0 {
        None
    } else if a_len == 0 {
        Some(b_len - 1)
    } else {
        (a_len - 1).checked_add(b_len)
    }
}

} // verus!
