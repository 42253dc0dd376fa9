//! The arithmetic model: what each policy means over mathematical integers.
use vstd::prelude::*;

verus! {

use vstd::arithmetic::div_mod::{
    lemma_fundamental_div_mod,
    lemma_add_mod_noop,
    lemma_mod_multiples_basic,
    lemma_mod_multiples_vanish,
    lemma_mul_mod_noop_left,
    lemma_small_mod,
    lemma_sub_mod_noop,
};
use vstd::arithmetic::mul::lemma_mul_is_commutative;

/// The value in `lo..=hi` that is congruent to `x` modulo the size of that range
/// (two's-complement wraparound when the range is that of an integer kind).
pub open spec fn wrap_int(x: int, lo: int, hi: int) -> int {
    lo + (x - lo) % (hi - lo + 1)
}

/// `x` clamped into `lo..=hi`.
pub open spec fn clamp_int(x: int, lo: int, hi: int) -> int {
    if x < lo {
        lo
    } else if x > hi {
        hi
    } else {
        x
    }
}

/// Integer division rounding toward zero, as Rust's `/` on integers does.
pub open spec fn trunc_div(a: int, b: int) -> int {
    if a == 0 {
        0
    } else if a > 0 && b > 0 {
        a / b
    } else if a < 0 && b < 0 {
        (a * -1) / (b * -1)
    } else if a < 0 {
        ((a * -1) / b) * -1
    } else {
        (a / (b * -1)) * -1
    }
}

/// The remainder that goes with `trunc_div`, as Rust's `%` on integers computes it:
/// it has the sign of `a`.
pub open spec fn trunc_rem(a: int, b: int) -> int {
    if a == 0 {
        0
    } else if a > 0 && b > 0 {
        a % b
    } else if a < 0 && b < 0 {
        ((a * -1) % (b * -1)) * -1
    } else if a < 0 {
        ((a * -1) % b) * -1
    } else {
        a % (b * -1)
    }
}

/// Two integers with the same residue wrap to the same value.
pub proof fn lemma_wrap_congruent(x: int, y: int, lo: int, hi: int)
    requires
        lo <= hi,
        x % (hi - lo + 1) == y % (hi - lo + 1),
    ensures
        wrap_int(x, lo, hi) == wrap_int(y, lo, hi),
{
    let m = hi - lo + 1;
    lemma_sub_mod_noop(x, lo, m);
    lemma_sub_mod_noop(y, lo, m);
}

/// A wrapped value lies in the range and differs from `x` by a multiple of its size;
/// a value already in the range wraps to itself.
pub proof fn lemma_wrap_range(x: int, lo: int, hi: int)
    requires
        lo <= hi,
    ensures
        lo <= wrap_int(x, lo, hi) <= hi,
        (x - wrap_int(x, lo, hi)) % (hi - lo + 1) == 0,
        lo <= x <= hi ==> wrap_int(x, lo, hi) == x,
{
    let m = hi - lo + 1;
    let d = x - lo;
    lemma_fundamental_div_mod(d, m);
    assert(x - wrap_int(x, lo, hi) == m * (d / m));
    lemma_mod_multiples_basic(d / m, m);
    lemma_mul_is_commutative(m, d / m);
    if lo <= x <= hi {
        lemma_small_mod(d as nat, m as nat);
    }
}

/// A wrapped value has the residue of `x`.
pub proof fn lemma_wrap_residue(x: int, lo: int, hi: int)
    requires
        lo <= hi,
    ensures
        wrap_int(x, lo, hi) % (hi - lo + 1) == x % (hi - lo + 1),
{
    let m = hi - lo + 1;
    let w = wrap_int(x, lo, hi);
    let d = x - lo;
    lemma_fundamental_div_mod(d, m);
    assert(x == m * (d / m) + w);
    lemma_mod_multiples_vanish(d / m, w, m);
}

/// Wrapping a running sum at each step gives the wrapped total.
pub proof fn lemma_wrap_add(x: int, y: int, lo: int, hi: int)
    requires
        lo <= hi,
    ensures
        wrap_int(wrap_int(x, lo, hi) + y, lo, hi) == wrap_int(x + y, lo, hi),
{
    let m = hi - lo + 1;
    let w = wrap_int(x, lo, hi);
    lemma_wrap_residue(x, lo, hi);
    lemma_add_mod_noop(w, y, m);
    lemma_add_mod_noop(x, y, m);
    lemma_wrap_congruent(w + y, x + y, lo, hi);
}

/// Wrapping a running product at each step gives the wrapped total.
pub proof fn lemma_wrap_mul(x: int, y: int, lo: int, hi: int)
    requires
        lo <= hi,
    ensures
        wrap_int(wrap_int(x, lo, hi) * y, lo, hi) == wrap_int(x * y, lo, hi),
{
    let m = hi - lo + 1;
    let w = wrap_int(x, lo, hi);
    lemma_wrap_residue(x, lo, hi);
    lemma_mul_mod_noop_left(w, y, m);
    lemma_mul_mod_noop_left(x, y, m);
    lemma_wrap_congruent(w * y, x * y, lo, hi);
}

} // verus!
