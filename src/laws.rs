//! Laws that relate the policies of an operation to one another.
use vstd::prelude::*;
use crate::arith::{saturating_quotient, saturating_remainder};
use crate::kind::{NumericKind, fits, saturated, wrapped};
use crate::model::{lemma_wrap_congruent, lemma_wrap_range, trunc_div, trunc_rem};
use crate::reduce::{running_sums_fit, saturating_sum, sum_of};
use crate::shift::{
    count_in_width,
    shifted_left,
    shifted_right,
    shl_defined,
    shl_saturated,
    shl_wrapped,
    shr_or_zero,
};
use crate::unary::{absolute, negated};

verus! {

use vstd::arithmetic::power2::pow2;

/// An exact result is in range exactly where clamping leaves it unchanged, and there
/// wrapping leaves it unchanged too.
proof fn lemma_exact_agrees<T: NumericKind>(x: int)
    ensures
        fits::<T>(x) <==> saturated::<T>(x) == x,
        fits::<T>(x) ==> wrapped::<T>(x) == x,
{
    T::lemma_kind();
    lemma_wrap_range(x, T::min_int(), T::max_int());
}

/// Addition: the panic policy succeeds exactly where saturation changes nothing, and
/// then all three policies give the exact sum.
pub proof fn law_add_policies<T: NumericKind>(a: T, b: T)
    ensures
        fits::<T>(a.value() + b.value()) <==> saturated::<T>(a.value() + b.value()) == a.value()
            + b.value(),
        fits::<T>(a.value() + b.value()) ==> wrapped::<T>(a.value() + b.value()) == a.value()
            + b.value(),
{
    lemma_exact_agrees::<T>(a.value() + b.value());
}

/// Subtraction: the panic policy succeeds exactly where saturation changes nothing, and
/// then all three policies give the exact difference.
pub proof fn law_sub_policies<T: NumericKind>(a: T, b: T)
    ensures
        fits::<T>(a.value() - b.value()) <==> saturated::<T>(a.value() - b.value()) == a.value()
            - b.value(),
        fits::<T>(a.value() - b.value()) ==> wrapped::<T>(a.value() - b.value()) == a.value()
            - b.value(),
{
    lemma_exact_agrees::<T>(a.value() - b.value());
}

/// Multiplication: the panic policy succeeds exactly where saturation changes nothing,
/// and then all three policies give the exact product.
pub proof fn law_mul_policies<T: NumericKind>(a: T, b: T)
    ensures
        fits::<T>(a.value() * b.value()) <==> saturated::<T>(a.value() * b.value()) == a.value()
            * b.value(),
        fits::<T>(a.value() * b.value()) ==> wrapped::<T>(a.value() * b.value()) == a.value()
            * b.value(),
{
    lemma_exact_agrees::<T>(a.value() * b.value());
}

/// Division by a nonzero divisor: the panic policy succeeds exactly where saturation
/// changes nothing, and then all three policies give the quotient.
pub proof fn law_div_policies<T: NumericKind>(a: T, b: T)
    requires
        b.value() != 0,
    ensures
        fits::<T>(trunc_div(a.value(), b.value())) <==> saturating_quotient::<T>(
            a.value(),
            b.value(),
        ) == trunc_div(a.value(), b.value()),
        fits::<T>(trunc_div(a.value(), b.value())) ==> wrapped::<T>(
            trunc_div(a.value(), b.value()),
        ) == trunc_div(a.value(), b.value()),
{
    lemma_exact_agrees::<T>(trunc_div(a.value(), b.value()));
}

/// Remainder by a nonzero divisor: the saturating policy gives the remainder that the
/// wrapping policy gives, and that the panic policy gives wherever it succeeds.
pub proof fn law_rem_policies<T: NumericKind>(a: T, b: T)
    requires
        b.value() != 0,
    ensures
        saturating_remainder::<T>(a.value(), b.value()) == trunc_rem(a.value(), b.value()),
{
}

/// Left shift by a count that is not negative: the panic policy succeeds exactly where
/// saturation changes nothing, and then all three policies give the exact shift.
pub proof fn law_shl_policies<T: NumericKind>(a: T, c: int)
    requires
        c >= 0,
    ensures
        shl_defined::<T>(a.value(), c) <==> shl_saturated::<T>(a.value(), c) == shifted_left(
            a.value(),
            c,
        ),
        shl_defined::<T>(a.value(), c) ==> shl_wrapped::<T>(a.value(), c) == shifted_left(
            a.value(),
            c,
        ),
{
    T::lemma_kind();
    a.lemma_value();
    let x = a.value();
    lemma_exact_agrees::<T>(shifted_left(x, c));
    lemma_exact_agrees::<T>(0);
    if x != 0 && shl_defined::<T>(x, c) {
        if c >= T::width() {
            if c > T::width() {
                vstd::arithmetic::power2::lemma_pow2_strictly_increases(T::width(), c as nat);
            }
            let p = pow2(c as nat) as int;
            assert(x > 0 ==> x * p >= p) by (nonlinear_arith)
                requires
                    p > 0,
            ;
            assert(x < 0 ==> x * p <= -p) by (nonlinear_arith)
                requires
                    p > 0,
            ;
        }
        vstd::arithmetic::div_mod::lemma_small_mod(c as nat, T::width());
    }
    if x == 0 {
        vstd::arithmetic::mul::lemma_mul_basics(pow2(c as nat) as int);
        vstd::arithmetic::mul::lemma_mul_basics(pow2((c % (T::width() as int)) as nat) as int);
    }
}

/// Right shift: all three policies agree wherever the count lies within the width.
pub proof fn law_shr_policies<T: NumericKind>(a: T, c: int)
    requires
        count_in_width::<T>(c),
    ensures
        shr_or_zero::<T>(a.value(), c) == shifted_right(a.value(), c),
{
}

/// Negation: the panic policy succeeds exactly where saturation changes nothing, and
/// then all three policies give the negation.
pub proof fn law_neg_policies<T: NumericKind>(a: T)
    ensures
        fits::<T>(negated::<T>(a.value())) <==> saturated::<T>(negated::<T>(a.value()))
            == negated::<T>(a.value()),
        fits::<T>(negated::<T>(a.value())) ==> wrapped::<T>(negated::<T>(a.value()))
            == negated::<T>(a.value()),
{
    lemma_exact_agrees::<T>(negated::<T>(a.value()));
}

/// Absolute value: the panic policy succeeds exactly where saturation changes nothing,
/// and then all three policies give the absolute value.
pub proof fn law_abs_policies<T: NumericKind>(a: T)
    ensures
        fits::<T>(absolute(a.value())) <==> saturated::<T>(absolute(a.value())) == absolute(
            a.value(),
        ),
        fits::<T>(absolute(a.value())) ==> wrapped::<T>(absolute(a.value())) == absolute(
            a.value(),
        ),
{
    lemma_exact_agrees::<T>(absolute(a.value()));
}

/// Sum: where every running total lies in the range, so that the panic policy
/// succeeds, the wrapping and the saturating sums are the exact sum.
pub proof fn law_sum_policies<T: NumericKind>(s: Seq<T>)
    requires
        running_sums_fit(s),
    ensures
        wrapped::<T>(sum_of(s)) == sum_of(s),
        saturating_sum(s) == sum_of(s),
    decreases s.len(),
{
    assert(s.take(s.len() as int) =~= s);
    assert(fits::<T>(sum_of(s.take(s.len() as int))));
    lemma_exact_agrees::<T>(sum_of(s));
    if s.len() > 0 {
        let t = s.drop_last();
        assert forall|i: int| 0 <= i <= t.len() implies fits::<T>(#[trigger] sum_of(t.take(i))) by {
            assert(t.take(i) =~= s.take(i));
            assert(fits::<T>(sum_of(s.take(i))));
        }
        law_sum_policies(t);
    }
}

/// The wrapping sum of two values is their exact sum taken modulo `2^width` into the
/// range of the kind: it lies in the range, it differs from the exact sum by a
/// multiple of `2^width`, and no other value of the range does.
pub proof fn law_wrap_add_is_modular<T: NumericKind>(a: T, b: T)
    ensures
        fits::<T>(wrapped::<T>(a.value() + b.value())),
        (a.value() + b.value() - wrapped::<T>(a.value() + b.value())) % (pow2(T::width()) as int)
            == 0,
        forall|r: int|
            fits::<T>(r) && (a.value() + b.value() - r) % (pow2(T::width()) as int) == 0 ==> r
                == wrapped::<T>(a.value() + b.value()),
{
    T::lemma_kind();
    let x = a.value() + b.value();
    let lo = T::min_int();
    let hi = T::max_int();
    let m = hi - lo + 1;
    lemma_wrap_range(x, lo, hi);
    assert forall|r: int| fits::<T>(r) && (x - r) % m == 0 implies r == wrapped::<T>(x) by {
        vstd::arithmetic::div_mod::lemma_fundamental_div_mod(x - r, m);
        vstd::arithmetic::div_mod::lemma_mod_multiples_vanish((x - r) / m, r, m);
        lemma_wrap_congruent(r, x, lo, hi);
        lemma_wrap_range(r, lo, hi);
    }
}

/// The saturating sum of two values is their exact sum where that lies in the range,
/// and otherwise the greatest value (overflow) or the least (underflow).
pub proof fn law_saturate_add_clamps<T: NumericKind>(a: T, b: T)
    ensures
        fits::<T>(a.value() + b.value()) ==> saturated::<T>(a.value() + b.value()) == a.value()
            + b.value(),
        a.value() + b.value() > T::max_int() ==> saturated::<T>(a.value() + b.value())
            == T::max_int(),
        a.value() + b.value() < T::min_int() ==> saturated::<T>(a.value() + b.value())
            == T::min_int(),
{
    T::lemma_kind();
}

} // verus!
