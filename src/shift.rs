//! Left and right shifts under each policy, by a count of any integer kind.
use vstd::prelude::*;
use crate::kind::{
    NumericKind,
    checked_wide,
    clamp_wide,
    zero,
    fits,
    pow2_wide,
    saturated,
    wrap_wide,
    wrapped,
};

verus! {

use vstd::arithmetic::power2::{pow2, lemma_pow2_pos, lemma_pow2_strictly_increases};

/// The count `c` names a bit of the kind `T`: it is neither negative nor as large as
/// the width.
pub open spec fn count_in_width<T: NumericKind>(c: int) -> bool {
    0 <= c < T::width()
}

/// `a` shifted left by `c` bits with no bit lost: `a * 2^c`.
pub open spec fn shifted_left(a: int, c: int) -> int {
    a * pow2(c as nat)
}

/// `a` shifted right by `c` bits, sign kept: `a / 2^c` rounded down.
pub open spec fn shifted_right(a: int, c: int) -> int {
    a / (pow2(c as nat) as int)
}

/// The wrapping left shift: the count is taken modulo the width, and the bits shifted
/// out are dropped.
pub open spec fn shl_wrapped<T: NumericKind>(a: int, c: int) -> int {
    wrapped::<T>(shifted_left(a, c % (T::width() as int)))
}

/// The saturating left shift: zero stays zero; otherwise the exact result clamped into
/// the range, and for a negative count the greatest or least value by the sign of `a`.
pub open spec fn shl_saturated<T: NumericKind>(a: int, c: int) -> int {
    if a == 0 {
        0
    } else if c < 0 {
        if a > 0 {
            T::max_int()
        } else {
            T::min_int()
        }
    } else {
        saturated::<T>(shifted_left(a, c))
    }
}

/// The left shift of `a` by `c` loses no bit: `a` is zero, or the count is not negative
/// and the exact result lies in the range.
pub open spec fn shl_defined<T: NumericKind>(a: int, c: int) -> bool {
    a == 0 || (c >= 0 && fits::<T>(shifted_left(a, c)))
}

/// The right shift that gives zero for a count outside the width.
pub open spec fn shr_or_zero<T: NumericKind>(a: int, c: int) -> int {
    if count_in_width::<T>(c) {
        shifted_right(a, c)
    } else {
        0
    }
}

/// A nonzero value shifted left by the width or more leaves the range, on the side of
/// its sign.
proof fn lemma_shl_out_of_range<T: NumericKind>(a: int, c: int)
    requires
        a != 0,
        c >= T::width(),
    ensures
        a > 0 ==> shifted_left(a, c) > T::max_int(),
        a < 0 ==> shifted_left(a, c) < T::min_int(),
{
    T::lemma_kind();
    if c > T::width() {
        lemma_pow2_strictly_increases(T::width(), c as nat);
    }
    let p = pow2(c as nat) as int;
    assert(a > 0 ==> a * p >= p) by (nonlinear_arith)
        requires
            p > 0,
    ;
    assert(a < 0 ==> a * p <= -p) by (nonlinear_arith)
        requires
            p > 0,
    ;
}

/// A right shift by a count within the width stays between zero and the value.
proof fn lemma_shr_bounds(a: int, p: int)
    requires
        p >= 1,
    ensures
        a >= 0 ==> 0 <= a / p <= a,
        a < 0 ==> a <= a / p < 0,
{
    vstd::arithmetic::div_mod::lemma_fundamental_div_mod(a, p);
    vstd::arithmetic::div_mod::lemma_mod_bound(a, p);
    let q = a / p;
    let r = a % p;
    assert(a >= 0 ==> 0 <= q <= a) by (nonlinear_arith)
        requires
            a == p * q + r,
            0 <= r < p,
            p >= 1,
    ;
    assert(a < 0 ==> a <= q < 0) by (nonlinear_arith)
        requires
            a == p * q + r,
            0 <= r < p,
            p >= 1,
    ;
}

/// `a * 2^c` for a count within the width, computed without overflow.
fn shl_within<T: NumericKind>(a: i128, c: i128) -> (r: i128)
    requires
        T::min_int() <= a <= T::max_int(),
        0 <= c < T::width(),
    ensures
        r == shifted_left(a as int, c as int),
        T::min_int() < 0 ==> -0x4000_0000_0000_0000_0000_0000_0000_0000 <= r
            <= 0x4000_0000_0000_0000_0000_0000_0000_0000,
        T::min_int() == 0 ==> 0 <= r < 0x8000_0000_0000_0000_0000_0000_0000_0000,
{
    proof {
        T::lemma_kind();
    }
    let p = pow2_wide(c);
    proof {
        if T::min_int() < 0 {
            assert(-0x4000_0000_0000_0000_0000_0000_0000_0000 <= a * p
                <= 0x4000_0000_0000_0000_0000_0000_0000_0000) by (nonlinear_arith)
                requires
                    -0x8000_0000_0000_0000 <= a <= 0x8000_0000_0000_0000,
                    0 < p <= 0x8000_0000_0000_0000,
            ;
        } else {
            assert(0 <= a * p < 0x8000_0000_0000_0000_0000_0000_0000_0000) by (nonlinear_arith)
                requires
                    0 <= a < 0x1_0000_0000_0000_0000,
                    0 < p <= 0x8000_0000_0000_0000,
            ;
        }
    }
    a * p
}

/// The left shift of `a` by `c` where it loses no bit.
fn shl_checked<T: NumericKind, R: NumericKind>(a: T, c: R) -> (r: Option<T>)
    ensures
        r is Some <==> shl_defined::<T>(a.value(), c.value()),
        r is Some ==> r->0.value() == shifted_left(a.value(), c.value()),
{
    let x = a.to_wide();
    let n = c.to_wide();
    if x == 0 {
        Some(a)
    } else if n < 0 {
        None
    } else if n >= T::width_wide() {
        proof {
            lemma_shl_out_of_range::<T>(x as int, n as int);
        }
        None
    } else {
        checked_wide::<T>(shl_within::<T>(x, n))
    }
}

/// The right shift of `a` by `c` where the count lies within the width.
fn shr_checked<T: NumericKind, R: NumericKind>(a: T, c: R) -> (r: Option<T>)
    ensures
        r is Some <==> count_in_width::<T>(c.value()),
        r is Some ==> r->0.value() == shifted_right(a.value(), c.value()),
{
    let x = a.to_wide();
    let n = c.to_wide();
    if 0 <= n && n < T::width_wide() {
        proof {
            T::lemma_kind();
        }
        let p = pow2_wide(n);
        proof {
            lemma_shr_bounds(x as int, p as int);
        }
        Some(T::from_wide(x.checked_div_euclid(p).unwrap()))
    } else {
        None
    }
}

/// Shifts left, wrapping: the count is taken modulo the width.
pub trait ShlWrap<RHS: NumericKind = usize>: NumericKind {
    /// The value shifted left by the count modulo the width, wrapped into the range.
    fn shl_wrap(self, rhs: RHS) -> (r: Self)
        ensures
            r.value() == shl_wrapped::<Self>(self.value(), rhs.value()),
    ;
}

impl<T: NumericKind, R: NumericKind> ShlWrap<R> for T {
    fn shl_wrap(self, rhs: R) -> (r: T) {
        proof {
            T::lemma_kind();
        }
        let k = rhs.to_wide().checked_rem_euclid(T::width_wide()).unwrap();
        wrap_wide::<T>(shl_within::<T>(self.to_wide(), k))
    }
}

/// Shifts left in place, wrapping: the count is taken modulo the width.
pub trait ShlAssignWrap<RHS: NumericKind = usize>: NumericKind {
    /// Replaces the value by its wrapping left shift.
    fn shl_assign_wrap(&mut self, rhs: RHS)
        ensures
            final(self).value() == shl_wrapped::<Self>(old(self).value(), rhs.value()),
    ;
}

impl<T: NumericKind, R: NumericKind> ShlAssignWrap<R> for T {
    fn shl_assign_wrap(&mut self, rhs: R) {
        *self = self.shl_wrap(rhs);
    }
}

/// Shifts left, clamping to the range where a bit would be lost.
pub trait ShlSaturate<RHS: NumericKind = usize>: NumericKind {
    /// Zero stays zero; otherwise the exact shift where it fits, and the greatest value
    /// for a positive operand or the least for a negative one where it does not
    /// (a count of the width or more never fits).
    fn shl_saturate(self, rhs: RHS) -> (r: Self)
        ensures
            r.value() == shl_saturated::<Self>(self.value(), rhs.value()),
    ;
}

impl<T: NumericKind, R: NumericKind> ShlSaturate<R> for T {
    fn shl_saturate(self, rhs: R) -> (r: T) {
        proof {
            T::lemma_kind();
        }
        let x = self.to_wide();
        let n = rhs.to_wide();
        if x == 0 {
            self
        } else if n < 0 || n >= T::width_wide() {
            proof {
                if n >= 0 {
                    lemma_shl_out_of_range::<T>(x as int, n as int);
                }
            }
            if x > 0 {
                T::from_wide(T::max_wide())
            } else {
                T::from_wide(T::min_wide())
            }
        } else {
            clamp_wide::<T>(shl_within::<T>(x, n))
        }
    }
}

/// Shifts left in place, clamping to the range where a bit would be lost.
pub trait ShlAssignSaturate<RHS: NumericKind = usize>: NumericKind {
    /// Replaces the value by its saturating left shift.
    fn shl_assign_saturate(&mut self, rhs: RHS)
        ensures
            final(self).value() == shl_saturated::<Self>(old(self).value(), rhs.value()),
    ;
}

impl<T: NumericKind, R: NumericKind> ShlAssignSaturate<R> for T {
    fn shl_assign_saturate(&mut self, rhs: R) {
        *self = self.shl_saturate(rhs);
    }
}

/// Shifts left; losing a set bit is a programming error.
pub trait ShlPanic<RHS: NumericKind = usize>: NumericKind {
    /// The exact shift `self * 2^rhs`; there is none where a bit would be lost, which
    /// includes every nonzero value shifted by the width or more or by a negative count.
    fn shl_panic(self, rhs: RHS) -> (r: Self)
        requires
            shl_defined::<Self>(self.value(), rhs.value()),
        ensures
            r.value() == shifted_left(self.value(), rhs.value()),
    ;
}

impl<T: NumericKind, R: NumericKind> ShlPanic<R> for T {
    fn shl_panic(self, rhs: R) -> (r: T) {
        shl_checked(self, rhs).expect("arithmetic overflow")
    }
}

/// Shifts left in place; losing a set bit is a programming error.
pub trait ShlAssignPanic<RHS: NumericKind = usize>: NumericKind {
    /// Replaces the value by its exact left shift.
    fn shl_assign_panic(&mut self, rhs: RHS)
        requires
            shl_defined::<Self>(old(self).value(), rhs.value()),
        ensures
            final(self).value() == shifted_left(old(self).value(), rhs.value()),
    ;
}

impl<T: NumericKind, R: NumericKind> ShlAssignPanic<R> for T {
    fn shl_assign_panic(&mut self, rhs: R) {
        *self = self.shl_panic(rhs);
    }
}

/// Shifts right, giving zero for a count outside the width.
pub trait ShrWrap<RHS: NumericKind = usize>: NumericKind {
    /// The value shifted right with its sign kept, or zero where the count is negative
    /// or not less than the width.
    fn shr_wrap(self, rhs: RHS) -> (r: Self)
        ensures
            r.value() == shr_or_zero::<Self>(self.value(), rhs.value()),
    ;
}

impl<T: NumericKind, R: NumericKind> ShrWrap<R> for T {
    fn shr_wrap(self, rhs: R) -> (r: T) {
        match shr_checked(self, rhs) {
            Some(v) => v,
            None => zero::<T>(),
        }
    }
}

/// Shifts right in place, giving zero for a count outside the width.
pub trait ShrAssignWrap<RHS: NumericKind = usize>: NumericKind {
    /// Replaces the value by its right shift, or by zero.
    fn shr_assign_wrap(&mut self, rhs: RHS)
        ensures
            final(self).value() == shr_or_zero::<Self>(old(self).value(), rhs.value()),
    ;
}

impl<T: NumericKind, R: NumericKind> ShrAssignWrap<R> for T {
    fn shr_assign_wrap(&mut self, rhs: R) {
        *self = self.shr_wrap(rhs);
    }
}

/// Shifts right, giving zero for a count outside the width.
pub trait ShrSaturate<RHS: NumericKind = usize>: NumericKind {
    /// The value shifted right with its sign kept, or zero where the count is negative
    /// or not less than the width.
    fn shr_saturate(self, rhs: RHS) -> (r: Self)
        ensures
            r.value() == shr_or_zero::<Self>(self.value(), rhs.value()),
    ;
}

impl<T: NumericKind, R: NumericKind> ShrSaturate<R> for T {
    fn shr_saturate(self, rhs: R) -> (r: T) {
        match shr_checked(self, rhs) {
            Some(v) => v,
            None => zero::<T>(),
        }
    }
}

/// Shifts right in place, giving zero for a count outside the width.
pub trait ShrSaturateAssign<RHS: NumericKind = usize>: NumericKind {
    /// Replaces the value by its right shift, or by zero.
    fn shr_assign_saturate(&mut self, rhs: RHS)
        ensures
            final(self).value() == shr_or_zero::<Self>(old(self).value(), rhs.value()),
    ;
}

impl<T: NumericKind, R: NumericKind> ShrSaturateAssign<R> for T {
    fn shr_assign_saturate(&mut self, rhs: R) {
        *self = self.shr_saturate(rhs);
    }
}

/// Shifts right in place, giving zero for a count outside the width (the same
/// operation as `ShrSaturateAssign`, under the name the other in-place traits follow).
pub trait ShrAssignSaturate<RHS: NumericKind = usize>: NumericKind {
    /// Replaces the value by its right shift, or by zero.
    fn shr_assign_saturate(&mut self, rhs: RHS)
        ensures
            final(self).value() == shr_or_zero::<Self>(old(self).value(), rhs.value()),
    ;
}

impl<T: NumericKind, R: NumericKind> ShrAssignSaturate<R> for T {
    fn shr_assign_saturate(&mut self, rhs: R) {
        *self = self.shr_saturate(rhs);
    }
}

/// Shifts right; a count outside the width is a programming error.
pub trait ShrPanic<RHS: NumericKind = usize>: NumericKind {
    /// The value shifted right with its sign kept; there is none for a negative count
    /// or one not less than the width.
    fn shr_panic(self, rhs: RHS) -> (r: Self)
        requires
            count_in_width::<Self>(rhs.value()),
        ensures
            r.value() == shifted_right(self.value(), rhs.value()),
    ;
}

impl<T: NumericKind, R: NumericKind> ShrPanic<R> for T {
    fn shr_panic(self, rhs: R) -> (r: T) {
        shr_checked(self, rhs).expect("arithmetic overflow")
    }
}

/// Shifts right in place; a count outside the width is a programming error.
pub trait ShrAssignPanic<RHS: NumericKind = usize>: NumericKind {
    /// Replaces the value by its right shift.
    fn shr_assign_panic(&mut self, rhs: RHS)
        requires
            count_in_width::<Self>(rhs.value()),
        ensures
            final(self).value() == shifted_right(old(self).value(), rhs.value()),
    ;
}

impl<T: NumericKind, R: NumericKind> ShrAssignPanic<R> for T {
    fn shr_assign_panic(&mut self, rhs: R) {
        *self = self.shr_panic(rhs);
    }
}

} // verus!
