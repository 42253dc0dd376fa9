//! Addition, subtraction, multiplication, division and remainder under each policy.
use vstd::prelude::*;
use crate::kind::{
    NumericKind,
    checked_wide,
    clamp_wide,
    fits,
    saturated,
    wrap_wide,
    wrapped,
};
use crate::model::{lemma_wrap_congruent, trunc_div, trunc_rem};

verus! {

use vstd::arithmetic::div_mod::lemma_mul_mod_noop;

/// The saturating quotient: the clamped quotient, and for a zero divisor the greatest
/// value for a positive dividend, the least for a negative one, and zero for zero.
pub open spec fn saturating_quotient<T: NumericKind>(a: int, b: int) -> int {
    if b == 0 {
        if a > 0 {
            T::max_int()
        } else if a < 0 {
            T::min_int()
        } else {
            0
        }
    } else {
        saturated::<T>(trunc_div(a, b))
    }
}

/// The saturating remainder: the remainder, and for a zero divisor the greatest value
/// for a nonzero dividend and zero for zero.
pub open spec fn saturating_remainder<T: NumericKind>(a: int, b: int) -> int {
    if b == 0 {
        if a == 0 {
            0
        } else {
            T::max_int()
        }
    } else {
        trunc_rem(a, b)
    }
}

/// The remainder of a dividend of the kind lies between zero and the dividend.
proof fn lemma_rem_bounds(a: int, b: int)
    requires
        b != 0,
    ensures
        a >= 0 ==> 0 <= trunc_rem(a, b) <= a,
        a < 0 ==> a <= trunc_rem(a, b) <= 0,
{
    if a > 0 && b > 0 {
        vstd::arithmetic::div_mod::lemma_mod_decreases(a as nat, b as nat);
    } else if a < 0 && b < 0 {
        vstd::arithmetic::div_mod::lemma_mod_decreases((a * -1) as nat, (b * -1) as nat);
    } else if a < 0 {
        vstd::arithmetic::div_mod::lemma_mod_decreases((a * -1) as nat, b as nat);
    } else if a > 0 {
        vstd::arithmetic::div_mod::lemma_mod_decreases(a as nat, (b * -1) as nat);
    }
}

/// Adds two values; overflow is a programming error.
pub trait AddPanic: NumericKind {
    /// The exact sum; there is none where it leaves the range.
    fn add_panic(self, rhs: Self) -> (r: Self)
        requires
            fits::<Self>(self.value() + rhs.value()),
        ensures
            r.value() == self.value() + rhs.value(),
    ;
}

impl<T: NumericKind> AddPanic for T {
    fn add_panic(self, rhs: T) -> (r: T) {
        checked_wide::<T>(self.to_wide() + rhs.to_wide()).expect("arithmetic overflow")
    }
}

/// Subtracts two values; overflow is a programming error.
pub trait SubPanic: NumericKind {
    /// The exact difference; there is none where it leaves the range.
    fn sub_panic(self, rhs: Self) -> (r: Self)
        requires
            fits::<Self>(self.value() - rhs.value()),
        ensures
            r.value() == self.value() - rhs.value(),
    ;
}

impl<T: NumericKind> SubPanic for T {
    fn sub_panic(self, rhs: T) -> (r: T) {
        checked_wide::<T>(self.to_wide() - rhs.to_wide()).expect("arithmetic overflow")
    }
}

/// Multiplies two values; overflow is a programming error.
pub trait MulPanic: NumericKind {
    /// The exact product; there is none where it leaves the range.
    fn mul_panic(self, rhs: Self) -> (r: Self)
        requires
            fits::<Self>(self.value() * rhs.value()),
        ensures
            r.value() == self.value() * rhs.value(),
    ;
}

impl<T: NumericKind> MulPanic for T {
    fn mul_panic(self, rhs: T) -> (r: T) {
        proof {
            T::lemma_kind();
        }
        let p = self.to_wide().checked_mul(rhs.to_wide());
        let q: Option<T> = match p {
            Some(x) => checked_wide::<T>(x),
            None => None,
        };
        q.expect("arithmetic overflow")
    }
}

/// Divides two values; a zero divisor or overflow is a programming error.
pub trait DivPanic: NumericKind {
    /// The quotient, rounded toward zero; there is none for a zero divisor or where
    /// it leaves the range (the least signed value divided by -1).
    fn div_panic(self, rhs: Self) -> (r: Self)
        requires
            rhs.value() != 0,
            fits::<Self>(trunc_div(self.value(), rhs.value())),
        ensures
            r.value() == trunc_div(self.value(), rhs.value()),
    ;
}

impl<T: NumericKind> DivPanic for T {
    fn div_panic(self, rhs: T) -> (r: T) {
        let q = self.to_wide().checked_div(rhs.to_wide()).expect("attempt to divide by zero");
        checked_wide::<T>(q).expect("arithmetic overflow")
    }
}

/// Takes the remainder of a division; a zero divisor or overflow is a programming error.
pub trait RemPanic: NumericKind {
    /// The remainder, with the sign of the dividend; there is none for a zero divisor
    /// or where the quotient leaves the range, as for `DivPanic`.
    fn rem_panic(self, rhs: Self) -> (r: Self)
        requires
            rhs.value() != 0,
            fits::<Self>(trunc_div(self.value(), rhs.value())),
        ensures
            r.value() == trunc_rem(self.value(), rhs.value()),
    ;
}

impl<T: NumericKind> RemPanic for T {
    fn rem_panic(self, rhs: T) -> (r: T) {
        let a = self.to_wide();
        let b = rhs.to_wide();
        let q = a.checked_div(b).expect("attempt to calculate the remainder with a divisor of zero");
        // The remainder overflows where the quotient does, as std's checked_rem has it.
        checked_wide::<T>(q).expect("arithmetic overflow");
        let m = a.checked_rem(b).unwrap();
        proof {
            T::lemma_kind();
            lemma_rem_bounds(a as int, b as int);
        }
        T::from_wide(m)
    }
}

/// Adds a value in place; overflow is a programming error.
pub trait AddAssignPanic: NumericKind {
    /// Adds `rhs` to the value, exactly.
    fn add_assign_panic(&mut self, rhs: Self)
        requires
            fits::<Self>(old(self).value() + rhs.value()),
        ensures
            final(self).value() == old(self).value() + rhs.value(),
    ;
}

impl<T: NumericKind> AddAssignPanic for T {
    fn add_assign_panic(&mut self, rhs: T) {
        *self = self.add_panic(rhs);
    }
}

/// Subtracts a value in place; overflow is a programming error.
pub trait SubAssignPanic: NumericKind {
    /// Subtracts `rhs` from the value, exactly.
    fn sub_assign_panic(&mut self, rhs: Self)
        requires
            fits::<Self>(old(self).value() - rhs.value()),
        ensures
            final(self).value() == old(self).value() - rhs.value(),
    ;
}

impl<T: NumericKind> SubAssignPanic for T {
    fn sub_assign_panic(&mut self, rhs: T) {
        *self = self.sub_panic(rhs);
    }
}

/// Multiplies by a value in place; overflow is a programming error.
pub trait MulAssignPanic: NumericKind {
    /// Multiplies the value by `rhs`, exactly.
    fn mul_assign_panic(&mut self, rhs: Self)
        requires
            fits::<Self>(old(self).value() * rhs.value()),
        ensures
            final(self).value() == old(self).value() * rhs.value(),
    ;
}

impl<T: NumericKind> MulAssignPanic for T {
    fn mul_assign_panic(&mut self, rhs: T) {
        *self = self.mul_panic(rhs);
    }
}

/// Divides by a value in place; a zero divisor or overflow is a programming error.
pub trait DivAssignPanic: NumericKind {
    /// Replaces the value by its quotient by `rhs`, rounded toward zero.
    fn div_assign_panic(&mut self, rhs: Self)
        requires
            rhs.value() != 0,
            fits::<Self>(trunc_div(old(self).value(), rhs.value())),
        ensures
            final(self).value() == trunc_div(old(self).value(), rhs.value()),
    ;
}

impl<T: NumericKind> DivAssignPanic for T {
    fn div_assign_panic(&mut self, rhs: T) {
        *self = self.div_panic(rhs);
    }
}

/// Takes a remainder in place; a zero divisor or overflow is a programming error.
pub trait RemAssignPanic: NumericKind {
    /// Replaces the value by its remainder modulo `rhs`.
    fn rem_assign_panic(&mut self, rhs: Self)
        requires
            rhs.value() != 0,
            fits::<Self>(trunc_div(old(self).value(), rhs.value())),
        ensures
            final(self).value() == trunc_rem(old(self).value(), rhs.value()),
    ;
}

impl<T: NumericKind> RemAssignPanic for T {
    fn rem_assign_panic(&mut self, rhs: T) {
        *self = self.rem_panic(rhs);
    }
}

/// Adds two values, wrapping around on overflow.
pub trait AddWrap: NumericKind {
    /// The sum, wrapped into the range.
    fn add_wrap(self, rhs: Self) -> (r: Self)
        ensures
            r.value() == wrapped::<Self>(self.value() + rhs.value()),
    ;
}

impl<T: NumericKind> AddWrap for T {
    fn add_wrap(self, rhs: T) -> (r: T) {
        proof {
            T::lemma_kind();
        }
        wrap_wide::<T>(self.to_wide() + rhs.to_wide())
    }
}

/// Subtracts two values, wrapping around on overflow.
pub trait SubWrap: NumericKind {
    /// The difference, wrapped into the range.
    fn sub_wrap(self, rhs: Self) -> (r: Self)
        ensures
            r.value() == wrapped::<Self>(self.value() - rhs.value()),
    ;
}

impl<T: NumericKind> SubWrap for T {
    fn sub_wrap(self, rhs: T) -> (r: T) {
        proof {
            T::lemma_kind();
        }
        wrap_wide::<T>(self.to_wide() - rhs.to_wide())
    }
}

/// Multiplies two values, wrapping around on overflow.
pub trait MulWrap: NumericKind {
    /// The product, wrapped into the range.
    fn mul_wrap(self, rhs: Self) -> (r: Self)
        ensures
            r.value() == wrapped::<Self>(self.value() * rhs.value()),
    ;
}

impl<T: NumericKind> MulWrap for T {
    fn mul_wrap(self, rhs: T) -> (r: T) {
        proof {
            T::lemma_kind();
            vstd::arithmetic::power2::lemma_pow2_pos(T::width());
        }
        // The product of the residues stays below 2^128.
        let m: i128 = T::max_wide() - T::min_wide() + 1;
        let ra: i128 = self.to_wide().checked_rem_euclid(m).unwrap();
        let rb: i128 = rhs.to_wide().checked_rem_euclid(m).unwrap();
        proof {
            assert(0 <= ra * rb <= (m - 1) * (m - 1)) by (nonlinear_arith)
                requires
                    0 <= ra < m,
                    0 <= rb < m,
            ;
            assert((m - 1) * (m - 1) < 0x1_0000_0000_0000_0000_0000_0000_0000_0000) by (nonlinear_arith)
                requires
                    0 < m <= 0x1_0000_0000_0000_0000,
            ;
        }
        let p: u128 = (ra as u128) * (rb as u128);
        let k: u128 = p % (m as u128);
        proof {
            lemma_mul_mod_noop(self.value(), rhs.value(), m as int);
            vstd::arithmetic::div_mod::lemma_mod_twice(self.value() * rhs.value(), m as int);
            lemma_wrap_congruent(
                k as int,
                self.value() * rhs.value(),
                T::min_int(),
                T::max_int(),
            );
        }
        wrap_wide::<T>(k as i128)
    }
}

/// Divides two values, wrapping around on overflow; a zero divisor is a programming
/// error.
pub trait DivWrap: NumericKind {
    /// The quotient, rounded toward zero and wrapped into the range: the least signed
    /// value divided by -1 gives itself.
    fn div_wrap(self, rhs: Self) -> (r: Self)
        requires
            rhs.value() != 0,
        ensures
            r.value() == wrapped::<Self>(trunc_div(self.value(), rhs.value())),
    ;
}

impl<T: NumericKind> DivWrap for T {
    fn div_wrap(self, rhs: T) -> (r: T) {
        proof {
            T::lemma_kind();
        }
        let q = self.to_wide().checked_div(rhs.to_wide()).expect("attempt to divide by zero");
        wrap_wide::<T>(q)
    }
}

/// Takes the remainder of a division, wrapping around on overflow; a zero divisor is
/// a programming error.
pub trait RemWrap: NumericKind {
    /// The remainder, with the sign of the dividend: the least signed value modulo -1
    /// gives zero.
    fn rem_wrap(self, rhs: Self) -> (r: Self)
        requires
            rhs.value() != 0,
        ensures
            r.value() == trunc_rem(self.value(), rhs.value()),
    ;
}

impl<T: NumericKind> RemWrap for T {
    fn rem_wrap(self, rhs: T) -> (r: T) {
        let a = self.to_wide();
        let b = rhs.to_wide();
        let m = a.checked_rem(b).expect("attempt to calculate the remainder with a divisor of zero");
        proof {
            T::lemma_kind();
            lemma_rem_bounds(a as int, b as int);
        }
        T::from_wide(m)
    }
}

/// Adds a value in place, wrapping around on overflow.
pub trait AddAssignWrap: NumericKind {
    /// Adds `rhs` to the value, wrapping.
    fn add_assign_wrap(&mut self, rhs: Self)
        ensures
            final(self).value() == wrapped::<Self>(old(self).value() + rhs.value()),
    ;
}

impl<T: NumericKind> AddAssignWrap for T {
    fn add_assign_wrap(&mut self, rhs: T) {
        *self = self.add_wrap(rhs);
    }
}

/// Subtracts a value in place, wrapping around on overflow.
pub trait SubAssignWrap: NumericKind {
    /// Subtracts `rhs` from the value, wrapping.
    fn sub_assign_wrap(&mut self, rhs: Self)
        ensures
            final(self).value() == wrapped::<Self>(old(self).value() - rhs.value()),
    ;
}

impl<T: NumericKind> SubAssignWrap for T {
    fn sub_assign_wrap(&mut self, rhs: T) {
        *self = self.sub_wrap(rhs);
    }
}

/// Multiplies by a value in place, wrapping around on overflow.
pub trait MulAssignWrap: NumericKind {
    /// Multiplies the value by `rhs`, wrapping.
    fn mul_assign_wrap(&mut self, rhs: Self)
        ensures
            final(self).value() == wrapped::<Self>(old(self).value() * rhs.value()),
    ;
}

impl<T: NumericKind> MulAssignWrap for T {
    fn mul_assign_wrap(&mut self, rhs: T) {
        *self = self.mul_wrap(rhs);
    }
}

/// Divides by a value in place, wrapping around on overflow; a zero divisor is a
/// programming error.
pub trait DivAssignWrap: NumericKind {
    /// Replaces the value by its quotient by `rhs`, wrapped.
    fn div_assign_wrap(&mut self, rhs: Self)
        requires
            rhs.value() != 0,
        ensures
            final(self).value() == wrapped::<Self>(trunc_div(old(self).value(), rhs.value())),
    ;
}

impl<T: NumericKind> DivAssignWrap for T {
    fn div_assign_wrap(&mut self, rhs: T) {
        *self = self.div_wrap(rhs);
    }
}

/// Takes a remainder in place, wrapping around on overflow; a zero divisor is a
/// programming error.
pub trait RemAssignWrap: NumericKind {
    /// Replaces the value by its remainder modulo `rhs`.
    fn rem_assign_wrap(&mut self, rhs: Self)
        requires
            rhs.value() != 0,
        ensures
            final(self).value() == trunc_rem(old(self).value(), rhs.value()),
    ;
}

impl<T: NumericKind> RemAssignWrap for T {
    fn rem_assign_wrap(&mut self, rhs: T) {
        *self = self.rem_wrap(rhs);
    }
}

/// Adds two values, clamping to the range on overflow.
pub trait AddSaturate: NumericKind {
    /// The sum, clamped into the range.
    fn add_saturate(self, rhs: Self) -> (r: Self)
        ensures
            r.value() == saturated::<Self>(self.value() + rhs.value()),
    ;
}

impl<T: NumericKind> AddSaturate for T {
    fn add_saturate(self, rhs: T) -> (r: T) {
        clamp_wide::<T>(self.to_wide() + rhs.to_wide())
    }
}

/// Subtracts two values, clamping to the range on overflow.
pub trait SubSaturate: NumericKind {
    /// The difference, clamped into the range.
    fn sub_saturate(self, rhs: Self) -> (r: Self)
        ensures
            r.value() == saturated::<Self>(self.value() - rhs.value()),
    ;
}

impl<T: NumericKind> SubSaturate for T {
    fn sub_saturate(self, rhs: T) -> (r: T) {
        clamp_wide::<T>(self.to_wide() - rhs.to_wide())
    }
}

/// Multiplies two values, clamping to the range on overflow.
pub trait MulSaturate: NumericKind {
    /// The product, clamped into the range.
    fn mul_saturate(self, rhs: Self) -> (r: Self)
        ensures
            r.value() == saturated::<Self>(self.value() * rhs.value()),
    ;
}

impl<T: NumericKind> MulSaturate for T {
    fn mul_saturate(self, rhs: T) -> (r: T) {
        proof {
            T::lemma_kind();
        }
        let a = self.to_wide();
        let b = rhs.to_wide();
        match a.checked_mul(b) {
            Some(p) => clamp_wide::<T>(p),
            None => {
                proof {
                    assert((a < 0) == (b < 0) ==> a * b >= 0) by (nonlinear_arith);
                    assert((a < 0) != (b < 0) ==> a * b <= 0) by (nonlinear_arith);
                }
                if (a < 0) == (b < 0) {
                    T::from_wide(T::max_wide())
                } else {
                    T::from_wide(T::min_wide())
                }
            },
        }
    }
}

/// Divides two values, clamping to the range on overflow and on a zero divisor.
pub trait DivSaturate: NumericKind {
    /// The quotient, rounded toward zero and clamped into the range; a zero divisor
    /// gives the greatest value for a positive dividend, the least for a negative one,
    /// and zero for zero.
    fn div_saturate(self, rhs: Self) -> (r: Self)
        ensures
            r.value() == saturating_quotient::<Self>(self.value(), rhs.value()),
    ;
}

impl<T: NumericKind> DivSaturate for T {
    fn div_saturate(self, rhs: T) -> (r: T) {
        proof {
            T::lemma_kind();
        }
        let a = self.to_wide();
        let b = rhs.to_wide();
        if b == 0 {
            if a > 0 {
                T::from_wide(T::max_wide())
            } else if a < 0 {
                T::from_wide(T::min_wide())
            } else {
                T::from_wide(0)
            }
        } else {
            clamp_wide::<T>(a.checked_div(b).unwrap())
        }
    }
}

/// Takes the remainder of a division, with a defined result for a zero divisor.
pub trait RemSaturate: NumericKind {
    /// The remainder, with the sign of the dividend; a zero divisor gives the greatest
    /// value for a nonzero dividend and zero for zero.
    fn rem_saturate(self, rhs: Self) -> (r: Self)
        ensures
            r.value() == saturating_remainder::<Self>(self.value(), rhs.value()),
    ;
}

impl<T: NumericKind> RemSaturate for T {
    fn rem_saturate(self, rhs: T) -> (r: T) {
        proof {
            T::lemma_kind();
        }
        let a = self.to_wide();
        let b = rhs.to_wide();
        if b == 0 {
            if a == 0 {
                T::from_wide(0)
            } else {
                T::from_wide(T::max_wide())
            }
        } else {
            let m = a.checked_rem(b).unwrap();
            proof {
                lemma_rem_bounds(a as int, b as int);
            }
            T::from_wide(m)
        }
    }
}

} // verus!
