//! Negation and absolute value under each policy.
use vstd::prelude::*;
use crate::arith::{SubPanic, SubSaturate, SubWrap};
use crate::kind::{
    NumericKind,
    checked_wide,
    clamp_wide,
    fits,
    is_signed,
    saturated,
    wrap_wide,
    wrapped,
    zero,
};

verus! {

/// The negation of `a` where it is representable: `-a` for a signed kind; an unsigned
/// kind leaves its values unchanged.
pub open spec fn negated<T: NumericKind>(a: int) -> int {
    if is_signed::<T>() {
        -a
    } else {
        a
    }
}

/// The absolute value of `a`.
pub open spec fn absolute(a: int) -> int {
    if a < 0 {
        0 - a
    } else {
        a
    }
}

/// Negates a value; negating the least signed value is a programming error.
pub trait NegPanic: NumericKind {
    /// The negation; there is none for the least value of a signed kind.
    fn neg_panic(self) -> (r: Self)
        requires
            fits::<Self>(negated::<Self>(self.value())),
        ensures
            r.value() == negated::<Self>(self.value()),
    ;
}

impl<T: NumericKind> NegPanic for T {
    fn neg_panic(self) -> (r: T) {
        if T::min_wide() < 0 {
            checked_wide::<T>(-self.to_wide()).expect("arithmetic overflow")
        } else {
            self
        }
    }
}

/// Negates a value, wrapping around on overflow.
pub trait NegWrap: NumericKind {
    /// The negation wrapped into the range: the least signed value negates to itself.
    fn neg_wrap(self) -> (r: Self)
        ensures
            r.value() == wrapped::<Self>(negated::<Self>(self.value())),
    ;
}

impl<T: NumericKind> NegWrap for T {
    fn neg_wrap(self) -> (r: T) {
        proof {
            T::lemma_kind();
        }
        if T::min_wide() < 0 {
            wrap_wide::<T>(-self.to_wide())
        } else {
            proof {
                self.lemma_value();
                crate::model::lemma_wrap_range(self.value(), T::min_int(), T::max_int());
            }
            self
        }
    }
}

/// Negates a value, clamping to the range on overflow.
pub trait NegSaturate: NumericKind {
    /// The negation clamped into the range: the least signed value negates to the
    /// greatest.
    fn neg_saturate(self) -> (r: Self)
        ensures
            r.value() == saturated::<Self>(negated::<Self>(self.value())),
    ;
}

impl<T: NumericKind> NegSaturate for T {
    fn neg_saturate(self) -> (r: T) {
        if T::min_wide() < 0 {
            clamp_wide::<T>(-self.to_wide())
        } else {
            proof {
                self.lemma_value();
            }
            self
        }
    }
}

/// Takes the absolute value; one that leaves the range is a programming error.
pub trait AbsPanic: NumericKind {
    /// The absolute value, as zero minus a negative value under the panic policy; there
    /// is none for the least value of a signed kind.
    fn abs_panic(self) -> (r: Self)
        requires
            fits::<Self>(absolute(self.value())),
        ensures
            r.value() == absolute(self.value()),
    ;
}

impl<T: NumericKind> AbsPanic for T {
    fn abs_panic(self) -> (r: T) {
        if self.to_wide() < 0 {
            zero::<T>().sub_panic(self)
        } else {
            self
        }
    }
}

/// Takes the absolute value, wrapping around on overflow.
pub trait AbsWrap: NumericKind {
    /// The absolute value, as zero minus a negative value under the wrapping policy:
    /// the least signed value gives itself.
    fn abs_wrap(self) -> (r: Self)
        ensures
            r.value() == wrapped::<Self>(absolute(self.value())),
    ;
}

impl<T: NumericKind> AbsWrap for T {
    fn abs_wrap(self) -> (r: T) {
        if self.to_wide() < 0 {
            zero::<T>().sub_wrap(self)
        } else {
            proof {
                T::lemma_kind();
                crate::model::lemma_wrap_range(self.value(), T::min_int(), T::max_int());
            }
            self
        }
    }
}

/// Takes the absolute value, clamping to the range on overflow.
pub trait AbsSaturate: NumericKind {
    /// The absolute value, as zero minus a negative value under the saturating policy:
    /// the least signed value gives the greatest.
    fn abs_saturate(self) -> (r: Self)
        ensures
            r.value() == saturated::<Self>(absolute(self.value())),
    ;
}

impl<T: NumericKind> AbsSaturate for T {
    fn abs_saturate(self) -> (r: T) {
        if self.to_wide() < 0 {
            zero::<T>().sub_saturate(self)
        } else {
            self
        }
    }
}

} // verus!
