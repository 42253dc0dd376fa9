//! Integer arithmetic under an explicit overflow policy: wrap, panic or saturate.
//!
//! Each operation (add, subtract, multiply, divide, remainder, shifts, negation,
//! absolute value, and the sum and product of a slice) comes as one trait per policy,
//! implemented once for every fixed-width integer kind through [`NumericKind`].
//! The contracts state each result over mathematical integers. An operation under the
//! panic policy requires that no overflow occurs; a caller outside verification that
//! breaks the requirement gets a panic.
pub mod model;
pub mod kind;
pub mod arith;
pub mod shift;
pub mod unary;
pub mod reduce;
pub mod laws;

pub use kind::NumericKind;
pub use arith::{
    AddAssignPanic,
    AddAssignWrap,
    AddPanic,
    AddSaturate,
    AddWrap,
    DivAssignPanic,
    DivAssignWrap,
    DivPanic,
    DivSaturate,
    DivWrap,
    MulAssignPanic,
    MulAssignWrap,
    MulPanic,
    MulSaturate,
    MulWrap,
    RemAssignPanic,
    RemAssignWrap,
    RemPanic,
    RemSaturate,
    RemWrap,
    SubAssignPanic,
    SubAssignWrap,
    SubPanic,
    SubSaturate,
    SubWrap,
};
pub use shift::{
    ShlAssignPanic,
    ShlAssignSaturate,
    ShlAssignWrap,
    ShlPanic,
    ShlSaturate,
    ShlWrap,
    ShrAssignPanic,
    ShrAssignSaturate,
    ShrAssignWrap,
    ShrPanic,
    ShrSaturate,
    ShrSaturateAssign,
    ShrWrap,
};
pub use unary::{AbsPanic, AbsSaturate, AbsWrap, NegPanic, NegSaturate, NegWrap};
pub use reduce::{OverflowerProduct, OverflowerSum};
