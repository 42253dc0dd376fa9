//! The ten fixed-width integer kinds and the facts the policies rest on.
use vstd::prelude::*;
use crate::model::{clamp_int, wrap_int};

verus! {

use vstd::arithmetic::power2::{pow2, lemma2_to64, lemma2_to64_rest};

/// A fixed-width two's-complement integer kind.
///
/// Every policy-aware operation of this library is implemented once, for any type of
/// this kind: the kind tells its range and its width, and moves its values to and from
/// `i128`, which holds every value of every kind and every intermediate result.
pub trait NumericKind: Copy + Sized {
    /// The mathematical value.
    spec fn value(self) -> int;

    /// The least value of the kind.
    spec fn min_int() -> int;

    /// The greatest value of the kind.
    spec fn max_int() -> int;

    /// The number of bits of the kind.
    spec fn width() -> nat;

    /// The shape of the range: `2^width` values, starting at zero (unsigned)
    /// or centred on zero (signed), for a width of at most 64 bits.
    proof fn lemma_kind()
        ensures
            8 <= Self::width() <= 64,
            Self::max_int() - Self::min_int() + 1 == pow2(Self::width()),
            Self::min_int() == 0 || Self::min_int() == -(Self::max_int() + 1),
            -0x8000_0000_0000_0000 <= Self::min_int() <= 0,
            0 < Self::max_int() < 0x1_0000_0000_0000_0000,
    ;

    /// Every value lies in the range of its kind.
    proof fn lemma_value(self)
        ensures
            Self::min_int() <= self.value() <= Self::max_int(),
    ;

    /// The value, widened.
    fn to_wide(self) -> (r: i128)
        ensures
            r == self.value(),
            Self::min_int() <= r <= Self::max_int(),
            -0x8000_0000_0000_0000 <= r < 0x1_0000_0000_0000_0000,
    ;

    /// The value of the kind equal to `x`.
    fn from_wide(x: i128) -> (r: Self)
        requires
            Self::min_int() <= x <= Self::max_int(),
        ensures
            r.value() == x,
    ;

    /// The least value, widened.
    fn min_wide() -> (r: i128)
        ensures
            r == Self::min_int(),
    ;

    /// The greatest value, widened.
    fn max_wide() -> (r: i128)
        ensures
            r == Self::max_int(),
    ;

    /// The width, widened.
    fn width_wide() -> (r: i128)
        ensures
            r == Self::width(),
    ;
}

/// `x` lies in the range of the kind `T`.
pub open spec fn fits<T: NumericKind>(x: int) -> bool {
    T::min_int() <= x <= T::max_int()
}

/// `x` wrapped into the range of the kind `T`.
pub open spec fn wrapped<T: NumericKind>(x: int) -> int {
    wrap_int(x, T::min_int(), T::max_int())
}

/// `x` clamped into the range of the kind `T`.
pub open spec fn saturated<T: NumericKind>(x: int) -> int {
    clamp_int(x, T::min_int(), T::max_int())
}

/// The kind `T` holds negative values.
pub open spec fn is_signed<T: NumericKind>() -> bool {
    T::min_int() < 0
}

impl NumericKind for u8 {
    open spec fn value(self) -> int {
        self as int
    }

    open spec fn min_int() -> int {
        u8::MIN as int
    }

    open spec fn max_int() -> int {
        u8::MAX as int
    }

    open spec fn width() -> nat {
        8
    }

    proof fn lemma_kind() {
        lemma2_to64();
    }

    proof fn lemma_value(self) {
    }

    fn to_wide(self) -> (r: i128) {
        self as i128
    }

    fn from_wide(x: i128) -> (r: u8) {
        x as u8
    }

    fn min_wide() -> (r: i128) {
        u8::MIN as i128
    }

    fn max_wide() -> (r: i128) {
        u8::MAX as i128
    }

    fn width_wide() -> (r: i128) {
        8
    }
}

impl NumericKind for u16 {
    open spec fn value(self) -> int {
        self as int
    }

    open spec fn min_int() -> int {
        u16::MIN as int
    }

    open spec fn max_int() -> int {
        u16::MAX as int
    }

    open spec fn width() -> nat {
        16
    }

    proof fn lemma_kind() {
        lemma2_to64();
    }

    proof fn lemma_value(self) {
    }

    fn to_wide(self) -> (r: i128) {
        self as i128
    }

    fn from_wide(x: i128) -> (r: u16) {
        x as u16
    }

    fn min_wide() -> (r: i128) {
        u16::MIN as i128
    }

    fn max_wide() -> (r: i128) {
        u16::MAX as i128
    }

    fn width_wide() -> (r: i128) {
        16
    }
}

impl NumericKind for u32 {
    open spec fn value(self) -> int {
        self as int
    }

    open spec fn min_int() -> int {
        u32::MIN as int
    }

    open spec fn max_int() -> int {
        u32::MAX as int
    }

    open spec fn width() -> nat {
        32
    }

    proof fn lemma_kind() {
        lemma2_to64();
    }

    proof fn lemma_value(self) {
    }

    fn to_wide(self) -> (r: i128) {
        self as i128
    }

    fn from_wide(x: i128) -> (r: u32) {
        x as u32
    }

    fn min_wide() -> (r: i128) {
        u32::MIN as i128
    }

    fn max_wide() -> (r: i128) {
        u32::MAX as i128
    }

    fn width_wide() -> (r: i128) {
        32
    }
}

impl NumericKind for u64 {
    open spec fn value(self) -> int {
        self as int
    }

    open spec fn min_int() -> int {
        u64::MIN as int
    }

    open spec fn max_int() -> int {
        u64::MAX as int
    }

    open spec fn width() -> nat {
        64
    }

    proof fn lemma_kind() {
        lemma2_to64();
    }

    proof fn lemma_value(self) {
    }

    fn to_wide(self) -> (r: i128) {
        self as i128
    }

    fn from_wide(x: i128) -> (r: u64) {
        x as u64
    }

    fn min_wide() -> (r: i128) {
        u64::MIN as i128
    }

    fn max_wide() -> (r: i128) {
        u64::MAX as i128
    }

    fn width_wide() -> (r: i128) {
        64
    }
}

impl NumericKind for usize {
    open spec fn value(self) -> int {
        self as int
    }

    open spec fn min_int() -> int {
        usize::MIN as int
    }

    open spec fn max_int() -> int {
        usize::MAX as int
    }

    open spec fn width() -> nat {
        usize::BITS as nat
    }

    proof fn lemma_kind() {
        lemma2_to64();
        vstd::layout::unsigned_int_max_values();
    }

    proof fn lemma_value(self) {
    }

    fn to_wide(self) -> (r: i128) {
        self as i128
    }

    fn from_wide(x: i128) -> (r: usize) {
        x as usize
    }

    fn min_wide() -> (r: i128) {
        usize::MIN as i128
    }

    fn max_wide() -> (r: i128) {
        usize::MAX as i128
    }

    fn width_wide() -> (r: i128) {
        usize::BITS as i128
    }
}

impl NumericKind for i8 {
    open spec fn value(self) -> int {
        self as int
    }

    open spec fn min_int() -> int {
        i8::MIN as int
    }

    open spec fn max_int() -> int {
        i8::MAX as int
    }

    open spec fn width() -> nat {
        8
    }

    proof fn lemma_kind() {
        lemma2_to64();
    }

    proof fn lemma_value(self) {
    }

    fn to_wide(self) -> (r: i128) {
        self as i128
    }

    fn from_wide(x: i128) -> (r: i8) {
        x as i8
    }

    fn min_wide() -> (r: i128) {
        i8::MIN as i128
    }

    fn max_wide() -> (r: i128) {
        i8::MAX as i128
    }

    fn width_wide() -> (r: i128) {
        8
    }
}

impl NumericKind for i16 {
    open spec fn value(self) -> int {
        self as int
    }

    open spec fn min_int() -> int {
        i16::MIN as int
    }

    open spec fn max_int() -> int {
        i16::MAX as int
    }

    open spec fn width() -> nat {
        16
    }

    proof fn lemma_kind() {
        lemma2_to64();
    }

    proof fn lemma_value(self) {
    }

    fn to_wide(self) -> (r: i128) {
        self as i128
    }

    fn from_wide(x: i128) -> (r: i16) {
        x as i16
    }

    fn min_wide() -> (r: i128) {
        i16::MIN as i128
    }

    fn max_wide() -> (r: i128) {
        i16::MAX as i128
    }

    fn width_wide() -> (r: i128) {
        16
    }
}

impl NumericKind for i32 {
    open spec fn value(self) -> int {
        self as int
    }

    open spec fn min_int() -> int {
        i32::MIN as int
    }

    open spec fn max_int() -> int {
        i32::MAX as int
    }

    open spec fn width() -> nat {
        32
    }

    proof fn lemma_kind() {
        lemma2_to64();
    }

    proof fn lemma_value(self) {
    }

    fn to_wide(self) -> (r: i128) {
        self as i128
    }

    fn from_wide(x: i128) -> (r: i32) {
        x as i32
    }

    fn min_wide() -> (r: i128) {
        i32::MIN as i128
    }

    fn max_wide() -> (r: i128) {
        i32::MAX as i128
    }

    fn width_wide() -> (r: i128) {
        32
    }
}

impl NumericKind for i64 {
    open spec fn value(self) -> int {
        self as int
    }

    open spec fn min_int() -> int {
        i64::MIN as int
    }

    open spec fn max_int() -> int {
        i64::MAX as int
    }

    open spec fn width() -> nat {
        64
    }

    proof fn lemma_kind() {
        lemma2_to64();
        lemma2_to64_rest();
    }

    proof fn lemma_value(self) {
    }

    fn to_wide(self) -> (r: i128) {
        self as i128
    }

    fn from_wide(x: i128) -> (r: i64) {
        x as i64
    }

    fn min_wide() -> (r: i128) {
        i64::MIN as i128
    }

    fn max_wide() -> (r: i128) {
        i64::MAX as i128
    }

    fn width_wide() -> (r: i128) {
        64
    }
}

impl NumericKind for isize {
    open spec fn value(self) -> int {
        self as int
    }

    open spec fn min_int() -> int {
        isize::MIN as int
    }

    open spec fn max_int() -> int {
        isize::MAX as int
    }

    open spec fn width() -> nat {
        usize::BITS as nat
    }

    proof fn lemma_kind() {
        lemma2_to64();
        lemma2_to64_rest();
        vstd::layout::unsigned_int_max_values();
    }

    proof fn lemma_value(self) {
    }

    fn to_wide(self) -> (r: i128) {
        self as i128
    }

    fn from_wide(x: i128) -> (r: isize) {
        x as isize
    }

    fn min_wide() -> (r: i128) {
        isize::MIN as i128
    }

    fn max_wide() -> (r: i128) {
        isize::MAX as i128
    }

    fn width_wide() -> (r: i128) {
        usize::BITS as i128
    }
}

/// `x` wrapped into the range of `T`.
pub(crate) fn wrap_wide<T: NumericKind>(x: i128) -> (r: T)
    requires
        i128::MIN <= x - T::min_int() <= i128::MAX,
    ensures
        r.value() == wrapped::<T>(x as int),
{
    proof {
        T::lemma_kind();
        vstd::arithmetic::power2::lemma_pow2_pos(T::width());
    }
    let lo = T::min_wide();
    let m: i128 = T::max_wide() - lo + 1;
    let k: i128 = (x - lo).checked_rem_euclid(m).unwrap();
    T::from_wide(lo + k)
}

/// `x` clamped into the range of `T`.
pub(crate) fn clamp_wide<T: NumericKind>(x: i128) -> (r: T)
    ensures
        r.value() == saturated::<T>(x as int),
{
    proof {
        T::lemma_kind();
    }
    let lo = T::min_wide();
    let hi = T::max_wide();
    if x < lo {
        T::from_wide(lo)
    } else if x > hi {
        T::from_wide(hi)
    } else {
        T::from_wide(x)
    }
}

/// Zero, as a value of `T`.
pub(crate) fn zero<T: NumericKind>() -> (r: T)
    ensures
        r.value() == 0,
{
    proof {
        T::lemma_kind();
    }
    T::from_wide(0)
}

/// One, as a value of `T`.
pub(crate) fn one<T: NumericKind>() -> (r: T)
    ensures
        r.value() == 1,
{
    proof {
        T::lemma_kind();
    }
    T::from_wide(1)
}

/// `x` as a value of `T`, where it is one.
pub(crate) fn checked_wide<T: NumericKind>(x: i128) -> (r: Option<T>)
    ensures
        r is Some <==> fits::<T>(x as int),
        r is Some ==> r->0.value() == x,
{
    if T::min_wide() <= x && x <= T::max_wide() {
        Some(T::from_wide(x))
    } else {
        None
    }
}

/// Two to the power `k`.
pub(crate) fn pow2_wide(k: i128) -> (r: i128)
    requires
        0 <= k < 64,
    ensures
        r == pow2(k as nat),
        0 < r <= 0x8000_0000_0000_0000,
{
    let s: u64 = k as u64;
    proof {
        vstd::bits::lemma_u64_pow2_no_overflow(s as nat);
        vstd::bits::lemma_u64_shl_is_mul(1u64, s);
        lemma2_to64_rest();
        if s < 63 {
            vstd::arithmetic::power2::lemma_pow2_strictly_increases(s as nat, 63);
        }
    }
    let p: u64 = 1u64 << s;
    p as i128
}

} // verus!
