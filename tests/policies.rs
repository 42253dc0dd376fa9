use overflower::{
    AbsPanic, AbsSaturate, AbsWrap, AddAssignPanic, AddAssignWrap, AddPanic, AddSaturate,
    AddWrap, DivAssignPanic, DivAssignWrap, DivPanic, DivSaturate, DivWrap, MulAssignPanic,
    MulAssignWrap, MulPanic, MulSaturate, MulWrap, NegPanic, NegSaturate, NegWrap,
    OverflowerProduct, OverflowerSum, RemAssignPanic, RemAssignWrap, RemPanic, RemSaturate,
    RemWrap, ShlAssignPanic, ShlAssignSaturate, ShlAssignWrap, ShlPanic, ShlSaturate, ShlWrap,
    ShrAssignPanic, ShrAssignWrap, ShrPanic, ShrSaturate, ShrWrap, SubAssignPanic,
    SubAssignWrap, SubPanic, SubSaturate, SubWrap,
};

#[test]
fn wrap_add_is_modular_arithmetic() {
    assert_eq!(200u8.add_wrap(100u8), 44);
    assert_eq!(i8::MAX.add_wrap(1i8), i8::MIN);
    assert_eq!(i8::MIN.add_wrap(-1i8), i8::MAX);
    assert_eq!(u64::MAX.add_wrap(u64::MAX), u64::MAX - 1);
    assert_eq!(i64::MIN.add_wrap(i64::MIN), 0);
    assert_eq!(usize::MAX.add_wrap(2usize), 1);
    assert_eq!(isize::MAX.add_wrap(isize::MAX), -2);
    assert_eq!(3u16.add_wrap(4u16), 7);
    for a in 0..=255u8 {
        for b in [0u8, 1, 17, 128, 255] {
            assert_eq!(a.add_wrap(b), a.wrapping_add(b));
        }
    }
}

#[test]
fn saturate_add_clamps_to_the_range() {
    assert_eq!(250u8.add_saturate(10u8), u8::MAX);
    assert_eq!(100i8.add_saturate(100i8), i8::MAX);
    assert_eq!((-100i8).add_saturate(-100i8), i8::MIN);
    assert_eq!(20i16.add_saturate(-30i16), -10);
    assert_eq!(u32::MAX.add_saturate(0u32), u32::MAX);
    assert_eq!(i64::MIN.add_saturate(-1i64), i64::MIN);
    assert_eq!(u64::MAX.add_saturate(1u64), u64::MAX);
}

#[test]
fn panic_agrees_with_saturate_where_no_overflow() {
    for a in -128..=127i8 {
        for b in [-128i8, -1, 0, 1, 5, 127] {
            let s = a.add_saturate(b);
            if (a as i16 + b as i16) == s as i16 {
                assert_eq!(a.add_panic(b), s);
                assert_eq!(a.add_wrap(b), s);
            }
            let d = a.sub_saturate(b);
            if (a as i16 - b as i16) == d as i16 {
                assert_eq!(a.sub_panic(b), d);
            }
            let p = a.mul_saturate(b);
            if (a as i16 * b as i16) == p as i16 {
                assert_eq!(a.mul_panic(b), p);
                assert_eq!(a.mul_wrap(b), p);
            }
        }
    }
}

#[test]
fn scenario_values() {
    assert_eq!(1u8.sub_wrap(2u8), 255u8);
    assert_eq!(16u8.mul_saturate(16u8), 255u8);
    assert_eq!(1i32.add_panic(2i32), 3i32);
}

#[test]
fn multiplication_edges() {
    assert_eq!(u64::MAX.mul_wrap(u64::MAX), 1);
    assert_eq!(u64::MAX.mul_saturate(2u64), u64::MAX);
    assert_eq!(i64::MIN.mul_wrap(-1i64), i64::MIN);
    assert_eq!(i64::MIN.mul_saturate(-1i64), i64::MAX);
    assert_eq!(i64::MIN.mul_saturate(2i64), i64::MIN);
    assert_eq!((-3i8).mul_wrap(100i8), (-300i16) as i8);
    assert_eq!(200u8.mul_wrap(3u8), 88);
    assert_eq!(7u32.mul_panic(6u32), 42);
    assert_eq!((-7i16).mul_panic(6i16), -42);
}

#[test]
fn divide_by_zero_saturates() {
    assert_eq!(5i32.div_saturate(0), i32::MAX);
    assert_eq!((-5i32).div_saturate(0), i32::MIN);
    assert_eq!(0i32.div_saturate(0), 0);
    assert_eq!(5i32.rem_saturate(0), i32::MAX);
    assert_eq!(0i32.rem_saturate(0), 0);
    assert_eq!(9u8.div_saturate(0u8), u8::MAX);
    assert_eq!(9u8.rem_saturate(0u8), u8::MAX);
}

#[test]
fn division_rounds_toward_zero() {
    assert_eq!((-7i8).div_wrap(2i8), -3);
    assert_eq!((-7i8).rem_wrap(2i8), -1);
    assert_eq!(7i8.div_panic(-2i8), -3);
    assert_eq!(7i8.rem_panic(-2i8), 1);
    assert_eq!((-7i32).div_saturate(-2i32), 3);
    assert_eq!((-7i32).rem_saturate(-2i32), -1);
    assert_eq!(17u16.div_panic(5u16), 3);
    assert_eq!(17u16.rem_panic(5u16), 2);
}

#[test]
fn least_value_divided_by_minus_one() {
    assert_eq!(i8::MIN.div_wrap(-1i8), i8::MIN);
    assert_eq!(i8::MIN.div_saturate(-1i8), i8::MAX);
    assert_eq!(i8::MIN.rem_wrap(-1i8), 0);
    assert_eq!(i8::MIN.rem_saturate(-1i8), 0);
    assert_eq!(i64::MIN.div_wrap(-1i64), i64::MIN);
    assert_eq!(isize::MIN.div_saturate(-1isize), isize::MAX);
}

#[test]
fn shift_out_of_range_saturates() {
    assert_eq!(1u8.shl_saturate(10), u8::MAX);
    assert_eq!(0u8.shl_saturate(10), 0);
    assert_eq!(200u8.shr_saturate(10), 0);
    assert_eq!(3u8.shl_saturate(7u32), u8::MAX);
    assert_eq!((-3i8).shl_saturate(6u8), i8::MIN);
    assert_eq!(3i8.shl_saturate(5i64), 96);
    assert_eq!(3i8.shl_saturate(6i64), i8::MAX);
    assert_eq!((-1i8).shl_saturate(7usize), i8::MIN);
    assert_eq!(5i16.shl_saturate(-1i32), i16::MAX);
    assert_eq!(3u8.shl_saturate(6u32), 192);
}

#[test]
fn shift_left_wrap_takes_the_count_modulo_the_width() {
    assert_eq!(1u8.shl_wrap(9u32), 2);
    assert_eq!(3u8.shl_wrap(7u32), 128);
    assert_eq!(1i8.shl_wrap(7u32), i8::MIN);
    assert_eq!(1u8.shl_wrap(-1i32), 128);
    assert_eq!(1u64.shl_wrap(63u32), 1u64 << 63);
    assert_eq!(u64::MAX.shl_wrap(1u32), u64::MAX - 1);
    assert_eq!(i64::MIN.shl_wrap(1u8), 0);
}

#[test]
fn shift_left_panic_values() {
    assert_eq!(3u8.shl_panic(2u32), 12);
    assert_eq!((-1i8).shl_panic(7u32), i8::MIN);
    assert_eq!(0u8.shl_panic(100u32), 0);
    assert_eq!(1u64.shl_panic(63u32), 1u64 << 63);
    assert_eq!((-5i32).shl_panic(3usize), -40);
}

#[test]
fn shift_right_values() {
    assert_eq!(200u8.shr_wrap(3u32), 25);
    assert_eq!(200u8.shr_wrap(8u32), 0);
    assert_eq!(200u8.shr_wrap(-1i32), 0);
    assert_eq!((-7i8).shr_panic(1u32), -4);
    assert_eq!((-1i64).shr_saturate(63u32), -1);
    assert_eq!((-1i64).shr_saturate(64u32), 0);
    assert_eq!(u64::MAX.shr_panic(63u8), 1);
}

#[test]
fn negate_least_value() {
    assert_eq!(i8::MIN.neg_wrap(), i8::MIN);
    assert_eq!(i8::MIN.neg_saturate(), i8::MAX);
    assert_eq!(5i8.neg_panic(), -5);
    assert_eq!((-5i64).neg_wrap(), 5);
    assert_eq!(7u8.neg_wrap(), 7);
    assert_eq!(7u32.neg_saturate(), 7);
    assert_eq!(7u16.neg_panic(), 7);
}

#[test]
fn absolute_value() {
    assert_eq!((-5i8).abs_panic(), 5);
    assert_eq!(i8::MIN.abs_wrap(), i8::MIN);
    assert_eq!(i8::MIN.abs_saturate(), i8::MAX);
    assert_eq!(9i32.abs_wrap(), 9);
    assert_eq!(200u8.abs_saturate(), 200);
    assert_eq!(200u8.abs_panic(), 200);
}

#[test]
fn in_place_operations() {
    let mut x = 250u8;
    x.add_assign_wrap(10u8);
    assert_eq!(x, 4);
    x.sub_assign_wrap(5u8);
    assert_eq!(x, 255);
    x.mul_assign_wrap(2u8);
    assert_eq!(x, 254);
    x.div_assign_wrap(3u8);
    assert_eq!(x, 84);
    x.rem_assign_wrap(10u8);
    assert_eq!(x, 4);
    let mut y = 10i16;
    y.add_assign_panic(5i16);
    y.sub_assign_panic(20i16);
    y.mul_assign_panic(3i16);
    assert_eq!(y, -15);
    y.div_assign_panic(4i16);
    assert_eq!(y, -3);
    y.rem_assign_panic(2i16);
    assert_eq!(y, -1);
    let mut z = 3u8;
    z.shl_assign_wrap(9u32);
    assert_eq!(z, 6);
    z.shl_assign_saturate(7u32);
    assert_eq!(z, u8::MAX);
    z.shr_assign_wrap(4u32);
    assert_eq!(z, 15);
    z.shl_assign_panic(2u32);
    assert_eq!(z, 60);
    z.shr_assign_panic(3u32);
    assert_eq!(z, 7);
}

#[test]
fn sums_of_slices() {
    assert_eq!(u8::sum_wrap(&[200, 100, 10]), 54);
    assert_eq!(u8::sum_saturate(&[200, 100, 10]), 255);
    assert_eq!(u8::sum_panic(&[100, 100, 55]), 255);
    assert_eq!(i8::sum_saturate(&[100, 100, -100]), 27);
    assert_eq!(i8::sum_wrap(&[100, 100, -100]), 100);
    assert_eq!(i32::sum_panic(&[]), 0);
    assert_eq!(u16::sum_wrap(&[]), 0);
    assert_eq!(i64::sum_panic(&[i64::MAX, -1, 1]), i64::MAX);
}

#[test]
fn products_of_slices() {
    assert_eq!(u8::product_wrap(&[16, 16, 3]), 0);
    assert_eq!(u8::product_saturate(&[16, 16, 0]), 0);
    assert_eq!(u8::product_panic(&[5, 5, 10]), 250);
    assert_eq!(i8::product_saturate(&[-16, 16, -1]), 127);
    assert_eq!(i32::product_panic(&[]), 1);
    assert_eq!(i8::product_wrap(&[-1, 2, 3]), -6);
}
