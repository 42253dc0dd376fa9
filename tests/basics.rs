use overflower::{AddPanic, MulSaturate, SubWrap};

#[test]
fn test_add_panic_normal() {
    assert_eq!(1 + 2, 1.add_panic(2));
}

#[test]
#[should_panic]
fn test_add_panic_panics() {
    255u8.add_panic(2u8);
}

#[test]
fn test_sub_wrap() {
    assert_eq!(255, 1u8.sub_wrap(2));
}

#[test]
fn test_saturating_mul() {
    assert_eq!(255, 16u8.mul_saturate(16u8));
}
