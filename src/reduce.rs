//! The sum and the product of a slice under each policy.
use vstd::prelude::*;
use crate::arith::{AddPanic, AddSaturate, AddWrap, MulPanic, MulSaturate, MulWrap};
use crate::kind::{NumericKind, fits, one, saturated, wrapped, zero};
use crate::model::{lemma_wrap_add, lemma_wrap_mul, lemma_wrap_range};

verus! {

/// The exact sum of the values of `s`.
pub open spec fn sum_of<T: NumericKind>(s: Seq<T>) -> int
    decreases s.len(),
{
    if s.len() == 0 {
        0
    } else {
        sum_of(s.drop_last()) + s.last().value()
    }
}

/// The exact product of the values of `s`.
pub open spec fn product_of<T: NumericKind>(s: Seq<T>) -> int
    decreases s.len(),
{
    if s.len() == 0 {
        1
    } else {
        product_of(s.drop_last()) * s.last().value()
    }
}

/// Every running total of `s`, from the first item on, lies in the range of `T`.
pub open spec fn running_sums_fit<T: NumericKind>(s: Seq<T>) -> bool {
    forall|i: int| 0 <= i <= s.len() ==> fits::<T>(#[trigger] sum_of(s.take(i)))
}

/// Every running product of `s`, from the first item on, lies in the range of `T`.
pub open spec fn running_products_fit<T: NumericKind>(s: Seq<T>) -> bool {
    forall|i: int| 0 <= i <= s.len() ==> fits::<T>(#[trigger] product_of(s.take(i)))
}

/// The sum of `s` by saturating additions from zero, in order.
pub open spec fn saturating_sum<T: NumericKind>(s: Seq<T>) -> int
    decreases s.len(),
{
    if s.len() == 0 {
        0
    } else {
        saturated::<T>(saturating_sum(s.drop_last()) + s.last().value())
    }
}

/// The product of `s` by saturating multiplications from one, in order.
pub open spec fn saturating_product<T: NumericKind>(s: Seq<T>) -> int
    decreases s.len(),
{
    if s.len() == 0 {
        1
    } else {
        saturated::<T>(saturating_product(s.drop_last()) * s.last().value())
    }
}

/// Sums a slice under each policy, reading its items once and in order.
pub trait OverflowerSum: NumericKind {
    /// The sum, wrapped into the range.
    fn sum_wrap(items: &[Self]) -> (r: Self)
        ensures
            r.value() == wrapped::<Self>(sum_of(items@)),
    ;

    /// The exact sum; a running total that leaves the range is a programming error,
    /// and the items after it are never read.
    fn sum_panic(items: &[Self]) -> (r: Self)
        requires
            running_sums_fit(items@),
        ensures
            r.value() == sum_of(items@),
    ;

    /// The sum by saturating additions, in order.
    fn sum_saturate(items: &[Self]) -> (r: Self)
        ensures
            r.value() == saturating_sum(items@),
    ;
}

impl<T: NumericKind> OverflowerSum for T {
    fn sum_wrap(items: &[T]) -> (r: T) {
        proof {
            T::lemma_kind();
            lemma_wrap_range(0, T::min_int(), T::max_int());
        }
        let mut acc: T = zero::<T>();
        let mut i: usize = 0;
        while i < items.len()
            invariant
                0 <= i <= items@.len(),
                acc.value() == wrapped::<T>(sum_of(items@.take(i as int))),
            decreases items@.len() - i,
        {
            proof {
                assert(items@.take(i + 1).drop_last() =~= items@.take(i as int));
                T::lemma_kind();
                lemma_wrap_add(sum_of(items@.take(i as int)), items@[i as int].value(), T::min_int(), T::max_int());
            }
            acc = acc.add_wrap(items[i]);
            i = i + 1;
        }
        proof {
            assert(items@.take(i as int) =~= items@);
        }
        acc
    }

    fn sum_panic(items: &[T]) -> (r: T) {
        let mut acc: T = zero::<T>();
        let mut i: usize = 0;
        proof {
            assert(sum_of(items@.take(0)) == 0);
        }
        while i < items.len()
            invariant
                0 <= i <= items@.len(),
                running_sums_fit(items@),
                acc.value() == sum_of(items@.take(i as int)),
            decreases items@.len() - i,
        {
            proof {
                assert(items@.take(i + 1).drop_last() =~= items@.take(i as int));
                assert(fits::<T>(sum_of(items@.take(i + 1))));
            }
            acc = acc.add_panic(items[i]);
            i = i + 1;
        }
        proof {
            assert(items@.take(i as int) =~= items@);
        }
        acc
    }

    fn sum_saturate(items: &[T]) -> (r: T) {
        let mut acc: T = zero::<T>();
        let mut i: usize = 0;
        proof {
            assert(saturating_sum(items@.take(0)) == 0);
        }
        while i < items.len()
            invariant
                0 <= i <= items@.len(),
                acc.value() == saturating_sum(items@.take(i as int)),
            decreases items@.len() - i,
        {
            proof {
                assert(items@.take(i + 1).drop_last() =~= items@.take(i as int));
            }
            acc = acc.add_saturate(items[i]);
            i = i + 1;
        }
        proof {
            assert(items@.take(i as int) =~= items@);
        }
        acc
    }
}

/// Multiplies the items of a slice under each policy, reading them once and in order.
pub trait OverflowerProduct: NumericKind {
    /// The product, wrapped into the range.
    fn product_wrap(items: &[Self]) -> (r: Self)
        ensures
            r.value() == wrapped::<Self>(product_of(items@)),
    ;

    /// The exact product; a running product that leaves the range is a programming
    /// error, and the items after it are never read.
    fn product_panic(items: &[Self]) -> (r: Self)
        requires
            running_products_fit(items@),
        ensures
            r.value() == product_of(items@),
    ;

    /// The product by saturating multiplications from one, in order.
    fn product_saturate(items: &[Self]) -> (r: Self)
        ensures
            r.value() == saturating_product(items@),
    ;
}

impl<T: NumericKind> OverflowerProduct for T {
    fn product_wrap(items: &[T]) -> (r: T) {
        proof {
            T::lemma_kind();
            lemma_wrap_range(1, T::min_int(), T::max_int());
        }
        let mut acc: T = one::<T>();
        let mut i: usize = 0;
        while i < items.len()
            invariant
                0 <= i <= items@.len(),
                acc.value() == wrapped::<T>(product_of(items@.take(i as int))),
            decreases items@.len() - i,
        {
            proof {
                assert(items@.take(i + 1).drop_last() =~= items@.take(i as int));
                T::lemma_kind();
                lemma_wrap_mul(product_of(items@.take(i as int)), items@[i as int].value(), T::min_int(), T::max_int());
            }
            acc = acc.mul_wrap(items[i]);
            i = i + 1;
        }
        proof {
            assert(items@.take(i as int) =~= items@);
        }
        acc
    }

    fn product_panic(items: &[T]) -> (r: T) {
        let mut acc: T = one::<T>();
        let mut i: usize = 0;
        proof {
            assert(product_of(items@.take(0)) == 1);
        }
        while i < items.len()
            invariant
                0 <= i <= items@.len(),
                running_products_fit(items@),
                acc.value() == product_of(items@.take(i as int)),
            decreases items@.len() - i,
        {
            proof {
                assert(items@.take(i + 1).drop_last() =~= items@.take(i as int));
                assert(fits::<T>(product_of(items@.take(i + 1))));
            }
            acc = acc.mul_panic(items[i]);
            i = i + 1;
        }
        proof {
            assert(items@.take(i as int) =~= items@);
        }
        acc
    }

    fn product_saturate(items: &[T]) -> (r: T) {
        let mut acc: T = one::<T>();
        let mut i: usize = 0;
        proof {
            assert(saturating_product(items@.take(0)) == 1);
        }
        while i < items.len()
            invariant
                0 <= i <= items@.len(),
                acc.value() == saturating_product(items@.take(i as int)),
            decreases items@.len() - i,
        {
            proof {
                assert(items@.take(i + 1).drop_last() =~= items@.take(i as int));
            }
            acc = acc.mul_saturate(items[i]);
            i = i + 1;
        }
        proof {
            assert(items@.take(i as int) =~= items@);
        }
        acc
    }
}

} // verus!
