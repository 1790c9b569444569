//! Element-wise products and dot products of number slices.
//!
//! Both operations work on the prefix that their two arguments share: where
//! one slice is longer than the other, its surplus elements are ignored.
//! Neither operation detects overflow; their preconditions say which
//! results the element type has to be able to hold.
use core::ops::Mul;
use vstd::prelude::*;
use vstd::std_specs::ops::MulSpec;

pub mod model;
pub mod scalar;

pub use crate::scalar::Scalar;

use crate::model::{
    as_ints, can_multiply, common_len, dot, elementwise, entries_fit, lemma_elementwise_products,
    products, running_sum, running_sums_fit, total,
};

verus! {

/// Multiplies `a` and `b` element by element.
///
/// The result has one element for every position that both slices have,
/// and that element is `a[i] * b[i]`. The caller sees to it that each of
/// these products may be computed; for a [`Scalar`], such as a primitive
/// integer, that is when the type can hold each of them
/// (see [`lemma_elementwise_products`]).
pub fn mul_slice<T: Mul<Output = T> + Copy>(a: &[T], b: &[T]) -> (v: Vec<T>)
    requires
        can_multiply(a@, b@),
    ensures
        v@.len() == common_len(a@, b@),
        T::obeys_mul_spec() ==> forall|i: int|
            0 <= i < v@.len() ==> #[trigger] v@[i] == a@[i].mul_spec(b@[i]),
        T::obeys_mul_spec() ==> v@ == elementwise(a@, b@),
        a@.len() == 0 || b@.len() == 0 ==> v@ == Seq::<T>::empty(),
{
    let len: usize = if a.len() <= b.len() {
        a.len()
    } else {
        b.len()
    };
    let mut v: Vec<T> = Vec::new();
    for i in 0..len
        invariant
            len == common_len(a@, b@),
            can_multiply(a@, b@),
            v@.len() == i,
            T::obeys_mul_spec() ==> forall|j: int|
                0 <= j < i ==> #[trigger] v@[j] == a@[j].mul_spec(b@[j]),
    {
        v.push(a[i] * b[i]);
    }
    v
}

/// Adds up the elements of `s` from the left, starting from zero.
fn sum_slice<T: Scalar>(s: &[T]) -> (t: T)
    requires
        running_sums_fit::<T>(as_ints(s@)),
    ensures
        t.as_int() == total(as_ints(s@)),
{
    let mut acc: T = T::zero();
    for i in 0..s.len()
        invariant
            running_sums_fit::<T>(as_ints(s@)),
            acc.as_int() == running_sum(as_ints(s@), i as nat),
    {
        proof {
            T::lemma_operators();
            T::lemma_sum(acc, s@[i as int]);
            assert(T::fits(running_sum(as_ints(s@), (i + 1) as nat)));
        }
        acc = acc + s[i];
    }
    acc
}

/// The dot product of `a` and `b`: the sum of `a[i] * b[i]` over every
/// position that both slices have, and zero where they share none.
///
/// The products are added up from the left. The caller sees to it that the
/// element type can hold each product and each sum on the way.
pub fn dot_slice<T: Scalar>(a: &[T], b: &[T]) -> (d: T)
    requires
        entries_fit::<T>(products(as_ints(a@), as_ints(b@))),
        running_sums_fit::<T>(products(as_ints(a@), as_ints(b@))),
    ensures
        d.as_int() == dot(as_ints(a@), as_ints(b@)),
        d.as_int() == total(as_ints(elementwise(a@, b@))),
        a@.len() == 0 || b@.len() == 0 ==> d.as_int() == 0,
{
    proof {
        lemma_elementwise_products(a@, b@);
    }
    let v: Vec<T> = mul_slice(a, b);
    sum_slice(v.as_slice())
}

} // verus!
