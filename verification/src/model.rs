//! The mathematical meaning of the slice operations.
use crate::scalar::Scalar;
use core::ops::Mul;
use vstd::prelude::*;
use vstd::std_specs::ops::MulSpec;

verus! {

/// The length of the prefix that two sequences have in common: the length
/// of the shorter one.
pub open spec fn common_len<A, B>(a: Seq<A>, b: Seq<B>) -> nat {
    if a.len() <= b.len() {
        a.len()
    } else {
        b.len()
    }
}

/// Whether the element type lets `a[i] * b[i]` be computed at every shared
/// position.
pub open spec fn can_multiply<T: Mul<Output = T>>(a: Seq<T>, b: Seq<T>) -> bool {
    forall|i: int| 0 <= i < common_len(a, b) ==> #[trigger] a[i].mul_req(b[i])
}

/// What `*` gives at every shared position, where the element type says
/// what its `*` computes.
pub open spec fn elementwise<T: Mul<Output = T>>(a: Seq<T>, b: Seq<T>) -> Seq<T> {
    Seq::new(common_len(a, b), |i: int| a[i].mul_spec(b[i]))
}

/// The integers that the elements of `s` stand for, in order.
pub open spec fn as_ints<T: Scalar>(s: Seq<T>) -> Seq<int> {
    Seq::new(s.len(), |i: int| s[i].as_int())
}

/// The products of the entries that `a` and `b` share a position for.
pub open spec fn products(a: Seq<int>, b: Seq<int>) -> Seq<int> {
    Seq::new(common_len(a, b), |i: int| a[i] * b[i])
}

/// The sum of the first `n` entries of `s`, taken from the left.
pub open spec fn running_sum(s: Seq<int>, n: nat) -> int
    decreases n,
{
    if n == 0 {
        0
    } else {
        running_sum(s, (n - 1) as nat) + s[n - 1]
    }
}

/// The sum of all entries of `s`.
pub open spec fn total(s: Seq<int>) -> int {
    running_sum(s, s.len())
}

/// The dot product of `a` and `b` over the prefix they share.
pub open spec fn dot(a: Seq<int>, b: Seq<int>) -> int {
    total(products(a, b))
}

/// Whether `T` can hold every entry of `s`.
pub open spec fn entries_fit<T: Scalar>(s: Seq<int>) -> bool {
    forall|i: int| 0 <= i < s.len() ==> T::fits(#[trigger] s[i])
}

/// Whether `T` can hold the sum of every prefix of `s` but the empty one,
/// so that adding the entries up from the left never leaves the type.
pub open spec fn running_sums_fit<T: Scalar>(s: Seq<int>) -> bool {
    forall|n: nat| 0 < n <= s.len() ==> T::fits(#[trigger] running_sum(s, n))
}

/// For integer-like elements, multiplying element by element is allowed
/// exactly when the type can hold every true product, and then yields the
/// true products.
pub proof fn lemma_elementwise_products<T: Scalar>(a: Seq<T>, b: Seq<T>)
    ensures
        T::obeys_mul_spec(),
        can_multiply(a, b) <==> entries_fit::<T>(products(as_ints(a), as_ints(b))),
        can_multiply(a, b) ==> as_ints(elementwise(a, b)) == products(as_ints(a), as_ints(b)),
{
    let p = products(as_ints(a), as_ints(b));
    T::lemma_operators();
    if can_multiply(a, b) {
        assert forall|i: int| 0 <= i < p.len() implies T::fits(#[trigger] p[i])
            && elementwise(a, b)[i].as_int() == p[i] by {
            T::lemma_product(a[i], b[i]);
        }
        assert(as_ints(elementwise(a, b)) =~= p);
    }
    if entries_fit::<T>(p) {
        assert forall|i: int| 0 <= i < common_len(a, b) implies #[trigger] a[i].mul_req(b[i]) by {
            T::lemma_product(a[i], b[i]);
            assert(T::fits(p[i]));
        }
    }
}

/// The dot product of two slices is the sum of their element-wise
/// products.
pub proof fn lemma_dot_is_total_of_products<T: Scalar>(a: Seq<T>, b: Seq<T>)
    requires
        can_multiply(a, b),
    ensures
        dot(as_ints(a), as_ints(b)) == total(as_ints(elementwise(a, b))),
{
    lemma_elementwise_products(a, b);
}

} // verus!
