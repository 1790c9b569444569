//! Machine integers seen as mathematical integers.
use core::ops::{Add, Mul};
use vstd::prelude::*;
use vstd::std_specs::ops::{AddSpec, MulSpec};

verus! {

/// A number type whose values stand for mathematical integers, and whose
/// `*` and `+` compute the true product and sum whenever the type can hold
/// them.
///
/// The primitive integer types are such types. The laws below are what the
/// slice operations rely on; an implementation has to prove them.
pub trait Scalar: Copy + Mul<Output = Self> + Add<Output = Self> {
    /// The integer that `self` stands for.
    spec fn as_int(self) -> int;

    /// Whether some value of the type stands for `n`.
    spec fn fits(n: int) -> bool;

    /// Every value stands for an integer that the type can hold, and no two
    /// values stand for the same one.
    proof fn lemma_faithful(x: Self, y: Self)
        ensures
            Self::fits(x.as_int()),
            x.as_int() == y.as_int() ==> x == y,
    ;

    /// `*` and `+` on the type compute what `mul_spec` and `add_spec` say.
    proof fn lemma_operators()
        ensures
            Self::obeys_mul_spec(),
            Self::obeys_add_spec(),
    ;

    /// `x * y` may be computed exactly when the type can hold the true
    /// product, and is then that product.
    proof fn lemma_product(x: Self, y: Self)
        ensures
            x.mul_req(y) <==> Self::fits(x.as_int() * y.as_int()),
            x.mul_req(y) ==> x.mul_spec(y).as_int() == x.as_int() * y.as_int(),
    ;

    /// `x + y` may be computed exactly when the type can hold the true sum,
    /// and is then that sum.
    proof fn lemma_sum(x: Self, y: Self)
        ensures
            x.add_req(y) <==> Self::fits(x.as_int() + y.as_int()),
            x.add_req(y) ==> x.add_spec(y).as_int() == x.as_int() + y.as_int(),
    ;

    /// The additive identity of the type.
    fn zero() -> (z: Self)
        ensures
            z.as_int() == 0,
    ;
}

impl Scalar for i8 {
    open spec fn as_int(self) -> int {
        self as int
    }

    open spec fn fits(n: int) -> bool {
        i8::MIN <= n <= i8::MAX
    }

    proof fn lemma_faithful(x: Self, y: Self) {
    }

    proof fn lemma_operators() {
    }

    proof fn lemma_product(x: Self, y: Self) {
    }

    proof fn lemma_sum(x: Self, y: Self) {
    }

    fn zero() -> (z: Self) {
        0
    }
}

impl Scalar for i16 {
    open spec fn as_int(self) -> int {
        self as int
    }

    open spec fn fits(n: int) -> bool {
        i16::MIN <= n <= i16::MAX
    }

    proof fn lemma_faithful(x: Self, y: Self) {
    }

    proof fn lemma_operators() {
    }

    proof fn lemma_product(x: Self, y: Self) {
    }

    proof fn lemma_sum(x: Self, y: Self) {
    }

    fn zero() -> (z: Self) {
        0
    }
}

impl Scalar for i32 {
    open spec fn as_int(self) -> int {
        self as int
    }

    open spec fn fits(n: int) -> bool {
        i32::MIN <= n <= i32::MAX
    }

    proof fn lemma_faithful(x: Self, y: Self) {
    }

    proof fn lemma_operators() {
    }

    proof fn lemma_product(x: Self, y: Self) {
    }

    proof fn lemma_sum(x: Self, y: Self) {
    }

    fn zero() -> (z: Self) {
        0
    }
}

impl Scalar for i64 {
    open spec fn as_int(self) -> int {
        self as int
    }

    open spec fn fits(n: int) -> bool {
        i64::MIN <= n <= i64::MAX
    }

    proof fn lemma_faithful(x: Self, y: Self) {
    }

    proof fn lemma_operators() {
    }

    proof fn lemma_product(x: Self, y: Self) {
    }

    proof fn lemma_sum(x: Self, y: Self) {
    }

    fn zero() -> (z: Self) {
        0
    }
}

impl Scalar for i128 {
    open spec fn as_int(self) -> int {
        self as int
    }

    open spec fn fits(n: int) -> bool {
        i128::MIN <= n <= i128::MAX
    }

    proof fn lemma_faithful(x: Self, y: Self) {
    }

    proof fn lemma_operators() {
    }

    proof fn lemma_product(x: Self, y: Self) {
    }

    proof fn lemma_sum(x: Self, y: Self) {
    }

    fn zero() -> (z: Self) {
        0
    }
}

impl Scalar for isize {
    open spec fn as_int(self) -> int {
        self as int
    }

    open spec fn fits(n: int) -> bool {
        isize::MIN <= n <= isize::MAX
    }

    proof fn lemma_faithful(x: Self, y: Self) {
    }

    proof fn lemma_operators() {
    }

    proof fn lemma_product(x: Self, y: Self) {
    }

    proof fn lemma_sum(x: Self, y: Self) {
    }

    fn zero() -> (z: Self) {
        0
    }
}

impl Scalar for u8 {
    open spec fn as_int(self) -> int {
        self as int
    }

    open spec fn fits(n: int) -> bool {
        u8::MIN <= n <= u8::MAX
    }

    proof fn lemma_faithful(x: Self, y: Self) {
    }

    proof fn lemma_operators() {
    }

    proof fn lemma_product(x: Self, y: Self) {
    }

    proof fn lemma_sum(x: Self, y: Self) {
    }

    fn zero() -> (z: Self) {
        0
    }
}

impl Scalar for u16 {
    open spec fn as_int(self) -> int {
        self as int
    }

    open spec fn fits(n: int) -> bool {
        u16::MIN <= n <= u16::MAX
    }

    proof fn lemma_faithful(x: Self, y: Self) {
    }

    proof fn lemma_operators() {
    }

    proof fn lemma_product(x: Self, y: Self) {
    }

    proof fn lemma_sum(x: Self, y: Self) {
    }

    fn zero() -> (z: Self) {
        0
    }
}

impl Scalar for u32 {
    open spec fn as_int(self) -> int {
        self as int
    }

    open spec fn fits(n: int) -> bool {
        u32::MIN <= n <= u32::MAX
    }

    proof fn lemma_faithful(x: Self, y: Self) {
    }

    proof fn lemma_operators() {
    }

    proof fn lemma_product(x: Self, y: Self) {
    }

    proof fn lemma_sum(x: Self, y: Self) {
    }

    fn zero() -> (z: Self) {
        0
    }
}

impl Scalar for u64 {
    open spec fn as_int(self) -> int {
        self as int
    }

    open spec fn fits(n: int) -> bool {
        u64::MIN <= n <= u64::MAX
    }

    proof fn lemma_faithful(x: Self, y: Self) {
    }

    proof fn lemma_operators() {
    }

    proof fn lemma_product(x: Self, y: Self) {
    }

    proof fn lemma_sum(x: Self, y: Self) {
    }

    fn zero() -> (z: Self) {
        0
    }
}

impl Scalar for u128 {
    open spec fn as_int(self) -> int {
        self as int
    }

    open spec fn fits(n: int) -> bool {
        u128::MIN <= n <= u128::MAX
    }

    proof fn lemma_faithful(x: Self, y: Self) {
    }

    proof fn lemma_operators() {
    }

    proof fn lemma_product(x: Self, y: Self) {
    }

    proof fn lemma_sum(x: Self, y: Self) {
    }

    fn zero() -> (z: Self) {
        0
    }
}

impl Scalar for usize {
    open spec fn as_int(self) -> int {
        self as int
    }

    open spec fn fits(n: int) -> bool {
        usize::MIN <= n <= usize::MAX
    }

    proof fn lemma_faithful(x: Self, y: Self) {
    }

    proof fn lemma_operators() {
    }

    proof fn lemma_product(x: Self, y: Self) {
    }

    proof fn lemma_sum(x: Self, y: Self) {
    }

    fn zero() -> (z: Self) {
        0
    }
}

} // verus!
