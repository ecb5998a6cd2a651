//! Wrapper types that fix one combining operation onto a value.
//!
//! `Sum` and `Product` on machine integers add and multiply with
//! wraparound: the model of such a value is its residue modulo `2^bits`,
//! which makes both operations total and associative.

use vstd::arithmetic::div_mod::{
    lemma_add_mod_noop, lemma_add_mod_noop_right, lemma_mod_add_multiples_vanish,
    lemma_mod_sub_multiples_vanish, lemma_mod_twice, lemma_mul_mod_noop,
    lemma_mul_mod_noop_left, lemma_mul_mod_noop_right, lemma_small_mod,
};
use vstd::arithmetic::mul::lemma_mul_is_associative;
use vstd::prelude::*;

use crate::traits::{Monoid, Semigroup, Wrapper};

verus! {

/// Adding residues modulo `m` is associative.
proof fn lemma_add_mod_associative(a: int, b: int, c: int, m: int)
    requires
        m > 0,
    ensures
        ((a + b) % m + c) % m == (a + (b + c) % m) % m,
{
    lemma_add_mod_noop_right(c, a + b, m);
    lemma_add_mod_noop_right(a, b + c, m);
    assert(c + (a + b) == a + (b + c));
    assert((a + b) % m + c == c + (a + b) % m);
}

/// Multiplying residues modulo `m` is associative.
proof fn lemma_mul_mod_associative(a: int, b: int, c: int, m: int)
    requires
        m > 0,
    ensures
        ((a * b) % m * c) % m == (a * ((b * c) % m)) % m,
{
    lemma_mul_mod_noop_left(a * b, c, m);
    lemma_mul_mod_noop_right(a, b * c, m);
    lemma_mul_is_associative(a, b, c);
}

/// A sum that wrapped around by at most `m` has the residue of the sum.
proof fn lemma_wrapped_add(x: int, y: int, r: int, m: int)
    requires
        m > 0,
        r == x + y || r == x + y - m || r == x + y + m,
    ensures
        r % m == (x % m + y % m) % m,
{
    lemma_add_mod_noop(x, y, m);
    if r == x + y - m {
        lemma_mod_sub_multiples_vanish(x + y, m);
    } else if r == x + y + m {
        lemma_mod_add_multiples_vanish(x + y, m);
    }
}

/// A product cropped to a residue, maybe shifted by `m`, has the residue
/// of the product.
proof fn lemma_wrapped_mul(x: int, y: int, r: int, m: int)
    requires
        m > 0,
        r == (x * y) % m || r == (x * y) % m - m,
    ensures
        r % m == ((x % m) * (y % m)) % m,
{
    lemma_mul_mod_noop(x, y, m);
    lemma_mod_twice(x * y, m);
    if r == (x * y) % m - m {
        lemma_mod_sub_multiples_vanish((x * y) % m, m);
    }
}

/// Combines by multiplication.
#[derive(Copy, Clone, Debug, PartialEq, Eq, PartialOrd, Ord, Hash)]
pub struct Product<T>(pub T);

/// Combines by addition.
#[derive(Copy, Clone, Debug, PartialEq, Eq, PartialOrd, Ord, Hash)]
pub struct Sum<T>(pub T);

/// Combines by logical and.
#[derive(Copy, Clone, Debug, PartialEq, Eq, PartialOrd, Ord, Hash)]
pub struct All(pub bool);

/// Combines by logical or.
#[derive(Copy, Clone, Debug, PartialEq, Eq, PartialOrd, Ord, Hash)]
pub struct Any(pub bool);

/// Combines by keeping the smaller value.
#[derive(Copy, Clone, Debug, PartialEq, Eq, PartialOrd, Ord, Hash)]
pub struct Min<T>(pub T);

/// Combines by keeping the larger value.
#[derive(Copy, Clone, Debug, PartialEq, Eq, PartialOrd, Ord, Hash)]
pub struct Max<T>(pub T);

/// Combines by keeping the left value. It has no unit: no value is an
/// identity for keeping whichever side comes first.
#[derive(Copy, Clone, Debug, PartialEq, Eq, PartialOrd, Ord, Hash)]
pub struct First<T>(pub T);

/// Combines by keeping the right value. It has no unit either.
#[derive(Copy, Clone, Debug, PartialEq, Eq, PartialOrd, Ord, Hash)]
pub struct Last<T>(pub T);

/// Addition modulo `2^bits` of `u8`.
impl Semigroup for Sum<u8> {
    type Model = int;

    open spec fn model(&self) -> int {
        self.0 as int % 0x100
    }

    open spec fn op(a: int, b: int) -> int {
        (a + b) % 0x100
    }

    proof fn lemma_associative(a: int, b: int, c: int) {
        lemma_add_mod_associative(a, b, c, 0x100);
    }

    fn combine(self, other: Sum<u8>) -> (r: Sum<u8>) {
        let r = Sum(self.0.wrapping_add(other.0));
        proof {
            lemma_wrapped_add(self.0 as int, other.0 as int, r.0 as int, 0x100);
        }
        r
    }
}

impl Monoid for Sum<u8> {
    open spec fn spec_unit() -> int {
        0
    }

    proof fn lemma_identity(x: Sum<u8>) {
        lemma_mod_twice(x.0 as int, 0x100);
    }

    fn unit() -> (r: Sum<u8>) {
        Sum(0)
    }
}

/// Multiplication modulo `2^bits` of `u8`.
impl Semigroup for Product<u8> {
    type Model = int;

    open spec fn model(&self) -> int {
        self.0 as int % 0x100
    }

    open spec fn op(a: int, b: int) -> int {
        (a * b) % 0x100
    }

    proof fn lemma_associative(a: int, b: int, c: int) {
        lemma_mul_mod_associative(a, b, c, 0x100);
    }

    fn combine(self, other: Product<u8>) -> (r: Product<u8>) {
        let r = Product(self.0.wrapping_mul(other.0));
        proof {
            lemma_wrapped_mul(self.0 as int, other.0 as int, r.0 as int, 0x100);
        }
        r
    }
}

impl Monoid for Product<u8> {
    open spec fn spec_unit() -> int {
        1
    }

    proof fn lemma_identity(x: Product<u8>) {
        lemma_mod_twice(x.0 as int, 0x100);
    }

    fn unit() -> (r: Product<u8>) {
        Product(1)
    }
}

/// Addition modulo `2^bits` of `u16`.
impl Semigroup for Sum<u16> {
    type Model = int;

    open spec fn model(&self) -> int {
        self.0 as int % 0x1_0000
    }

    open spec fn op(a: int, b: int) -> int {
        (a + b) % 0x1_0000
    }

    proof fn lemma_associative(a: int, b: int, c: int) {
        lemma_add_mod_associative(a, b, c, 0x1_0000);
    }

    fn combine(self, other: Sum<u16>) -> (r: Sum<u16>) {
        let r = Sum(self.0.wrapping_add(other.0));
        proof {
            lemma_wrapped_add(self.0 as int, other.0 as int, r.0 as int, 0x1_0000);
        }
        r
    }
}

impl Monoid for Sum<u16> {
    open spec fn spec_unit() -> int {
        0
    }

    proof fn lemma_identity(x: Sum<u16>) {
        lemma_mod_twice(x.0 as int, 0x1_0000);
    }

    fn unit() -> (r: Sum<u16>) {
        Sum(0)
    }
}

/// Multiplication modulo `2^bits` of `u16`.
impl Semigroup for Product<u16> {
    type Model = int;

    open spec fn model(&self) -> int {
        self.0 as int % 0x1_0000
    }

    open spec fn op(a: int, b: int) -> int {
        (a * b) % 0x1_0000
    }

    proof fn lemma_associative(a: int, b: int, c: int) {
        lemma_mul_mod_associative(a, b, c, 0x1_0000);
    }

    fn combine(self, other: Product<u16>) -> (r: Product<u16>) {
        let r = Product(self.0.wrapping_mul(other.0));
        proof {
            lemma_wrapped_mul(self.0 as int, other.0 as int, r.0 as int, 0x1_0000);
        }
        r
    }
}

impl Monoid for Product<u16> {
    open spec fn spec_unit() -> int {
        1
    }

    proof fn lemma_identity(x: Product<u16>) {
        lemma_mod_twice(x.0 as int, 0x1_0000);
    }

    fn unit() -> (r: Product<u16>) {
        Product(1)
    }
}

/// Addition modulo `2^bits` of `u32`.
impl Semigroup for Sum<u32> {
    type Model = int;

    open spec fn model(&self) -> int {
        self.0 as int % 0x1_0000_0000
    }

    open spec fn op(a: int, b: int) -> int {
        (a + b) % 0x1_0000_0000
    }

    proof fn lemma_associative(a: int, b: int, c: int) {
        lemma_add_mod_associative(a, b, c, 0x1_0000_0000);
    }

    fn combine(self, other: Sum<u32>) -> (r: Sum<u32>) {
        let r = Sum(self.0.wrapping_add(other.0));
        proof {
            lemma_wrapped_add(self.0 as int, other.0 as int, r.0 as int, 0x1_0000_0000);
        }
        r
    }
}

impl Monoid for Sum<u32> {
    open spec fn spec_unit() -> int {
        0
    }

    proof fn lemma_identity(x: Sum<u32>) {
        lemma_mod_twice(x.0 as int, 0x1_0000_0000);
    }

    fn unit() -> (r: Sum<u32>) {
        Sum(0)
    }
}

/// Multiplication modulo `2^bits` of `u32`.
impl Semigroup for Product<u32> {
    type Model = int;

    open spec fn model(&self) -> int {
        self.0 as int % 0x1_0000_0000
    }

    open spec fn op(a: int, b: int) -> int {
        (a * b) % 0x1_0000_0000
    }

    proof fn lemma_associative(a: int, b: int, c: int) {
        lemma_mul_mod_associative(a, b, c, 0x1_0000_0000);
    }

    fn combine(self, other: Product<u32>) -> (r: Product<u32>) {
        let r = Product(self.0.wrapping_mul(other.0));
        proof {
            lemma_wrapped_mul(self.0 as int, other.0 as int, r.0 as int, 0x1_0000_0000);
        }
        r
    }
}

impl Monoid for Product<u32> {
    open spec fn spec_unit() -> int {
        1
    }

    proof fn lemma_identity(x: Product<u32>) {
        lemma_mod_twice(x.0 as int, 0x1_0000_0000);
    }

    fn unit() -> (r: Product<u32>) {
        Product(1)
    }
}

/// Addition modulo `2^bits` of `u64`.
impl Semigroup for Sum<u64> {
    type Model = int;

    open spec fn model(&self) -> int {
        self.0 as int % 0x1_0000_0000_0000_0000
    }

    open spec fn op(a: int, b: int) -> int {
        (a + b) % 0x1_0000_0000_0000_0000
    }

    proof fn lemma_associative(a: int, b: int, c: int) {
        lemma_add_mod_associative(a, b, c, 0x1_0000_0000_0000_0000);
    }

    fn combine(self, other: Sum<u64>) -> (r: Sum<u64>) {
        let r = Sum(self.0.wrapping_add(other.0));
        proof {
            lemma_wrapped_add(self.0 as int, other.0 as int, r.0 as int, 0x1_0000_0000_0000_0000);
        }
        r
    }
}

impl Monoid for Sum<u64> {
    open spec fn spec_unit() -> int {
        0
    }

    proof fn lemma_identity(x: Sum<u64>) {
        lemma_mod_twice(x.0 as int, 0x1_0000_0000_0000_0000);
    }

    fn unit() -> (r: Sum<u64>) {
        Sum(0)
    }
}

/// Multiplication modulo `2^bits` of `u64`.
impl Semigroup for Product<u64> {
    type Model = int;

    open spec fn model(&self) -> int {
        self.0 as int % 0x1_0000_0000_0000_0000
    }

    open spec fn op(a: int, b: int) -> int {
        (a * b) % 0x1_0000_0000_0000_0000
    }

    proof fn lemma_associative(a: int, b: int, c: int) {
        lemma_mul_mod_associative(a, b, c, 0x1_0000_0000_0000_0000);
    }

    fn combine(self, other: Product<u64>) -> (r: Product<u64>) {
        let r = Product(self.0.wrapping_mul(other.0));
        proof {
            lemma_wrapped_mul(self.0 as int, other.0 as int, r.0 as int, 0x1_0000_0000_0000_0000);
        }
        r
    }
}

impl Monoid for Product<u64> {
    open spec fn spec_unit() -> int {
        1
    }

    proof fn lemma_identity(x: Product<u64>) {
        lemma_mod_twice(x.0 as int, 0x1_0000_0000_0000_0000);
    }

    fn unit() -> (r: Product<u64>) {
        Product(1)
    }
}

/// Addition modulo `2^bits` of `usize`.
impl Semigroup for Sum<usize> {
    type Model = int;

    open spec fn model(&self) -> int {
        self.0 as int % (usize::MAX as int + 1)
    }

    open spec fn op(a: int, b: int) -> int {
        (a + b) % (usize::MAX as int + 1)
    }

    proof fn lemma_associative(a: int, b: int, c: int) {
        lemma_add_mod_associative(a, b, c, (usize::MAX as int + 1));
    }

    fn combine(self, other: Sum<usize>) -> (r: Sum<usize>) {
        let r = Sum(self.0.wrapping_add(other.0));
        proof {
            lemma_wrapped_add(self.0 as int, other.0 as int, r.0 as int, (usize::MAX as int + 1));
        }
        r
    }
}

impl Monoid for Sum<usize> {
    open spec fn spec_unit() -> int {
        0
    }

    proof fn lemma_identity(x: Sum<usize>) {
        lemma_mod_twice(x.0 as int, (usize::MAX as int + 1));
    }

    fn unit() -> (r: Sum<usize>) {
        Sum(0)
    }
}

/// Multiplication modulo `2^bits` of `usize`.
impl Semigroup for Product<usize> {
    type Model = int;

    open spec fn model(&self) -> int {
        self.0 as int % (usize::MAX as int + 1)
    }

    open spec fn op(a: int, b: int) -> int {
        (a * b) % (usize::MAX as int + 1)
    }

    proof fn lemma_associative(a: int, b: int, c: int) {
        lemma_mul_mod_associative(a, b, c, (usize::MAX as int + 1));
    }

    fn combine(self, other: Product<usize>) -> (r: Product<usize>) {
        let r = Product(self.0.wrapping_mul(other.0));
        proof {
            lemma_wrapped_mul(self.0 as int, other.0 as int, r.0 as int, (usize::MAX as int + 1));
        }
        r
    }
}

impl Monoid for Product<usize> {
    open spec fn spec_unit() -> int {
        1
    }

    proof fn lemma_identity(x: Product<usize>) {
        lemma_mod_twice(x.0 as int, (usize::MAX as int + 1));
    }

    fn unit() -> (r: Product<usize>) {
        proof {
            lemma_small_mod(1, usize::MAX as nat + 1);
        }
        Product(1)
    }
}

/// Addition modulo `2^bits` of `i8`.
impl Semigroup for Sum<i8> {
    type Model = int;

    open spec fn model(&self) -> int {
        self.0 as int % 0x100
    }

    open spec fn op(a: int, b: int) -> int {
        (a + b) % 0x100
    }

    proof fn lemma_associative(a: int, b: int, c: int) {
        lemma_add_mod_associative(a, b, c, 0x100);
    }

    fn combine(self, other: Sum<i8>) -> (r: Sum<i8>) {
        let r = Sum(self.0.wrapping_add(other.0));
        proof {
            lemma_wrapped_add(self.0 as int, other.0 as int, r.0 as int, 0x100);
        }
        r
    }
}

impl Monoid for Sum<i8> {
    open spec fn spec_unit() -> int {
        0
    }

    proof fn lemma_identity(x: Sum<i8>) {
        lemma_mod_twice(x.0 as int, 0x100);
    }

    fn unit() -> (r: Sum<i8>) {
        Sum(0)
    }
}

/// Multiplication modulo `2^bits` of `i8`.
impl Semigroup for Product<i8> {
    type Model = int;

    open spec fn model(&self) -> int {
        self.0 as int % 0x100
    }

    open spec fn op(a: int, b: int) -> int {
        (a * b) % 0x100
    }

    proof fn lemma_associative(a: int, b: int, c: int) {
        lemma_mul_mod_associative(a, b, c, 0x100);
    }

    fn combine(self, other: Product<i8>) -> (r: Product<i8>) {
        let r = Product(self.0.wrapping_mul(other.0));
        proof {
            lemma_wrapped_mul(self.0 as int, other.0 as int, r.0 as int, 0x100);
        }
        r
    }
}

impl Monoid for Product<i8> {
    open spec fn spec_unit() -> int {
        1
    }

    proof fn lemma_identity(x: Product<i8>) {
        lemma_mod_twice(x.0 as int, 0x100);
    }

    fn unit() -> (r: Product<i8>) {
        Product(1)
    }
}

/// Addition modulo `2^bits` of `i16`.
impl Semigroup for Sum<i16> {
    type Model = int;

    open spec fn model(&self) -> int {
        self.0 as int % 0x1_0000
    }

    open spec fn op(a: int, b: int) -> int {
        (a + b) % 0x1_0000
    }

    proof fn lemma_associative(a: int, b: int, c: int) {
        lemma_add_mod_associative(a, b, c, 0x1_0000);
    }

    fn combine(self, other: Sum<i16>) -> (r: Sum<i16>) {
        let r = Sum(self.0.wrapping_add(other.0));
        proof {
            lemma_wrapped_add(self.0 as int, other.0 as int, r.0 as int, 0x1_0000);
        }
        r
    }
}

impl Monoid for Sum<i16> {
    open spec fn spec_unit() -> int {
        0
    }

    proof fn lemma_identity(x: Sum<i16>) {
        lemma_mod_twice(x.0 as int, 0x1_0000);
    }

    fn unit() -> (r: Sum<i16>) {
        Sum(0)
    }
}

/// Multiplication modulo `2^bits` of `i16`.
impl Semigroup for Product<i16> {
    type Model = int;

    open spec fn model(&self) -> int {
        self.0 as int % 0x1_0000
    }

    open spec fn op(a: int, b: int) -> int {
        (a * b) % 0x1_0000
    }

    proof fn lemma_associative(a: int, b: int, c: int) {
        lemma_mul_mod_associative(a, b, c, 0x1_0000);
    }

    fn combine(self, other: Product<i16>) -> (r: Product<i16>) {
        let r = Product(self.0.wrapping_mul(other.0));
        proof {
            lemma_wrapped_mul(self.0 as int, other.0 as int, r.0 as int, 0x1_0000);
        }
        r
    }
}

impl Monoid for Product<i16> {
    open spec fn spec_unit() -> int {
        1
    }

    proof fn lemma_identity(x: Product<i16>) {
        lemma_mod_twice(x.0 as int, 0x1_0000);
    }

    fn unit() -> (r: Product<i16>) {
        Product(1)
    }
}

/// Addition modulo `2^bits` of `i32`.
impl Semigroup for Sum<i32> {
    type Model = int;

    open spec fn model(&self) -> int {
        self.0 as int % 0x1_0000_0000
    }

    open spec fn op(a: int, b: int) -> int {
        (a + b) % 0x1_0000_0000
    }

    proof fn lemma_associative(a: int, b: int, c: int) {
        lemma_add_mod_associative(a, b, c, 0x1_0000_0000);
    }

    fn combine(self, other: Sum<i32>) -> (r: Sum<i32>) {
        let r = Sum(self.0.wrapping_add(other.0));
        proof {
            lemma_wrapped_add(self.0 as int, other.0 as int, r.0 as int, 0x1_0000_0000);
        }
        r
    }
}

impl Monoid for Sum<i32> {
    open spec fn spec_unit() -> int {
        0
    }

    proof fn lemma_identity(x: Sum<i32>) {
        lemma_mod_twice(x.0 as int, 0x1_0000_0000);
    }

    fn unit() -> (r: Sum<i32>) {
        Sum(0)
    }
}

/// Multiplication modulo `2^bits` of `i32`.
impl Semigroup for Product<i32> {
    type Model = int;

    open spec fn model(&self) -> int {
        self.0 as int % 0x1_0000_0000
    }

    open spec fn op(a: int, b: int) -> int {
        (a * b) % 0x1_0000_0000
    }

    proof fn lemma_associative(a: int, b: int, c: int) {
        lemma_mul_mod_associative(a, b, c, 0x1_0000_0000);
    }

    fn combine(self, other: Product<i32>) -> (r: Product<i32>) {
        let r = Product(self.0.wrapping_mul(other.0));
        proof {
            lemma_wrapped_mul(self.0 as int, other.0 as int, r.0 as int, 0x1_0000_0000);
        }
        r
    }
}

impl Monoid for Product<i32> {
    open spec fn spec_unit() -> int {
        1
    }

    proof fn lemma_identity(x: Product<i32>) {
        lemma_mod_twice(x.0 as int, 0x1_0000_0000);
    }

    fn unit() -> (r: Product<i32>) {
        Product(1)
    }
}

/// Addition modulo `2^bits` of `i64`.
impl Semigroup for Sum<i64> {
    type Model = int;

    open spec fn model(&self) -> int {
        self.0 as int % 0x1_0000_0000_0000_0000
    }

    open spec fn op(a: int, b: int) -> int {
        (a + b) % 0x1_0000_0000_0000_0000
    }

    proof fn lemma_associative(a: int, b: int, c: int) {
        lemma_add_mod_associative(a, b, c, 0x1_0000_0000_0000_0000);
    }

    fn combine(self, other: Sum<i64>) -> (r: Sum<i64>) {
        let r = Sum(self.0.wrapping_add(other.0));
        proof {
            lemma_wrapped_add(self.0 as int, other.0 as int, r.0 as int, 0x1_0000_0000_0000_0000);
        }
        r
    }
}

impl Monoid for Sum<i64> {
    open spec fn spec_unit() -> int {
        0
    }

    proof fn lemma_identity(x: Sum<i64>) {
        lemma_mod_twice(x.0 as int, 0x1_0000_0000_0000_0000);
    }

    fn unit() -> (r: Sum<i64>) {
        Sum(0)
    }
}

/// Multiplication modulo `2^bits` of `i64`.
impl Semigroup for Product<i64> {
    type Model = int;

    open spec fn model(&self) -> int {
        self.0 as int % 0x1_0000_0000_0000_0000
    }

    open spec fn op(a: int, b: int) -> int {
        (a * b) % 0x1_0000_0000_0000_0000
    }

    proof fn lemma_associative(a: int, b: int, c: int) {
        lemma_mul_mod_associative(a, b, c, 0x1_0000_0000_0000_0000);
    }

    fn combine(self, other: Product<i64>) -> (r: Product<i64>) {
        let r = Product(self.0.wrapping_mul(other.0));
        proof {
            lemma_wrapped_mul(self.0 as int, other.0 as int, r.0 as int, 0x1_0000_0000_0000_0000);
        }
        r
    }
}

impl Monoid for Product<i64> {
    open spec fn spec_unit() -> int {
        1
    }

    proof fn lemma_identity(x: Product<i64>) {
        lemma_mod_twice(x.0 as int, 0x1_0000_0000_0000_0000);
    }

    fn unit() -> (r: Product<i64>) {
        Product(1)
    }
}

/// Addition modulo `2^bits` of `isize`.
impl Semigroup for Sum<isize> {
    type Model = int;

    open spec fn model(&self) -> int {
        self.0 as int % (usize::MAX as int + 1)
    }

    open spec fn op(a: int, b: int) -> int {
        (a + b) % (usize::MAX as int + 1)
    }

    proof fn lemma_associative(a: int, b: int, c: int) {
        lemma_add_mod_associative(a, b, c, (usize::MAX as int + 1));
    }

    fn combine(self, other: Sum<isize>) -> (r: Sum<isize>) {
        let r = Sum(self.0.wrapping_add(other.0));
        proof {
            lemma_wrapped_add(self.0 as int, other.0 as int, r.0 as int, (usize::MAX as int + 1));
        }
        r
    }
}

impl Monoid for Sum<isize> {
    open spec fn spec_unit() -> int {
        0
    }

    proof fn lemma_identity(x: Sum<isize>) {
        lemma_mod_twice(x.0 as int, (usize::MAX as int + 1));
    }

    fn unit() -> (r: Sum<isize>) {
        Sum(0)
    }
}

/// Multiplication modulo `2^bits` of `isize`.
impl Semigroup for Product<isize> {
    type Model = int;

    open spec fn model(&self) -> int {
        self.0 as int % (usize::MAX as int + 1)
    }

    open spec fn op(a: int, b: int) -> int {
        (a * b) % (usize::MAX as int + 1)
    }

    proof fn lemma_associative(a: int, b: int, c: int) {
        lemma_mul_mod_associative(a, b, c, (usize::MAX as int + 1));
    }

    fn combine(self, other: Product<isize>) -> (r: Product<isize>) {
        let r = Product(self.0.wrapping_mul(other.0));
        proof {
            lemma_wrapped_mul(self.0 as int, other.0 as int, r.0 as int, (usize::MAX as int + 1));
        }
        r
    }
}

impl Monoid for Product<isize> {
    open spec fn spec_unit() -> int {
        1
    }

    proof fn lemma_identity(x: Product<isize>) {
        lemma_mod_twice(x.0 as int, (usize::MAX as int + 1));
    }

    fn unit() -> (r: Product<isize>) {
        proof {
            lemma_small_mod(1, usize::MAX as nat + 1);
        }
        Product(1)
    }
}

impl Semigroup for Min<u8> {
    type Model = u8;

    open spec fn model(&self) -> u8 {
        self.0
    }

    open spec fn op(a: u8, b: u8) -> u8 {
        if a <= b {
            a
        } else {
            b
        }
    }

    proof fn lemma_associative(a: u8, b: u8, c: u8) {
    }

    fn combine(self, other: Min<u8>) -> (r: Min<u8>) {
        if self.0 <= other.0 {
            self
        } else {
            other
        }
    }
}

/// The unit is the largest `u8`.
impl Monoid for Min<u8> {
    open spec fn spec_unit() -> u8 {
        u8::MAX
    }

    proof fn lemma_identity(x: Min<u8>) {
    }

    fn unit() -> (r: Min<u8>) {
        Min(u8::MAX)
    }
}

impl Semigroup for Max<u8> {
    type Model = u8;

    open spec fn model(&self) -> u8 {
        self.0
    }

    open spec fn op(a: u8, b: u8) -> u8 {
        if a >= b {
            a
        } else {
            b
        }
    }

    proof fn lemma_associative(a: u8, b: u8, c: u8) {
    }

    fn combine(self, other: Max<u8>) -> (r: Max<u8>) {
        if self.0 >= other.0 {
            self
        } else {
            other
        }
    }
}

/// The unit is the smallest `u8`.
impl Monoid for Max<u8> {
    open spec fn spec_unit() -> u8 {
        u8::MIN
    }

    proof fn lemma_identity(x: Max<u8>) {
    }

    fn unit() -> (r: Max<u8>) {
        Max(u8::MIN)
    }
}

impl Semigroup for Min<u16> {
    type Model = u16;

    open spec fn model(&self) -> u16 {
        self.0
    }

    open spec fn op(a: u16, b: u16) -> u16 {
        if a <= b {
            a
        } else {
            b
        }
    }

    proof fn lemma_associative(a: u16, b: u16, c: u16) {
    }

    fn combine(self, other: Min<u16>) -> (r: Min<u16>) {
        if self.0 <= other.0 {
            self
        } else {
            other
        }
    }
}

/// The unit is the largest `u16`.
impl Monoid for Min<u16> {
    open spec fn spec_unit() -> u16 {
        u16::MAX
    }

    proof fn lemma_identity(x: Min<u16>) {
    }

    fn unit() -> (r: Min<u16>) {
        Min(u16::MAX)
    }
}

impl Semigroup for Max<u16> {
    type Model = u16;

    open spec fn model(&self) -> u16 {
        self.0
    }

    open spec fn op(a: u16, b: u16) -> u16 {
        if a >= b {
            a
        } else {
            b
        }
    }

    proof fn lemma_associative(a: u16, b: u16, c: u16) {
    }

    fn combine(self, other: Max<u16>) -> (r: Max<u16>) {
        if self.0 >= other.0 {
            self
        } else {
            other
        }
    }
}

/// The unit is the smallest `u16`.
impl Monoid for Max<u16> {
    open spec fn spec_unit() -> u16 {
        u16::MIN
    }

    proof fn lemma_identity(x: Max<u16>) {
    }

    fn unit() -> (r: Max<u16>) {
        Max(u16::MIN)
    }
}

impl Semigroup for Min<u32> {
    type Model = u32;

    open spec fn model(&self) -> u32 {
        self.0
    }

    open spec fn op(a: u32, b: u32) -> u32 {
        if a <= b {
            a
        } else {
            b
        }
    }

    proof fn lemma_associative(a: u32, b: u32, c: u32) {
    }

    fn combine(self, other: Min<u32>) -> (r: Min<u32>) {
        if self.0 <= other.0 {
            self
        } else {
            other
        }
    }
}

/// The unit is the largest `u32`.
impl Monoid for Min<u32> {
    open spec fn spec_unit() -> u32 {
        u32::MAX
    }

    proof fn lemma_identity(x: Min<u32>) {
    }

    fn unit() -> (r: Min<u32>) {
        Min(u32::MAX)
    }
}

impl Semigroup for Max<u32> {
    type Model = u32;

    open spec fn model(&self) -> u32 {
        self.0
    }

    open spec fn op(a: u32, b: u32) -> u32 {
        if a >= b {
            a
        } else {
            b
        }
    }

    proof fn lemma_associative(a: u32, b: u32, c: u32) {
    }

    fn combine(self, other: Max<u32>) -> (r: Max<u32>) {
        if self.0 >= other.0 {
            self
        } else {
            other
        }
    }
}

/// The unit is the smallest `u32`.
impl Monoid for Max<u32> {
    open spec fn spec_unit() -> u32 {
        u32::MIN
    }

    proof fn lemma_identity(x: Max<u32>) {
    }

    fn unit() -> (r: Max<u32>) {
        Max(u32::MIN)
    }
}

impl Semigroup for Min<u64> {
    type Model = u64;

    open spec fn model(&self) -> u64 {
        self.0
    }

    open spec fn op(a: u64, b: u64) -> u64 {
        if a <= b {
            a
        } else {
            b
        }
    }

    proof fn lemma_associative(a: u64, b: u64, c: u64) {
    }

    fn combine(self, other: Min<u64>) -> (r: Min<u64>) {
        if self.0 <= other.0 {
            self
        } else {
            other
        }
    }
}

/// The unit is the largest `u64`.
impl Monoid for Min<u64> {
    open spec fn spec_unit() -> u64 {
        u64::MAX
    }

    proof fn lemma_identity(x: Min<u64>) {
    }

    fn unit() -> (r: Min<u64>) {
        Min(u64::MAX)
    }
}

impl Semigroup for Max<u64> {
    type Model = u64;

    open spec fn model(&self) -> u64 {
        self.0
    }

    open spec fn op(a: u64, b: u64) -> u64 {
        if a >= b {
            a
        } else {
            b
        }
    }

    proof fn lemma_associative(a: u64, b: u64, c: u64) {
    }

    fn combine(self, other: Max<u64>) -> (r: Max<u64>) {
        if self.0 >= other.0 {
            self
        } else {
            other
        }
    }
}

/// The unit is the smallest `u64`.
impl Monoid for Max<u64> {
    open spec fn spec_unit() -> u64 {
        u64::MIN
    }

    proof fn lemma_identity(x: Max<u64>) {
    }

    fn unit() -> (r: Max<u64>) {
        Max(u64::MIN)
    }
}

impl Semigroup for Min<usize> {
    type Model = usize;

    open spec fn model(&self) -> usize {
        self.0
    }

    open spec fn op(a: usize, b: usize) -> usize {
        if a <= b {
            a
        } else {
            b
        }
    }

    proof fn lemma_associative(a: usize, b: usize, c: usize) {
    }

    fn combine(self, other: Min<usize>) -> (r: Min<usize>) {
        if self.0 <= other.0 {
            self
        } else {
            other
        }
    }
}

/// The unit is the largest `usize`.
impl Monoid for Min<usize> {
    open spec fn spec_unit() -> usize {
        usize::MAX
    }

    proof fn lemma_identity(x: Min<usize>) {
    }

    fn unit() -> (r: Min<usize>) {
        Min(usize::MAX)
    }
}

impl Semigroup for Max<usize> {
    type Model = usize;

    open spec fn model(&self) -> usize {
        self.0
    }

    open spec fn op(a: usize, b: usize) -> usize {
        if a >= b {
            a
        } else {
            b
        }
    }

    proof fn lemma_associative(a: usize, b: usize, c: usize) {
    }

    fn combine(self, other: Max<usize>) -> (r: Max<usize>) {
        if self.0 >= other.0 {
            self
        } else {
            other
        }
    }
}

/// The unit is the smallest `usize`.
impl Monoid for Max<usize> {
    open spec fn spec_unit() -> usize {
        usize::MIN
    }

    proof fn lemma_identity(x: Max<usize>) {
    }

    fn unit() -> (r: Max<usize>) {
        Max(usize::MIN)
    }
}

impl Semigroup for Min<i8> {
    type Model = i8;

    open spec fn model(&self) -> i8 {
        self.0
    }

    open spec fn op(a: i8, b: i8) -> i8 {
        if a <= b {
            a
        } else {
            b
        }
    }

    proof fn lemma_associative(a: i8, b: i8, c: i8) {
    }

    fn combine(self, other: Min<i8>) -> (r: Min<i8>) {
        if self.0 <= other.0 {
            self
        } else {
            other
        }
    }
}

/// The unit is the largest `i8`.
impl Monoid for Min<i8> {
    open spec fn spec_unit() -> i8 {
        i8::MAX
    }

    proof fn lemma_identity(x: Min<i8>) {
    }

    fn unit() -> (r: Min<i8>) {
        Min(i8::MAX)
    }
}

impl Semigroup for Max<i8> {
    type Model = i8;

    open spec fn model(&self) -> i8 {
        self.0
    }

    open spec fn op(a: i8, b: i8) -> i8 {
        if a >= b {
            a
        } else {
            b
        }
    }

    proof fn lemma_associative(a: i8, b: i8, c: i8) {
    }

    fn combine(self, other: Max<i8>) -> (r: Max<i8>) {
        if self.0 >= other.0 {
            self
        } else {
            other
        }
    }
}

/// The unit is the smallest `i8`.
impl Monoid for Max<i8> {
    open spec fn spec_unit() -> i8 {
        i8::MIN
    }

    proof fn lemma_identity(x: Max<i8>) {
    }

    fn unit() -> (r: Max<i8>) {
        Max(i8::MIN)
    }
}

impl Semigroup for Min<i16> {
    type Model = i16;

    open spec fn model(&self) -> i16 {
        self.0
    }

    open spec fn op(a: i16, b: i16) -> i16 {
        if a <= b {
            a
        } else {
            b
        }
    }

    proof fn lemma_associative(a: i16, b: i16, c: i16) {
    }

    fn combine(self, other: Min<i16>) -> (r: Min<i16>) {
        if self.0 <= other.0 {
            self
        } else {
            other
        }
    }
}

/// The unit is the largest `i16`.
impl Monoid for Min<i16> {
    open spec fn spec_unit() -> i16 {
        i16::MAX
    }

    proof fn lemma_identity(x: Min<i16>) {
    }

    fn unit() -> (r: Min<i16>) {
        Min(i16::MAX)
    }
}

impl Semigroup for Max<i16> {
    type Model = i16;

    open spec fn model(&self) -> i16 {
        self.0
    }

    open spec fn op(a: i16, b: i16) -> i16 {
        if a >= b {
            a
        } else {
            b
        }
    }

    proof fn lemma_associative(a: i16, b: i16, c: i16) {
    }

    fn combine(self, other: Max<i16>) -> (r: Max<i16>) {
        if self.0 >= other.0 {
            self
        } else {
            other
        }
    }
}

/// The unit is the smallest `i16`.
impl Monoid for Max<i16> {
    open spec fn spec_unit() -> i16 {
        i16::MIN
    }

    proof fn lemma_identity(x: Max<i16>) {
    }

    fn unit() -> (r: Max<i16>) {
        Max(i16::MIN)
    }
}

impl Semigroup for Min<i32> {
    type Model = i32;

    open spec fn model(&self) -> i32 {
        self.0
    }

    open spec fn op(a: i32, b: i32) -> i32 {
        if a <= b {
            a
        } else {
            b
        }
    }

    proof fn lemma_associative(a: i32, b: i32, c: i32) {
    }

    fn combine(self, other: Min<i32>) -> (r: Min<i32>) {
        if self.0 <= other.0 {
            self
        } else {
            other
        }
    }
}

/// The unit is the largest `i32`.
impl Monoid for Min<i32> {
    open spec fn spec_unit() -> i32 {
        i32::MAX
    }

    proof fn lemma_identity(x: Min<i32>) {
    }

    fn unit() -> (r: Min<i32>) {
        Min(i32::MAX)
    }
}

impl Semigroup for Max<i32> {
    type Model = i32;

    open spec fn model(&self) -> i32 {
        self.0
    }

    open spec fn op(a: i32, b: i32) -> i32 {
        if a >= b {
            a
        } else {
            b
        }
    }

    proof fn lemma_associative(a: i32, b: i32, c: i32) {
    }

    fn combine(self, other: Max<i32>) -> (r: Max<i32>) {
        if self.0 >= other.0 {
            self
        } else {
            other
        }
    }
}

/// The unit is the smallest `i32`.
impl Monoid for Max<i32> {
    open spec fn spec_unit() -> i32 {
        i32::MIN
    }

    proof fn lemma_identity(x: Max<i32>) {
    }

    fn unit() -> (r: Max<i32>) {
        Max(i32::MIN)
    }
}

impl Semigroup for Min<i64> {
    type Model = i64;

    open spec fn model(&self) -> i64 {
        self.0
    }

    open spec fn op(a: i64, b: i64) -> i64 {
        if a <= b {
            a
        } else {
            b
        }
    }

    proof fn lemma_associative(a: i64, b: i64, c: i64) {
    }

    fn combine(self, other: Min<i64>) -> (r: Min<i64>) {
        if self.0 <= other.0 {
            self
        } else {
            other
        }
    }
}

/// The unit is the largest `i64`.
impl Monoid for Min<i64> {
    open spec fn spec_unit() -> i64 {
        i64::MAX
    }

    proof fn lemma_identity(x: Min<i64>) {
    }

    fn unit() -> (r: Min<i64>) {
        Min(i64::MAX)
    }
}

impl Semigroup for Max<i64> {
    type Model = i64;

    open spec fn model(&self) -> i64 {
        self.0
    }

    open spec fn op(a: i64, b: i64) -> i64 {
        if a >= b {
            a
        } else {
            b
        }
    }

    proof fn lemma_associative(a: i64, b: i64, c: i64) {
    }

    fn combine(self, other: Max<i64>) -> (r: Max<i64>) {
        if self.0 >= other.0 {
            self
        } else {
            other
        }
    }
}

/// The unit is the smallest `i64`.
impl Monoid for Max<i64> {
    open spec fn spec_unit() -> i64 {
        i64::MIN
    }

    proof fn lemma_identity(x: Max<i64>) {
    }

    fn unit() -> (r: Max<i64>) {
        Max(i64::MIN)
    }
}

impl Semigroup for Min<isize> {
    type Model = isize;

    open spec fn model(&self) -> isize {
        self.0
    }

    open spec fn op(a: isize, b: isize) -> isize {
        if a <= b {
            a
        } else {
            b
        }
    }

    proof fn lemma_associative(a: isize, b: isize, c: isize) {
    }

    fn combine(self, other: Min<isize>) -> (r: Min<isize>) {
        if self.0 <= other.0 {
            self
        } else {
            other
        }
    }
}

/// The unit is the largest `isize`.
impl Monoid for Min<isize> {
    open spec fn spec_unit() -> isize {
        isize::MAX
    }

    proof fn lemma_identity(x: Min<isize>) {
    }

    fn unit() -> (r: Min<isize>) {
        Min(isize::MAX)
    }
}

impl Semigroup for Max<isize> {
    type Model = isize;

    open spec fn model(&self) -> isize {
        self.0
    }

    open spec fn op(a: isize, b: isize) -> isize {
        if a >= b {
            a
        } else {
            b
        }
    }

    proof fn lemma_associative(a: isize, b: isize, c: isize) {
    }

    fn combine(self, other: Max<isize>) -> (r: Max<isize>) {
        if self.0 >= other.0 {
            self
        } else {
            other
        }
    }
}

/// The unit is the smallest `isize`.
impl Monoid for Max<isize> {
    open spec fn spec_unit() -> isize {
        isize::MIN
    }

    proof fn lemma_identity(x: Max<isize>) {
    }

    fn unit() -> (r: Max<isize>) {
        Max(isize::MIN)
    }
}

impl Semigroup for All {
    type Model = bool;

    open spec fn model(&self) -> bool {
        self.0
    }

    open spec fn op(a: bool, b: bool) -> bool {
        a && b
    }

    proof fn lemma_associative(a: bool, b: bool, c: bool) {
    }

    fn combine(self, other: All) -> (r: All) {
        All(self.0 && other.0)
    }
}

impl Monoid for All {
    open spec fn spec_unit() -> bool {
        true
    }

    proof fn lemma_identity(x: All) {
    }

    fn unit() -> (r: All) {
        All(true)
    }
}

impl Semigroup for Any {
    type Model = bool;

    open spec fn model(&self) -> bool {
        self.0
    }

    open spec fn op(a: bool, b: bool) -> bool {
        a || b
    }

    proof fn lemma_associative(a: bool, b: bool, c: bool) {
    }

    fn combine(self, other: Any) -> (r: Any) {
        Any(self.0 || other.0)
    }
}

impl Monoid for Any {
    open spec fn spec_unit() -> bool {
        false
    }

    proof fn lemma_identity(x: Any) {
    }

    fn unit() -> (r: Any) {
        Any(false)
    }
}

impl<T> Semigroup for First<T> {
    type Model = T;

    open spec fn model(&self) -> T {
        self.0
    }

    open spec fn op(a: T, b: T) -> T {
        a
    }

    proof fn lemma_associative(a: T, b: T, c: T) {
    }

    fn combine(self, other: First<T>) -> (r: First<T>) {
        self
    }
}

impl<T> Semigroup for Last<T> {
    type Model = T;

    open spec fn model(&self) -> T {
        self.0
    }

    open spec fn op(a: T, b: T) -> T {
        b
    }

    proof fn lemma_associative(a: T, b: T, c: T) {
    }

    fn combine(self, other: Last<T>) -> (r: Last<T>) {
        other
    }
}

impl<T> Wrapper for Product<T> {
    type Inner = T;

    open spec fn wrap(x: T) -> Product<T> {
        Product(x)
    }

    open spec fn inner(self) -> T {
        self.0
    }

    proof fn lemma_round_trip(x: T, w: Product<T>) {
    }

    fn from_inner(x: T) -> (r: Product<T>) {
        Product(x)
    }

    fn into_inner(self) -> (r: T) {
        self.0
    }
}

impl<T> Wrapper for Sum<T> {
    type Inner = T;

    open spec fn wrap(x: T) -> Sum<T> {
        Sum(x)
    }

    open spec fn inner(self) -> T {
        self.0
    }

    proof fn lemma_round_trip(x: T, w: Sum<T>) {
    }

    fn from_inner(x: T) -> (r: Sum<T>) {
        Sum(x)
    }

    fn into_inner(self) -> (r: T) {
        self.0
    }
}

impl<T> Wrapper for Min<T> {
    type Inner = T;

    open spec fn wrap(x: T) -> Min<T> {
        Min(x)
    }

    open spec fn inner(self) -> T {
        self.0
    }

    proof fn lemma_round_trip(x: T, w: Min<T>) {
    }

    fn from_inner(x: T) -> (r: Min<T>) {
        Min(x)
    }

    fn into_inner(self) -> (r: T) {
        self.0
    }
}

impl<T> Wrapper for Max<T> {
    type Inner = T;

    open spec fn wrap(x: T) -> Max<T> {
        Max(x)
    }

    open spec fn inner(self) -> T {
        self.0
    }

    proof fn lemma_round_trip(x: T, w: Max<T>) {
    }

    fn from_inner(x: T) -> (r: Max<T>) {
        Max(x)
    }

    fn into_inner(self) -> (r: T) {
        self.0
    }
}

impl<T> Wrapper for First<T> {
    type Inner = T;

    open spec fn wrap(x: T) -> First<T> {
        First(x)
    }

    open spec fn inner(self) -> T {
        self.0
    }

    proof fn lemma_round_trip(x: T, w: First<T>) {
    }

    fn from_inner(x: T) -> (r: First<T>) {
        First(x)
    }

    fn into_inner(self) -> (r: T) {
        self.0
    }
}

impl<T> Wrapper for Last<T> {
    type Inner = T;

    open spec fn wrap(x: T) -> Last<T> {
        Last(x)
    }

    open spec fn inner(self) -> T {
        self.0
    }

    proof fn lemma_round_trip(x: T, w: Last<T>) {
    }

    fn from_inner(x: T) -> (r: Last<T>) {
        Last(x)
    }

    fn into_inner(self) -> (r: T) {
        self.0
    }
}

impl Wrapper for All {
    type Inner = bool;

    open spec fn wrap(x: bool) -> All {
        All(x)
    }

    open spec fn inner(self) -> bool {
        self.0
    }

    proof fn lemma_round_trip(x: bool, w: All) {
    }

    fn from_inner(x: bool) -> (r: All) {
        All(x)
    }

    fn into_inner(self) -> (r: bool) {
        self.0
    }
}

impl Wrapper for Any {
    type Inner = bool;

    open spec fn wrap(x: bool) -> Any {
        Any(x)
    }

    open spec fn inner(self) -> bool {
        self.0
    }

    proof fn lemma_round_trip(x: bool, w: Any) {
    }

    fn from_inner(x: bool) -> (r: Any) {
        Any(x)
    }

    fn into_inner(self) -> (r: bool) {
        self.0
    }
}

} // verus!
