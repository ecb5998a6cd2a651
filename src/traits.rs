//! The combining-operation contracts and their instances on std types.

use vstd::prelude::*;

verus! {

/// A type with an associative combining operation.
///
/// Each value has a mathematical `model`, and `combine` acts on models
/// through `op`, which the implementor proves associative:
///
/// `op(op(a, b), c) == op(a, op(b, c))` for all models `a`, `b`, `c`.
pub trait Semigroup: Sized {
    /// The mathematical value that a value of this type stands for.
    type Model;

    spec fn model(&self) -> Self::Model;

    /// The combining operation on models.
    spec fn op(a: Self::Model, b: Self::Model) -> Self::Model;

    /// `op` is associative.
    proof fn lemma_associative(a: Self::Model, b: Self::Model, c: Self::Model)
        ensures
            Self::op(Self::op(a, b), c) == Self::op(a, Self::op(b, c)),
    ;

    fn combine(self, other: Self) -> (r: Self)
        ensures
            r.model() == Self::op(self.model(), other.model()),
    ;
}

/// A semigroup with an identity element, its unit.
///
/// `op(unit, x) == x` and `op(x, unit) == x` for the model `x` of every value.
pub trait Monoid: Semigroup {
    /// The model of the unit.
    spec fn spec_unit() -> Self::Model;

    /// The unit is a left and right identity of `op`.
    proof fn lemma_identity(x: Self)
        ensures
            Self::op(Self::spec_unit(), x.model()) == x.model(),
            Self::op(x.model(), Self::spec_unit()) == x.model(),
    ;

    /// Returns the unit value.
    fn unit() -> (r: Self)
        ensures
            r.model() == Self::spec_unit(),
    ;
}

impl Semigroup for () {
    type Model = ();

    open spec fn model(&self) -> () {
        ()
    }

    open spec fn op(a: (), b: ()) -> () {
        ()
    }

    proof fn lemma_associative(a: (), b: (), c: ()) {
    }

    fn combine(self, other: ()) -> (r: ()) {
        ()
    }
}

impl Monoid for () {
    open spec fn spec_unit() -> () {
        ()
    }

    proof fn lemma_identity(x: ()) {
    }

    fn unit() -> (r: ()) {
        ()
    }
}

impl<A: Semigroup> Semigroup for (A,) {
    type Model = (A::Model,);

    open spec fn model(&self) -> (A::Model,) {
        (self.0.model(),)
    }

    open spec fn op(a: (A::Model,), b: (A::Model,)) -> (A::Model,) {
        (A::op(a.0, b.0),)
    }

    proof fn lemma_associative(a: (A::Model,), b: (A::Model,), c: (A::Model,)) {
        A::lemma_associative(a.0, b.0, c.0);
    }

    fn combine(self, other: (A,)) -> (r: (A,)) {
        (self.0.combine(other.0),)
    }
}

impl<A: Monoid> Monoid for (A,) {
    open spec fn spec_unit() -> (A::Model,) {
        (A::spec_unit(),)
    }

    proof fn lemma_identity(x: (A,)) {
        A::lemma_identity(x.0);
    }

    fn unit() -> (r: (A,)) {
        (A::unit(),)
    }
}

impl<A: Semigroup, B: Semigroup> Semigroup for (A, B) {
    type Model = (A::Model, B::Model);

    open spec fn model(&self) -> (A::Model, B::Model) {
        (self.0.model(), self.1.model())
    }

    open spec fn op(a: (A::Model, B::Model), b: (A::Model, B::Model)) -> (A::Model, B::Model) {
        (A::op(a.0, b.0), B::op(a.1, b.1))
    }

    proof fn lemma_associative(
        a: (A::Model, B::Model),
        b: (A::Model, B::Model),
        c: (A::Model, B::Model),
    ) {
        A::lemma_associative(a.0, b.0, c.0);
        B::lemma_associative(a.1, b.1, c.1);
    }

    fn combine(self, other: (A, B)) -> (r: (A, B)) {
        (self.0.combine(other.0), self.1.combine(other.1))
    }
}

impl<A: Monoid, B: Monoid> Monoid for (A, B) {
    open spec fn spec_unit() -> (A::Model, B::Model) {
        (A::spec_unit(), B::spec_unit())
    }

    proof fn lemma_identity(x: (A, B)) {
        A::lemma_identity(x.0);
        B::lemma_identity(x.1);
    }

    fn unit() -> (r: (A, B)) {
        (A::unit(), B::unit())
    }
}

impl<A: Semigroup, B: Semigroup, C: Semigroup> Semigroup for (A, B, C) {
    type Model = (A::Model, B::Model, C::Model);

    open spec fn model(&self) -> (A::Model, B::Model, C::Model) {
        (self.0.model(), self.1.model(), self.2.model())
    }

    open spec fn op(
        a: (A::Model, B::Model, C::Model),
        b: (A::Model, B::Model, C::Model),
    ) -> (A::Model, B::Model, C::Model) {
        (A::op(a.0, b.0), B::op(a.1, b.1), C::op(a.2, b.2))
    }

    proof fn lemma_associative(
        a: (A::Model, B::Model, C::Model),
        b: (A::Model, B::Model, C::Model),
        c: (A::Model, B::Model, C::Model),
    ) {
        A::lemma_associative(a.0, b.0, c.0);
        B::lemma_associative(a.1, b.1, c.1);
        C::lemma_associative(a.2, b.2, c.2);
    }

    fn combine(self, other: (A, B, C)) -> (r: (A, B, C)) {
        (self.0.combine(other.0), self.1.combine(other.1), self.2.combine(other.2))
    }
}

impl<A: Monoid, B: Monoid, C: Monoid> Monoid for (A, B, C) {
    open spec fn spec_unit() -> (A::Model, B::Model, C::Model) {
        (A::spec_unit(), B::spec_unit(), C::spec_unit())
    }

    proof fn lemma_identity(x: (A, B, C)) {
        A::lemma_identity(x.0);
        B::lemma_identity(x.1);
        C::lemma_identity(x.2);
    }

    fn unit() -> (r: (A, B, C)) {
        (A::unit(), B::unit(), C::unit())
    }
}

/// Combines the underlying `Some` values, ignoring `None`s.
impl<T: Semigroup> Semigroup for Option<T> {
    type Model = Option<T::Model>;

    open spec fn model(&self) -> Option<T::Model> {
        match self {
            None => None,
            Some(x) => Some(x.model()),
        }
    }

    open spec fn op(a: Option<T::Model>, b: Option<T::Model>) -> Option<T::Model> {
        match a {
            None => b,
            Some(x) => match b {
                None => Some(x),
                Some(y) => Some(T::op(x, y)),
            },
        }
    }

    proof fn lemma_associative(a: Option<T::Model>, b: Option<T::Model>, c: Option<T::Model>) {
        if a is Some && b is Some && c is Some {
            T::lemma_associative(a->0, b->0, c->0);
        }
    }

    fn combine(self, other: Option<T>) -> (r: Option<T>) {
        match self {
            None => other,
            Some(x) => match other {
                None => Some(x),
                Some(y) => Some(x.combine(y)),
            },
        }
    }
}

/// The unit of `Option<T>` is `None`.
impl<T: Semigroup> Monoid for Option<T> {
    open spec fn spec_unit() -> Option<T::Model> {
        None
    }

    proof fn lemma_identity(x: Option<T>) {
    }

    fn unit() -> (r: Option<T>) {
        None
    }
}

/// A type that holds exactly one inner value and converts to and from it
/// without loss.
pub trait Wrapper: Sized {
    type Inner;

    /// The wrapper that holds `x`.
    spec fn wrap(x: Self::Inner) -> Self;

    /// The value that the wrapper holds.
    spec fn inner(self) -> Self::Inner;

    /// Wrapping and unwrapping are inverse to each other.
    proof fn lemma_round_trip(x: Self::Inner, w: Self)
        ensures
            Self::wrap(x).inner() == x,
            Self::wrap(w.inner()) == w,
    ;

    fn from_inner(x: Self::Inner) -> (r: Self)
        ensures
            r == Self::wrap(x),
    ;

    fn into_inner(self) -> (r: Self::Inner)
        ensures
            r == self.inner(),
    ;
}

/// Relies on `String::push_str`: appends the characters of `t` to `s`.
#[verifier::external_body]
fn push_str(s: &mut String, t: &str)
    ensures
        final(s)@ == old(s)@ + t@,
{
    s.push_str(t)
}

/// Concatenation of text.
impl Semigroup for String {
    type Model = Seq<char>;

    open spec fn model(&self) -> Seq<char> {
        self@
    }

    open spec fn op(a: Seq<char>, b: Seq<char>) -> Seq<char> {
        a + b
    }

    proof fn lemma_associative(a: Seq<char>, b: Seq<char>, c: Seq<char>) {
        assert((a + b) + c =~= a + (b + c));
    }

    fn combine(self, other: String) -> (r: String) {
        let mut s = self;
        push_str(&mut s, other.as_str());
        s
    }
}

impl Monoid for String {
    open spec fn spec_unit() -> Seq<char> {
        Seq::empty()
    }

    proof fn lemma_identity(x: String) {
        assert(Seq::<char>::empty() + x@ =~= x@);
        assert(x@ + Seq::<char>::empty() =~= x@);
    }

    fn unit() -> (r: String) {
        String::new()
    }
}

/// Concatenation of lists, in order.
impl<T> Semigroup for Vec<T> {
    type Model = Seq<T>;

    open spec fn model(&self) -> Seq<T> {
        self@
    }

    open spec fn op(a: Seq<T>, b: Seq<T>) -> Seq<T> {
        a + b
    }

    proof fn lemma_associative(a: Seq<T>, b: Seq<T>, c: Seq<T>) {
        assert((a + b) + c =~= a + (b + c));
    }

    fn combine(self, other: Vec<T>) -> (r: Vec<T>) {
        let mut v = self;
        let mut w = other;
        v.append(&mut w);
        v
    }
}

impl<T> Monoid for Vec<T> {
    open spec fn spec_unit() -> Seq<T> {
        Seq::empty()
    }

    proof fn lemma_identity(x: Vec<T>) {
        assert(Seq::<T>::empty() + x@ =~= x@);
        assert(x@ + Seq::<T>::empty() =~= x@);
    }

    fn unit() -> (r: Vec<T>) {
        Vec::new()
    }
}

/// A `Reducer<T>` is a `Semigroup` with a canonical mapping from `T`.
///
/// Folding a sequence of `T` through a reducer seeds the accumulator with
/// `unit` of the first element and pushes the rest with `combine_right`,
/// which an instance may implement in place (appending to a buffer)
/// instead of building a singleton and combining.
///
/// Whatever an instance does, `combine_left` and `combine_right` equal
/// combining with the injected value, on the left and on the right.
pub trait Reducer<T>: Semigroup {
    /// The model of the value that `unit` injects `value` as.
    spec fn inject(value: T) -> Self::Model;

    /// Maps `value` into this semigroup.
    fn unit(value: T) -> (r: Self)
        ensures
            r.model() == Self::inject(value),
    ;

    /// Combines the injected `value` on the left of `self`.
    fn combine_left(self, value: T) -> (r: Self)
        ensures
            r.model() == Self::op(Self::inject(value), self.model()),
    {
        <Self as Reducer<T>>::unit(value).combine(self)
    }

    /// Combines the injected `value` on the right of `self`.
    fn combine_right(self, value: T) -> (r: Self)
        ensures
            r.model() == Self::op(self.model(), Self::inject(value)),
    {
        self.combine(<Self as Reducer<T>>::unit(value))
    }
}

impl<T, R: Reducer<T>> Reducer<T> for Option<R> {
    open spec fn inject(value: T) -> Option<R::Model> {
        Some(R::inject(value))
    }

    fn unit(value: T) -> (r: Option<R>) {
        Some(R::unit(value))
    }

    fn combine_left(self, value: T) -> (r: Option<R>) {
        match self {
            None => Some(R::unit(value)),
            Some(r) => Some(r.combine_left(value)),
        }
    }

    fn combine_right(self, value: T) -> (r: Option<R>) {
        match self {
            None => Some(R::unit(value)),
            Some(r) => Some(r.combine_right(value)),
        }
    }
}

/// Copies a `&str` into a `String`; `combine_right` appends in place.
impl<'a> Reducer<&'a str> for String {
    open spec fn inject(value: &'a str) -> Seq<char> {
        value@
    }

    fn unit(value: &'a str) -> (r: String) {
        value.to_owned()
    }

    fn combine_right(self, value: &'a str) -> (r: String) {
        let mut s = self;
        push_str(&mut s, value);
        s
    }
}

/// Copies a slice into a `Vec`; `combine_right` extends in place.
impl<'a, T: Copy> Reducer<&'a [T]> for Vec<T> {
    open spec fn inject(value: &'a [T]) -> Seq<T> {
        value@
    }

    fn unit(value: &'a [T]) -> (r: Vec<T>) {
        let v: Vec<T> = Vec::new();
        v.combine_right(value)
    }

    fn combine_right(self, value: &'a [T]) -> (r: Vec<T>) {
        let mut v = self;
        let ghost start = v@;
        let mut i: usize = 0;
        while i < value.len()
            invariant
                i <= value@.len(),
                v@ == start + value@.subrange(0, i as int),
            decreases value@.len() - i,
        {
            v.push(value[i]);
            i = i + 1;
            assert(v@ =~= start + value@.subrange(0, i as int));
        }
        assert(value@.subrange(0, value@.len() as int) =~= value@);
        v
    }
}

} // verus!
