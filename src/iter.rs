//! Folds over iterators, built on the combining-operation contracts.
//!
//! Every fold drains its iterator from left to right, in one pass. The
//! iterators taken are those whose `next` follows vstd's iterator laws
//! and that come with a termination measure, such as `Vec::into_iter`.

use vstd::prelude::*;
use vstd::std_specs::iter::IteratorSpec;

use crate::traits::{Monoid, Reducer, Semigroup};

verus! {

/// The models of a sequence of values.
pub open spec fn models<S: Semigroup>(xs: Seq<S>) -> Seq<S::Model> {
    xs.map_values(|x: S| x.model())
}

/// The models that a reducer injects a sequence of elements as.
pub open spec fn injects<T, R: Reducer<T>>(xs: Seq<T>) -> Seq<R::Model> {
    xs.map_values(|x: T| R::inject(x))
}

/// Combines `ms` from left to right onto `acc`.
pub open spec fn fold_models<S: Semigroup>(acc: S::Model, ms: Seq<S::Model>) -> S::Model
    decreases ms.len(),
{
    if ms.len() == 0 {
        acc
    } else {
        S::op(fold_models::<S>(acc, ms.drop_last()), ms.last())
    }
}

/// Combines every value that `iter` yields onto `acc`.
fn fold_onto<I: Iterator>(iter: I, acc: I::Item) -> (r: I::Item) where I::Item: Semigroup
    requires
        iter.obeys_prophetic_iter_laws(),
        iter.decrease() is Some,
    ensures
        r.model() == fold_models::<I::Item>(acc.model(), models(iter.remaining())),
{
    let ghost all = iter.remaining();
    let ghost start = acc.model();
    let mut it = iter;
    let mut acc = acc;
    let ghost done: Seq<I::Item> = Seq::empty();
    assert(models(done) =~= Seq::empty());
    assert(all =~= done + it.remaining());
    loop
        invariant
            it.obeys_prophetic_iter_laws(),
            it.decrease() is Some,
            all == done + it.remaining(),
            acc.model() == fold_models::<I::Item>(start, models(done)),
        ensures
            acc.model() == fold_models::<I::Item>(start, models(all)),
        decreases it.decrease()->0,
    {
        match it.next() {
            Some(x) => {
                proof {
                    assert(models(done.push(x)) =~= models(done).push(x.model()));
                    assert(models(done.push(x)).drop_last() =~= models(done));
                    assert(all =~= done.push(x) + it.remaining());
                    done = done.push(x);
                }
                acc = acc.combine(x);
            },
            None => {
                assert(done =~= all);
                break ;
            },
        }
    }
    acc
}

/// Maps every value that `iter` yields through `f` and combines the
/// results onto `acc`. The results are those that `f`'s contract allows.
fn fold_map_onto<I: Iterator, A: Semigroup, F: Fn(I::Item) -> A>(iter: I, acc: A, f: F) -> (r: A)
    requires
        iter.obeys_prophetic_iter_laws(),
        iter.decrease() is Some,
        forall|i: int| 0 <= i < iter.remaining().len() ==> f.requires((iter.remaining()[i],)),
    ensures
        exists|ys: Seq<A>|
            {
                &&& ys.len() == iter.remaining().len()
                &&& forall|i: int|
                    0 <= i < ys.len() ==> f.ensures((iter.remaining()[i],), #[trigger] ys[i])
                &&& r.model() == fold_models::<A>(acc.model(), models(ys))
            },
{
    let ghost all = iter.remaining();
    let ghost start = acc.model();
    let mut it = iter;
    let mut acc = acc;
    let ghost done: Seq<I::Item> = Seq::empty();
    let ghost ys: Seq<A> = Seq::empty();
    assert(models(ys) =~= Seq::empty());
    assert(all =~= done + it.remaining());
    loop
        invariant
            it.obeys_prophetic_iter_laws(),
            it.decrease() is Some,
            all == done + it.remaining(),
            forall|i: int| 0 <= i < all.len() ==> f.requires((all[i],)),
            ys.len() == done.len(),
            forall|i: int| 0 <= i < ys.len() ==> f.ensures((done[i],), #[trigger] ys[i]),
            acc.model() == fold_models::<A>(start, models(ys)),
        ensures
            ys.len() == all.len(),
            forall|i: int| 0 <= i < ys.len() ==> f.ensures((all[i],), #[trigger] ys[i]),
            acc.model() == fold_models::<A>(start, models(ys)),
        decreases it.decrease()->0,
    {
        match it.next() {
            Some(x) => {
                proof {
                    assert(all[done.len() as int] == x);
                }
                let y = f(x);
                proof {
                    assert(models(ys.push(y)) =~= models(ys).push(y.model()));
                    assert(models(ys.push(y)).drop_last() =~= models(ys));
                    assert(all =~= done.push(x) + it.remaining());
                    done = done.push(x);
                    ys = ys.push(y);
                }
                acc = acc.combine(y);
            },
            None => {
                assert(done =~= all);
                break ;
            },
        }
    }
    acc
}

/// Pushes every value that `iter` yields onto the reducer `acc` with
/// `combine_right`.
fn reduce_onto<I: Iterator, R: Reducer<I::Item>>(iter: I, acc: R) -> (r: R)
    requires
        iter.obeys_prophetic_iter_laws(),
        iter.decrease() is Some,
    ensures
        r.model() == fold_models::<R>(acc.model(), injects::<I::Item, R>(iter.remaining())),
{
    let ghost all = iter.remaining();
    let ghost start = acc.model();
    let mut it = iter;
    let mut acc = acc;
    let ghost done: Seq<I::Item> = Seq::empty();
    assert(injects::<I::Item, R>(done) =~= Seq::empty());
    assert(all =~= done + it.remaining());
    loop
        invariant
            it.obeys_prophetic_iter_laws(),
            it.decrease() is Some,
            all == done + it.remaining(),
            acc.model() == fold_models::<R>(start, injects::<I::Item, R>(done)),
        ensures
            acc.model() == fold_models::<R>(start, injects::<I::Item, R>(all)),
        decreases it.decrease()->0,
    {
        match it.next() {
            Some(x) => {
                proof {
                    let ms = injects::<I::Item, R>(done.push(x));
                    assert(ms =~= injects::<I::Item, R>(done).push(R::inject(x)));
                    assert(ms.drop_last() =~= injects::<I::Item, R>(done));
                    assert(all =~= done.push(x) + it.remaining());
                    done = done.push(x);
                }
                acc = acc.combine_right(x);
            },
            None => {
                assert(done =~= all);
                break ;
            },
        }
    }
    acc
}

/// Folds over iterators through the combining-operation contracts.
///
/// Each method drains the iterator from left to right. It asks of the
/// iterator that its `next` follows vstd's iterator laws and that it has
/// a termination measure, as the iterator of `Vec::into_iter` does.
pub trait IteratorFoldExt: Iterator + Sized {
    /// Combines the values from left to right, starting from the unit.
    ///
    /// Returns `Monoid::unit()` on an empty sequence.
    fn fold_monoid(self) -> (r: Self::Item) where Self::Item: Monoid
        requires
            self.obeys_prophetic_iter_laws(),
            self.decrease() is Some,
        ensures
            r.model() == fold_models::<Self::Item>(
                <Self::Item as Monoid>::spec_unit(),
                models(self.remaining()),
            ),
    {
        fold_onto(self, <Self::Item as Monoid>::unit())
    }

    /// Combines the values from left to right, starting from the first;
    /// `None` on an empty sequence.
    fn fold_nonempty(self) -> (r: Option<Self::Item>) where Self::Item: Semigroup
        requires
            self.obeys_prophetic_iter_laws(),
            self.decrease() is Some,
        ensures
            self.remaining().len() == 0 ==> r is None,
            self.remaining().len() > 0 ==> r is Some && r->0.model() == fold_models::<Self::Item>(
                self.remaining()[0].model(),
                models(self.remaining().drop_first()),
            ),
    {
        let mut it = self;
        match it.next() {
            None => None,
            Some(first) => Some(fold_onto(it, first)),
        }
    }

    /// Maps each value through `f`, then combines the results from left to
    /// right, starting from the unit.
    ///
    /// The results are any that `f`'s contract allows for the values.
    fn fold_map<A: Monoid, F: Fn(Self::Item) -> A>(self, f: F) -> (r: A)
        requires
            self.obeys_prophetic_iter_laws(),
            self.decrease() is Some,
            forall|i: int| 0 <= i < self.remaining().len() ==> f.requires((self.remaining()[i],)),
        ensures
            exists|ys: Seq<A>|
                {
                    &&& ys.len() == self.remaining().len()
                    &&& forall|i: int|
                        0 <= i < ys.len() ==> f.ensures((self.remaining()[i],), #[trigger] ys[i])
                    &&& r.model() == fold_models::<A>(A::spec_unit(), models(ys))
                },
    {
        fold_map_onto(self, A::unit(), f)
    }

    /// Maps each value through `f`, then combines the results from left to
    /// right, starting from the first; `None` on an empty sequence.
    fn fold_map_nonempty<A: Semigroup, F: Fn(Self::Item) -> A>(self, f: F) -> (r: Option<A>)
        requires
            self.obeys_prophetic_iter_laws(),
            self.decrease() is Some,
            forall|i: int| 0 <= i < self.remaining().len() ==> f.requires((self.remaining()[i],)),
        ensures
            self.remaining().len() == 0 ==> r is None,
            self.remaining().len() > 0 ==> r is Some && exists|ys: Seq<A>|
                {
                    &&& ys.len() == self.remaining().len()
                    &&& forall|i: int|
                        0 <= i < ys.len() ==> f.ensures((self.remaining()[i],), #[trigger] ys[i])
                    &&& r->0.model() == fold_models::<A>(ys[0].model(), models(ys.drop_first()))
                },
    {
        let ghost all = self.remaining();
        let mut it = self;
        match it.next() {
            None => None,
            Some(first) => {
                let y = f(first);
                let r = fold_map_onto(it, y, f);
                proof {
                    let zs = choose|zs: Seq<A>|
                        {
                            &&& zs.len() == it.remaining().len()
                            &&& forall|i: int|
                                0 <= i < zs.len() ==> f.ensures(
                                    (it.remaining()[i],),
                                    #[trigger] zs[i],
                                )
                            &&& r.model() == fold_models::<A>(y.model(), models(zs))
                        };
                    let ys = seq![y].add(zs);
                    assert(ys.drop_first() =~= zs);
                    assert forall|i: int| 0 <= i < ys.len() implies f.ensures(
                        (all[i],),
                        #[trigger] ys[i],
                    ) by {
                        if i > 0 {
                            assert(ys[i] == zs[i - 1]);
                        }
                    }
                }
                Some(r)
            },
        }
    }

    /// Folds the values through the reducer `R`: the first seeds it with
    /// `Reducer::unit`, the rest are pushed with `combine_right`.
    ///
    /// Returns `Monoid::unit()` on an empty sequence.
    fn fold_reduce<R: Reducer<Self::Item> + Monoid>(self) -> (r: R)
        requires
            self.obeys_prophetic_iter_laws(),
            self.decrease() is Some,
        ensures
            self.remaining().len() == 0 ==> r.model() == R::spec_unit(),
            self.remaining().len() > 0 ==> r.model() == fold_models::<R>(
                R::inject(self.remaining()[0]),
                injects::<Self::Item, R>(self.remaining().drop_first()),
            ),
    {
        let mut it = self;
        match it.next() {
            None => <R as Monoid>::unit(),
            Some(first) => reduce_onto(it, <R as Reducer<Self::Item>>::unit(first)),
        }
    }

    /// Folds the values through the reducer `R` as `fold_reduce` does;
    /// `None` on an empty sequence.
    fn fold_reduce_nonempty<R: Reducer<Self::Item>>(self) -> (r: Option<R>)
        requires
            self.obeys_prophetic_iter_laws(),
            self.decrease() is Some,
        ensures
            self.remaining().len() == 0 ==> r is None,
            self.remaining().len() > 0 ==> r is Some && r->0.model() == fold_models::<R>(
                R::inject(self.remaining()[0]),
                injects::<Self::Item, R>(self.remaining().drop_first()),
            ),
    {
        let mut it = self;
        match it.next() {
            None => None,
            Some(first) => Some(reduce_onto(it, <R as Reducer<Self::Item>>::unit(first))),
        }
    }
}

impl<I: Iterator> IteratorFoldExt for I {

}

} // verus!
