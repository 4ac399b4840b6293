//! The item-transform adapter: a transmitter that maps each item before
//! forwarding it to an inner transmitter.

use core::marker::PhantomData;
use vstd::prelude::*;

use crate::transmit::Transmit;

verus! {

/// Transmitter for the [`with`](crate::TransmitExt::with) combinator: owns an
/// inner transmitter and a mapping function, and converts every item with
/// the function before handing it to the inner transmitter. Errors of the
/// inner transmitter pass through unmodified.
pub struct With<T, F, I, U, E> {
    inner: T,
    f: F,
    phantom: PhantomData<(I, U, E)>,
}

impl<T, F, I, U, E> With<T, F, I, U, E> where
    T: Transmit<Item = I, Error = E>,
    F: Fn(U) -> I,
 {
    /// The inner transmitter, as a mathematical value.
    pub closed spec fn spec_inner(&self) -> T {
        self.inner
    }

    /// The mapping function, as a mathematical value.
    pub closed spec fn spec_f(&self) -> F {
        self.f
    }

    /// Builds the adapter from an inner transmitter and a mapping function.
    pub fn new(inner: T, f: F) -> (t: Self)
        ensures
            t.spec_inner() == inner,
            t.spec_f() == f,
    {
        Self { inner, f, phantom: PhantomData }
    }

    /// Consumes this combinator, returning the underlying transmit.
    pub fn into_inner(self) -> (t: T)
        ensures
            t == self.spec_inner(),
    {
        self.inner
    }

    /// Acquires a reference to the underlying transmit that this
    /// combinator is pulling from.
    pub fn get_ref(&self) -> (t: &T)
        ensures
            *t == self.spec_inner(),
    {
        &self.inner
    }

    /// Acquires a mutable reference to the underlying transmit that
    /// this combinator is pulling from.
    pub fn get_mut(&mut self) -> (t: &mut T)
        ensures
            *t == old(self).spec_inner(),
            final(self).spec_inner() == *final(t),
            final(self).spec_f() == old(self).spec_f(),
    {
        &mut self.inner
    }
}

impl<T, F, I, U, E> Transmit for With<T, F, I, U, E> where
    T: Transmit<Item = I, Error = E>,
    F: Fn(U) -> I,
 {
    type Item = U;

    type Error = E;

    open spec fn transmit_req(&self, item: U) -> bool {
        &&& call_requires(self.spec_f(), (item,))
        &&& forall|i: I|
            call_ensures(self.spec_f(), (item,), i) ==> self.spec_inner().transmit_req(i)
    }

    open spec fn transmit_post(pre: Self, item: U, post: Self, r: Result<(), E>) -> bool {
        &&& post.spec_f() == pre.spec_f()
        &&& exists|i: I|
            #[trigger] call_ensures(pre.spec_f(), (item,), i) && T::transmit_post(
                pre.spec_inner(),
                i,
                post.spec_inner(),
                r,
            )
    }

    fn transmit(&mut self, item: U) -> (r: Result<(), E>) {
        let ghost gitem = item;
        let i = (self.f)(item);
        proof {
            assert(call_ensures(old(self).spec_f(), (gitem,), i));
            assert(old(self).spec_inner().transmit_req(i));
        }
        self.inner.transmit(i)
    }
}

/// Establishes the precondition of a transmit through the adapter: the
/// mapping function accepts the item, and the inner transmitter accepts
/// whatever the function may turn it into.
pub proof fn lemma_with_transmit_req<T, F, I, U, E>(
    w: With<T, F, I, U, E>,
    item: U,
) where T: Transmit<Item = I, Error = E>, F: Fn(U) -> I
    requires
        call_requires(w.spec_f(), (item,)),
        forall|i: I| call_ensures(w.spec_f(), (item,), i) ==> w.spec_inner().transmit_req(i),
    ensures
        w.transmit_req(item),
{
}

/// Item-transform law: when the mapping function computes `fspec`, a
/// transmit of `item` through the adapter is exactly a transmit of
/// `fspec(item)` through the inner transmitter, with the mapping function
/// left in place.
pub proof fn lemma_with_transmits_mapped_item<T, F, I, U, E>(
    pre: With<T, F, I, U, E>,
    item: U,
    post: With<T, F, I, U, E>,
    r: Result<(), E>,
    fspec: spec_fn(U) -> I,
) where T: Transmit<Item = I, Error = E>, F: Fn(U) -> I
    requires
        forall|x: U, y: I| call_ensures(pre.spec_f(), (x,), y) ==> y == fspec(x),
    ensures
        With::transmit_post(pre, item, post, r) ==> {
            &&& T::transmit_post(pre.spec_inner(), fspec(item), post.spec_inner(), r)
            &&& post.spec_f() == pre.spec_f()
        },
{
    if With::transmit_post(pre, item, post, r) {
        let i = choose|i: I|
            #[trigger] call_ensures(pre.spec_f(), (item,), i) && T::transmit_post(
                pre.spec_inner(),
                i,
                post.spec_inner(),
                r,
            );
        assert(i == fspec(item));
    }
}

} // verus!
