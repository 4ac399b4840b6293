//! The error-transform adapter: a transmitter that maps the first failure of
//! an inner transmitter through a single-use function.

use vstd::prelude::*;

use crate::transmit::Transmit;

verus! {

/// Transmitter that wraps an inner transmitter and a single-use
/// error-mapping function. Items are forwarded unchanged; on the first
/// failure the stored function is consumed and applied to the inner error.
///
/// The mapping function is usable exactly once: it is taken out of its slot
/// on the first failure and never put back. Invoking `transmit` again once
/// the slot is empty is a usage error, ruled out by `transmit_req`; an
/// unverified caller that does so anyway aborts instead of delivering a
/// wrongly mapped error.
pub struct TransmitMapErr<T, F> {
    inner: T,
    f: Option<F>,
}

impl<T, F> TransmitMapErr<T, F> {
    /// The inner transmitter, as a mathematical value.
    pub closed spec fn spec_inner(&self) -> T {
        self.inner
    }

    /// The slot holding the error-mapping function, as a mathematical value.
    pub closed spec fn spec_f(&self) -> Option<F> {
        self.f
    }

    /// Builds the adapter from an inner transmitter and an error-mapping
    /// function.
    pub fn new(inner: T, f: F) -> (t: Self)
        ensures
            t.spec_inner() == inner,
            t.spec_f() == Some(f),
    {
        Self { inner, f: Some(f) }
    }

    /// Consumes this combinator, returning the underlying transmit.
    pub fn into_inner(self) -> (t: T)
        ensures
            t == self.spec_inner(),
    {
        self.inner
    }

    /// Acquires a reference to the underlying transmit that this
    /// combinator is pulling from.
    pub fn get_ref(&self) -> (t: &T)
        ensures
            *t == self.spec_inner(),
    {
        &self.inner
    }

    /// Acquires a mutable reference to the underlying transmit that
    /// this combinator is pulling from.
    pub fn get_mut(&mut self) -> (t: &mut T)
        ensures
            *t == old(self).spec_inner(),
            final(self).spec_inner() == *final(t),
            final(self).spec_f() == old(self).spec_f(),
    {
        &mut self.inner
    }

    /// Takes the error-mapping function out of its slot; the slot must still
    /// be full. An unverified caller that reaches this with an empty slot
    /// aborts.
    fn take_f(&mut self) -> (f: F)
        requires
            old(self).spec_f() is Some,
        ensures
            f == old(self).spec_f().unwrap(),
            final(self).spec_f() is None,
            final(self).spec_inner() == old(self).spec_inner(),
    {
        self.f.take().expect("polled TransmitMapErr after completion")
    }
}

impl<T, F, E> Transmit for TransmitMapErr<T, F> where T: Transmit, F: FnOnce(T::Error) -> E {
    type Item = T::Item;

    type Error = E;

    open spec fn transmit_req(&self, item: T::Item) -> bool {
        &&& self.spec_f() is Some
        &&& self.spec_inner().transmit_req(item)
        &&& forall|ei: T::Error| call_requires(self.spec_f().unwrap(), (ei,))
    }

    open spec fn transmit_post(pre: Self, item: T::Item, post: Self, r: Result<(), E>) -> bool {
        match r {
            Ok(()) => {
                &&& T::transmit_post(pre.spec_inner(), item, post.spec_inner(), Ok(()))
                &&& post.spec_f() == pre.spec_f()
            },
            Err(e) => {
                &&& exists|ei: T::Error|
                    #[trigger] T::transmit_post(pre.spec_inner(), item, post.spec_inner(), Err(ei))
                        && call_ensures(pre.spec_f().unwrap(), (ei,), e)
                &&& post.spec_f() is None
            },
        }
    }

    fn transmit(&mut self, item: T::Item) -> (r: Result<(), E>) {
        let ghost gitem = item;
        let ri = self.inner.transmit(item);
        match ri {
            Ok(u) => {
                proof {
                    assert(u == ());
                    assert(ri == Ok::<(), T::Error>(()));
                }
                Ok(())
            },
            Err(e) => {
                let ghost ge = e;
                let f = self.take_f();
                let e2 = f(e);
                proof {
                    assert(T::transmit_post(
                        old(self).spec_inner(),
                        gitem,
                        self.spec_inner(),
                        Err(ge),
                    ));
                    assert(call_ensures(old(self).spec_f().unwrap(), (ge,), e2));
                }
                Err(e2)
            },
        }
    }
}

/// Error-transform law, failure side: on the first failure, when the mapping
/// function computes `gspec`, the reported error is `gspec` applied to the
/// error of the inner transmitter, and the mapping function is consumed.
pub proof fn lemma_map_err_first_failure<T, F, E>(
    pre: TransmitMapErr<T, F>,
    item: T::Item,
    post: TransmitMapErr<T, F>,
    r: Result<(), E>,
    gspec: spec_fn(T::Error) -> E,
) where T: Transmit, F: FnOnce(T::Error) -> E
    requires
        pre.spec_f() is Some,
        forall|x: T::Error, y: E| call_ensures(pre.spec_f().unwrap(), (x,), y) ==> y == gspec(x),
    ensures
        r is Err && TransmitMapErr::transmit_post(pre, item, post, r) ==> {
            &&& exists|ei: T::Error|
                #[trigger] T::transmit_post(pre.spec_inner(), item, post.spec_inner(), Err(ei))
                    && r->Err_0 == gspec(ei)
            &&& post.spec_f() is None
        },
{
    if r is Err && TransmitMapErr::transmit_post(pre, item, post, r) {
        let ei = choose|ei: T::Error|
            #[trigger] T::transmit_post(pre.spec_inner(), item, post.spec_inner(), Err(ei))
                && call_ensures(pre.spec_f().unwrap(), (ei,), r->Err_0);
        assert(r->Err_0 == gspec(ei));
    }
}

/// Error-transform law, success side: on success the item went through the
/// inner transmitter unchanged and the mapping function was left untouched.
pub proof fn lemma_map_err_success<T, F, E>(
    pre: TransmitMapErr<T, F>,
    item: T::Item,
    post: TransmitMapErr<T, F>,
    r: Result<(), E>,
) where T: Transmit, F: FnOnce(T::Error) -> E
    ensures
        r is Ok && TransmitMapErr::transmit_post(pre, item, post, r) ==> {
            &&& T::transmit_post(pre.spec_inner(), item, post.spec_inner(), Ok(()))
            &&& post.spec_f() == pre.spec_f()
        },
{
}

} // verus!
