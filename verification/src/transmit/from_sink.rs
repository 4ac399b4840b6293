//! The sink-bridge adapter: a transmitter over a buffer-then-flush
//! acceptance capability, flushing after every item.

use core::marker::PhantomData;
use vstd::prelude::*;

use crate::transmit::sink::Sink;
use crate::transmit::Transmit;

verus! {

/// Transmitter over any [`Sink`]: each call submits one item into the
/// sink's buffer and then drives a complete flush, so the item is fully
/// accepted by the peer before success is reported. A failure reports the
/// sink's own error, unchanged, and delivers nothing beyond what an
/// interrupted flush had already moved.
#[derive(Debug)]
pub struct FromSink<S, I> {
    sink: S,
    phantom: PhantomData<I>,
}

impl<S, I> FromSink<S, I> where S: Sink<I> {
    /// The wrapped sink, as a mathematical value.
    pub closed spec fn spec_sink(&self) -> S {
        self.sink
    }

    /// The bridge over a given sink, as a mathematical value.
    pub closed spec fn spec_new(sink: S) -> Self {
        FromSink { sink, phantom: PhantomData }
    }

    /// Wraps a sink as a transmitter.
    pub fn new(sink: S) -> (t: Self)
        ensures
            t.spec_sink() == sink,
    {
        Self { sink, phantom: PhantomData }
    }

    /// Consumes this transmit, returning the underlying sink.
    pub fn into_inner(self) -> (s: S)
        ensures
            s == self.spec_sink(),
    {
        self.sink
    }

    /// Acquires a reference to the underlying sink that this
    /// transmit is pulling from.
    pub fn get_ref(&self) -> (s: &S)
        ensures
            *s == self.spec_sink(),
    {
        &self.sink
    }

    /// Acquires a mutable reference to the underlying sink that
    /// this transmit is pulling from.
    pub fn get_mut(&mut self) -> (s: &mut S)
        ensures
            *s == old(self).spec_sink(),
            final(self).spec_sink() == *final(s),
    {
        &mut self.sink
    }
}

impl<S, I> From<S> for FromSink<S, I> where S: Sink<I> {
    fn from(sink: S) -> (t: Self) {
        Self::new(sink)
    }
}

impl<S, I> vstd::std_specs::convert::FromSpecImpl<S> for FromSink<S, I> where S: Sink<I> {
    open spec fn obeys_from_spec() -> bool {
        true
    }

    open spec fn from_spec(sink: S) -> Self {
        FromSink::spec_new(sink)
    }
}

impl<S, I> Transmit for FromSink<S, I> where S: Sink<I> {
    type Item = I;

    type Error = S::Error;

    open spec fn transmit_req(&self, item: I) -> bool {
        self.spec_sink().submit_req(item)
    }

    open spec fn transmit_post(pre: Self, item: I, post: Self, r: Result<(), S::Error>) -> bool {
        &&& r is Ok ==> {
            &&& post.spec_sink().flushed() == pre.spec_sink().flushed()
                + pre.spec_sink().buffered().push(item)
            &&& post.spec_sink().buffered() == Seq::<I>::empty()
            &&& forall|j: I| post.spec_sink().submit_ok(j) <==> pre.spec_sink().submit_ok(j)
            &&& (post.spec_sink().flush_ok() <==> pre.spec_sink().flush_ok())
            &&& exists|mid: S|
                #[trigger] S::submit_post(pre.spec_sink(), item, mid, Ok(())) && S::flush_post(
                    mid,
                    post.spec_sink(),
                    Ok(()),
                )
        }
        &&& r matches Err(e) ==> {
            ||| S::submit_post(pre.spec_sink(), item, post.spec_sink(), Err(e))
            ||| exists|mid: S|
                #[trigger] S::submit_post(pre.spec_sink(), item, mid, Ok(())) && S::flush_post(
                    mid,
                    post.spec_sink(),
                    Err(e),
                )
        }
        &&& r is Err ==> exists|n: int|
            0 <= n <= pre.spec_sink().buffered().push(item).len() && post.spec_sink().flushed()
                == pre.spec_sink().flushed() + pre.spec_sink().buffered().push(item).take(n)
        &&& pre.spec_sink().submit_ok(item) && pre.spec_sink().flush_ok() ==> r is Ok
    }

    fn transmit(&mut self, item: I) -> (r: Result<(), S::Error>) {
        let ghost gitem = item;
        let rs = self.sink.submit(item);
        match rs {
            Ok(u) => {
                proof {
                    assert(u == ());
                    assert(rs == Ok::<(), S::Error>(()));
                }
            },
            Err(e) => {
                proof {
                    let pending = old(self).spec_sink().buffered().push(gitem);
                    assert(self.spec_sink().flushed() =~= old(self).spec_sink().flushed()
                        + pending.take(0));
                }
                return Err(e);
            },
        }
        let ghost mid = self.sink;
        let rf = self.sink.flush();
        match rf {
            Ok(u) => {
                proof {
                    assert(u == ());
                    assert(S::submit_post(old(self).spec_sink(), gitem, mid, Ok(())));
                    assert(S::flush_post(mid, self.spec_sink(), Ok(())));
                }
                Ok(())
            },
            Err(e) => {
                proof {
                    assert(S::submit_post(old(self).spec_sink(), gitem, mid, Ok(())));
                    assert(S::flush_post(mid, self.spec_sink(), Err(e)));
                }
                Err(e)
            },
        }
    }
}

/// Building the bridge over a sink, by `new`, by `from` or by
/// [`from_sink`](crate::from_sink), wraps exactly that sink.
pub proof fn lemma_from_sink_wraps_sink<S, I>(sink: S) where S: Sink<I>
    ensures
        FromSink::<S, I>::spec_new(sink).spec_sink() == sink,
{
}

/// Order preservation across the bridge: starting from an empty buffer, two
/// successful transmits are accepted by the peer in call order, the first
/// item directly before the second.
pub proof fn lemma_from_sink_transmit_order<S, I>(
    pre: FromSink<S, I>,
    mid: FromSink<S, I>,
    post: FromSink<S, I>,
    a: I,
    b: I,
    ra: Result<(), S::Error>,
    rb: Result<(), S::Error>,
) where S: Sink<I>
    requires
        FromSink::transmit_post(pre, a, mid, ra),
        FromSink::transmit_post(mid, b, post, rb),
        ra is Ok,
        rb is Ok,
        pre.spec_sink().buffered() == Seq::<I>::empty(),
    ensures
        post.spec_sink().flushed() == pre.spec_sink().flushed() + seq![a, b],
{
    assert(post.spec_sink().flushed() =~= pre.spec_sink().flushed() + seq![a, b]);
}

/// No spurious value on failure: after a failed transmit the peer observes
/// at most a prefix of what was pending, in order, and never anything else.
/// Which phase failed, and with which of the sink's own errors, the
/// `Err` case of `transmit_post` pins through the sink's relations.
pub proof fn lemma_from_sink_err_no_spurious<S, I>(
    pre: FromSink<S, I>,
    item: I,
    post: FromSink<S, I>,
    r: Result<(), S::Error>,
) where S: Sink<I>
    requires
        FromSink::transmit_post(pre, item, post, r),
        r is Err,
    ensures
        exists|n: int|
            0 <= n <= pre.spec_sink().buffered().push(item).len() && post.spec_sink().flushed()
                == pre.spec_sink().flushed() + pre.spec_sink().buffered().push(item).take(n),
{
}

/// Sink-bridge law: a successful transmit of `item` is exactly a submission
/// of `item` followed by a complete flush: afterwards the sink's buffer is
/// empty, and everything it held, then `item`, has been accepted by the
/// peer.
pub proof fn lemma_from_sink_flushes<S, I>(
    pre: FromSink<S, I>,
    item: I,
    post: FromSink<S, I>,
    r: Result<(), S::Error>,
) where S: Sink<I>
    requires
        FromSink::transmit_post(pre, item, post, r),
        r is Ok,
    ensures
        post.spec_sink().flushed() == pre.spec_sink().flushed()
            + pre.spec_sink().buffered().push(item),
        post.spec_sink().buffered().len() == 0,
{
}

} // verus!
