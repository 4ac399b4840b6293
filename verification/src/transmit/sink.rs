//! The acceptance capability: a two-phase, buffer-then-flush interface for
//! accepting items, together with an in-memory model of it.

use vstd::prelude::*;

use crate::transmit::queue::SendError;

verus! {

/// A two-phase acceptance capability: items are first submitted into a
/// buffer, and a flush then drives every buffered item to the peer.
///
/// Implementors fix the meaning of their two operations through the spec
/// functions: `buffered` and `flushed` are the items sitting in the buffer
/// and the items fully accepted by the peer, both oldest first. A submission
/// never delivers anything by itself; only a flush moves the buffer to the
/// peer, and a failed flush delivers at most a prefix of it, never anything
/// else. `submit_ok` and `flush_ok` say in which states each operation is
/// owed to succeed; a successful operation leaves both as they were.
/// `submit_post` and `flush_post` let each implementor pin its calls further,
/// in particular which error a refused operation reports.
pub trait Sink<I>: Sized {
    type Error;

    /// The items submitted so far and not yet flushed, oldest first.
    spec fn buffered(&self) -> Seq<I>;

    /// The items fully accepted by the peer so far, oldest first.
    spec fn flushed(&self) -> Seq<I>;

    /// When `submit` may be invoked with this item.
    spec fn submit_req(&self, item: I) -> bool;

    /// When a submission is owed to succeed.
    spec fn submit_ok(&self, item: I) -> bool;

    /// When a flush is owed to succeed.
    spec fn flush_ok(&self) -> bool;

    /// The relation between the state before a call to `submit`, the item,
    /// the state after, and the outcome, as this implementor pins it.
    spec fn submit_post(pre: Self, item: I, post: Self, r: Result<(), Self::Error>) -> bool;

    /// The relation between the state before a call to `flush`, the state
    /// after, and the outcome, as this implementor pins it.
    spec fn flush_post(pre: Self, post: Self, r: Result<(), Self::Error>) -> bool;

    /// Places one item at the end of the buffer, without delivering it. A
    /// failed submission leaves both the buffer and the peer's view as they
    /// were.
    fn submit(&mut self, item: I) -> (r: Result<(), Self::Error>)
        requires
            old(self).submit_req(item),
        ensures
            r is Ok ==> final(self).buffered() == old(self).buffered().push(item),
            r is Ok ==> final(self).flushed() == old(self).flushed(),
            r is Err ==> final(self).buffered() == old(self).buffered(),
            r is Err ==> final(self).flushed() == old(self).flushed(),
            old(self).submit_ok(item) ==> r is Ok,
            r is Ok ==> (forall|j: I| final(self).submit_ok(j) <==> old(self).submit_ok(j)),
            r is Ok ==> (final(self).flush_ok() <==> old(self).flush_ok()),
            Self::submit_post(*old(self), item, *final(self), r),
    ;

    /// Drives every buffered item to the peer, in order. A failed flush
    /// delivers at most a prefix of the buffer and keeps the rest.
    fn flush(&mut self) -> (r: Result<(), Self::Error>)
        ensures
            r is Ok ==> final(self).flushed() == old(self).flushed() + old(self).buffered(),
            r is Ok ==> final(self).buffered() == Seq::<I>::empty(),
            r is Err ==> exists|n: int|
                0 <= n <= old(self).buffered().len()
                    && final(self).flushed() == old(self).flushed() + old(self).buffered().take(n)
                    && final(self).buffered() == old(self).buffered().skip(n),
            old(self).flush_ok() ==> r is Ok,
            r is Ok ==> (forall|j: I| final(self).submit_ok(j) <==> old(self).submit_ok(j)),
            r is Ok ==> (final(self).flush_ok() <==> old(self).flush_ok()),
            Self::flush_post(*old(self), *final(self), r),
    ;
}

/// An in-memory acceptance capability: submissions are buffered in a vector
/// and a flush appends them to a second vector standing for the peer. It
/// models the sink side of an in-process channel: while the receiving side
/// is present every operation succeeds; once it is gone, submissions are
/// rejected with [`SendError`] carrying the item back.
pub struct BufferSink<I> {
    buffered: Vec<I>,
    flushed: Vec<I>,
    accepting: bool,
}

impl<I> BufferSink<I> {
    /// The buffered items, as a mathematical sequence.
    pub closed spec fn spec_buffered(&self) -> Seq<I> {
        self.buffered@
    }

    /// The delivered items, as a mathematical sequence.
    pub closed spec fn spec_flushed(&self) -> Seq<I> {
        self.flushed@
    }

    /// Whether the receiving side is still present.
    pub closed spec fn spec_accepting(&self) -> bool {
        self.accepting
    }

    /// Creates an empty sink whose receiving side is present.
    pub fn new() -> (s: Self)
        ensures
            s.spec_buffered() == Seq::<I>::empty(),
            s.spec_flushed() == Seq::<I>::empty(),
            s.spec_accepting(),
    {
        Self { buffered: Vec::new(), flushed: Vec::new(), accepting: true }
    }

    /// Models the receiving side going away: later submissions are rejected.
    pub fn close(&mut self)
        ensures
            final(self).spec_buffered() == old(self).spec_buffered(),
            final(self).spec_flushed() == old(self).spec_flushed(),
            !final(self).spec_accepting(),
    {
        self.accepting = false;
    }

    /// The items delivered to the peer so far, oldest first.
    pub fn flushed_items(&self) -> (v: &Vec<I>)
        ensures
            v@ == self.spec_flushed(),
    {
        &self.flushed
    }

    /// Consumes the sink, returning what was delivered to the peer.
    pub fn into_flushed(self) -> (v: Vec<I>)
        ensures
            v@ == self.spec_flushed(),
    {
        self.flushed
    }
}

impl<I> Sink<I> for BufferSink<I> {
    type Error = SendError<I>;

    open spec fn buffered(&self) -> Seq<I> {
        self.spec_buffered()
    }

    open spec fn flushed(&self) -> Seq<I> {
        self.spec_flushed()
    }

    open spec fn submit_req(&self, item: I) -> bool {
        true
    }

    open spec fn submit_ok(&self, item: I) -> bool {
        self.spec_accepting()
    }

    open spec fn flush_ok(&self) -> bool {
        true
    }

    open spec fn submit_post(pre: Self, item: I, post: Self, r: Result<(), SendError<I>>) -> bool {
        if pre.spec_accepting() {
            &&& r == Ok::<(), SendError<I>>(())
            &&& post.spec_buffered() == pre.spec_buffered().push(item)
            &&& post.spec_flushed() == pre.spec_flushed()
            &&& post.spec_accepting()
        } else {
            &&& r == Err::<(), SendError<I>>(SendError(item))
            &&& post == pre
        }
    }

    open spec fn flush_post(pre: Self, post: Self, r: Result<(), SendError<I>>) -> bool {
        &&& r == Ok::<(), SendError<I>>(())
        &&& post.spec_flushed() == pre.spec_flushed() + pre.spec_buffered()
        &&& post.spec_buffered() == Seq::<I>::empty()
        &&& post.spec_accepting() == pre.spec_accepting()
    }

    fn submit(&mut self, item: I) -> (r: Result<(), Self::Error>) {
        if self.accepting {
            self.buffered.push(item);
            Ok(())
        } else {
            Err(SendError(item))
        }
    }

    fn flush(&mut self) -> (r: Result<(), Self::Error>) {
        self.flushed.append(&mut self.buffered);
        Ok(())
    }
}

} // verus!
