//! An in-process FIFO queue transmitter, modelling a channel sender binding.

use vstd::prelude::*;

use crate::transmit::Transmit;

verus! {

/// The error returned when the receiving side of a transport is gone; it
/// carries the rejected item back to the caller.
#[derive(Clone, Copy, Debug, PartialEq, Eq)]
pub struct SendError<I>(pub I);

/// An in-process FIFO queue transmitter. It models a channel sender: while
/// the receiving side is present every item is accepted and appended to the
/// queue, in call order; once the receiving side is gone, every item is
/// rejected with [`SendError`] carrying it back.
pub struct QueueTransmitter<I> {
    items: Vec<I>,
    accepting: bool,
}

impl<I> QueueTransmitter<I> {
    /// The items accepted so far, oldest first, as the receiving side
    /// observes them.
    pub closed spec fn spec_items(&self) -> Seq<I> {
        self.items@
    }

    /// Whether the receiving side is still present.
    pub closed spec fn spec_accepting(&self) -> bool {
        self.accepting
    }

    /// Creates an empty queue whose receiving side is present.
    pub fn new() -> (q: Self)
        ensures
            q.spec_items() == Seq::<I>::empty(),
            q.spec_accepting(),
    {
        Self { items: Vec::new(), accepting: true }
    }

    /// Models the receiving side going away: later items are rejected.
    pub fn close(&mut self)
        ensures
            final(self).spec_items() == old(self).spec_items(),
            !final(self).spec_accepting(),
    {
        self.accepting = false;
    }

    /// The items accepted so far, oldest first.
    pub fn items(&self) -> (v: &Vec<I>)
        ensures
            v@ == self.spec_items(),
    {
        &self.items
    }

    /// Consumes the queue, returning the accepted items, oldest first.
    pub fn into_items(self) -> (v: Vec<I>)
        ensures
            v@ == self.spec_items(),
    {
        self.items
    }
}

impl<I> Transmit for QueueTransmitter<I> {
    type Item = I;

    type Error = SendError<I>;

    open spec fn transmit_req(&self, item: I) -> bool {
        true
    }

    open spec fn transmit_post(
        pre: Self,
        item: I,
        post: Self,
        r: Result<(), SendError<I>>,
    ) -> bool {
        if pre.spec_accepting() {
            &&& r == Ok::<(), SendError<I>>(())
            &&& post.spec_items() == pre.spec_items().push(item)
            &&& post.spec_accepting()
        } else {
            &&& r == Err::<(), SendError<I>>(SendError(item))
            &&& post == pre
        }
    }

    fn transmit(&mut self, item: I) -> (r: Result<(), SendError<I>>) {
        if self.accepting {
            self.items.push(item);
            Ok(())
        } else {
            Err(SendError(item))
        }
    }
}

/// Once the receiving side is gone, the receiving side never observes a
/// spurious value: a transmit leaves the queue exactly as it was and hands
/// the item back in the error.
pub proof fn lemma_closed_queue_rejects<I>(
    pre: QueueTransmitter<I>,
    item: I,
    post: QueueTransmitter<I>,
    r: Result<(), SendError<I>>,
)
    requires
        QueueTransmitter::transmit_post(pre, item, post, r),
        !pre.spec_accepting(),
    ensures
        post == pre,
        r == Err::<(), SendError<I>>(SendError(item)),
{
}

/// Order preservation over a FIFO transport: two transmissions on the same
/// queue are observed by the receiving side in call order, the first item
/// directly before the second.
pub proof fn lemma_queue_transmit_order<I>(
    pre: QueueTransmitter<I>,
    mid: QueueTransmitter<I>,
    post: QueueTransmitter<I>,
    a: I,
    b: I,
    ra: Result<(), SendError<I>>,
    rb: Result<(), SendError<I>>,
)
    requires
        QueueTransmitter::transmit_post(pre, a, mid, ra),
        QueueTransmitter::transmit_post(mid, b, post, rb),
        ra is Ok,
        rb is Ok,
    ensures
        post.spec_items() == pre.spec_items() + seq![a, b],
{
    assert(post.spec_items() =~= pre.spec_items() + seq![a, b]);
}

} // verus!
