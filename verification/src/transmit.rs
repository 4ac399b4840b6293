//! The transmitter capability: one operation that delivers a single item to a
//! peer, reporting success or a typed error.

use vstd::prelude::*;

mod from_sink;
mod queue;
mod sink;
mod transmit_map_err;
mod with;

pub use from_sink::lemma_from_sink_err_no_spurious;
pub use from_sink::lemma_from_sink_flushes;
pub use from_sink::lemma_from_sink_transmit_order;
pub use from_sink::lemma_from_sink_wraps_sink;
pub use from_sink::FromSink;
pub use queue::lemma_closed_queue_rejects;
pub use queue::lemma_queue_transmit_order;
pub use queue::QueueTransmitter;
pub use queue::SendError;
pub use sink::BufferSink;
pub use sink::Sink;
pub use transmit_map_err::lemma_map_err_first_failure;
pub use transmit_map_err::lemma_map_err_success;
pub use transmit_map_err::TransmitMapErr;
pub use with::lemma_with_transmit_req;
pub use with::lemma_with_transmits_mapped_item;
pub use with::With;

verus! {

/// The `Transmit` trait allows for transmitting an item to a peer.
///
/// Implementors of the `Transmit` trait are called 'transmitters'.
///
/// Transmitters are defined by one required method, `transmit()`. The method
/// attempts to deliver some data to a peer, reporting whether the
/// transmission succeeded. Each implementor fixes the meaning of its calls
/// through two spec functions: `transmit_req` says in which states a call is
/// allowed, and `transmit_post` relates the state before a call, the item,
/// the state after, and the outcome.
pub trait Transmit: Sized {
    type Item;

    type Error;

    /// When `transmit` may be invoked in the current state with this item.
    spec fn transmit_req(&self, item: Self::Item) -> bool;

    /// The relation between the state before a call to `transmit`, the item
    /// handed over, the state after the call, and the outcome.
    spec fn transmit_post(
        pre: Self,
        item: Self::Item,
        post: Self,
        r: Result<(), Self::Error>,
    ) -> bool;

    /// Attempts to transmit a value to the peer. The item is moved into the
    /// call; on failure the caller receives the error and decides what to do
    /// next, no retry happens here.
    fn transmit(&mut self, item: Self::Item) -> (r: Result<(), Self::Error>)
        requires
            old(self).transmit_req(item),
        ensures
            Self::transmit_post(*old(self), item, *final(self), r),
    ;
}

/// An owned, indirect transmitter is itself a transmitter, by forwarding
/// every call to the boxed value.
impl<T: Transmit> Transmit for Box<T> {
    type Item = T::Item;

    type Error = T::Error;

    open spec fn transmit_req(&self, item: Self::Item) -> bool {
        (**self).transmit_req(item)
    }

    open spec fn transmit_post(
        pre: Self,
        item: Self::Item,
        post: Self,
        r: Result<(), Self::Error>,
    ) -> bool {
        T::transmit_post(*pre, item, *post, r)
    }

    fn transmit(&mut self, item: Self::Item) -> (r: Result<(), Self::Error>) {
        (**self).transmit(item)
    }
}

/// A helper function to make sure the value is `Transmit`.
pub fn assert_transmit<I, E, T>(t: T) -> (r: T)
    where T: Transmit<Item = I, Error = E>,
    ensures
        r == t,
{
    t
}

/// Create a `FromSink` object which implements the `Transmit` trait from an
/// object which implements [`Sink`].
pub fn from_sink<S, I>(sink: S) -> (t: FromSink<S, I>)
    where S: Sink<I>,
    ensures
        t.spec_sink() == sink,
{
    FromSink::new(sink)
}

/// An extension trait for `Transmit`s that provides a variety of convenient
/// combinators.
pub trait TransmitExt: Transmit {
    /// Composes this transmitter with a mapping function that converts each
    /// item before it is forwarded.
    fn with<F, U>(self, f: F) -> (t: With<Self, F, Self::Item, U, Self::Error>)
        where F: Fn(U) -> Self::Item,
        ensures
            t.spec_inner() == self,
            t.spec_f() == f,
    {
        With::new(self, f)
    }
}

impl<T: Transmit> TransmitExt for T {

}

} // verus!
