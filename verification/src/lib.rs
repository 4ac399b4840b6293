//! A capability for delivering one item at a time to a peer, independent of
//! the underlying transport, together with composable adapters over it: an
//! item-transform adapter, an error-transform adapter, and a bridge from a
//! buffer-then-flush acceptance capability.

mod transmit;

pub use transmit::assert_transmit;
pub use transmit::from_sink;
pub use transmit::lemma_closed_queue_rejects;
pub use transmit::lemma_from_sink_err_no_spurious;
pub use transmit::lemma_from_sink_flushes;
pub use transmit::lemma_from_sink_transmit_order;
pub use transmit::lemma_from_sink_wraps_sink;
pub use transmit::lemma_map_err_first_failure;
pub use transmit::lemma_map_err_success;
pub use transmit::lemma_queue_transmit_order;
pub use transmit::lemma_with_transmit_req;
pub use transmit::lemma_with_transmits_mapped_item;
pub use transmit::BufferSink;
pub use transmit::FromSink;
pub use transmit::QueueTransmitter;
pub use transmit::SendError;
pub use transmit::Sink;
pub use transmit::Transmit;
pub use transmit::TransmitExt;
pub use transmit::TransmitMapErr;
pub use transmit::With;
