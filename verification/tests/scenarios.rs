//! End-to-end scenarios: a transport binding, an item-transform chain, and a
//! sink bridge, each observed from the receiving side.

use async_transmit::from_sink;
use async_transmit::BufferSink;
use async_transmit::QueueTransmitter;
use async_transmit::Transmit;
use async_transmit::TransmitExt;

#[test]
fn scenario_transport_binding_end_of_stream() {
    let mut t: QueueTransmitter<String> = QueueTransmitter::new();
    assert_eq!(Ok(()), t.transmit(String::from("Hello")));
    assert_eq!(Ok(()), t.transmit(String::from("World")));
    t.close();
    let observed = t.into_items();
    assert_eq!(vec![String::from("Hello"), String::from("World")], observed);
}

#[test]
fn scenario_item_transform_adapter() {
    let q: QueueTransmitter<String> = QueueTransmitter::new();
    let mut t = q.with(|s: &str| format!("!!!{}!!!", s));
    assert_eq!(Ok(()), t.transmit("Hello"));
    assert_eq!(Ok(()), t.transmit("World"));
    let observed = t.into_inner().into_items();
    assert_eq!(vec![String::from("!!!Hello!!!"), String::from("!!!World!!!")], observed);
}

#[test]
fn scenario_sink_bridge_matches_transport_binding() {
    let mut binding: QueueTransmitter<&'static str> = QueueTransmitter::new();
    assert_eq!(Ok(()), binding.transmit("Hello"));
    assert_eq!(Ok(()), binding.transmit("World"));
    binding.close();

    let mut bridge = from_sink(BufferSink::new());
    assert_eq!(Ok(()), bridge.transmit("Hello"));
    assert_eq!(Ok(()), bridge.transmit("World"));
    let mut sink = bridge.into_inner();
    sink.close();

    assert_eq!(binding.into_items(), sink.into_flushed());
}
