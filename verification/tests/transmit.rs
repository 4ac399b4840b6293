use async_transmit::assert_transmit;
use async_transmit::from_sink;
use async_transmit::BufferSink;
use async_transmit::FromSink;
use async_transmit::QueueTransmitter;
use async_transmit::Transmit;
use async_transmit::TransmitExt;
use async_transmit::TransmitMapErr;
use async_transmit::With;

#[test]
fn queue_transmitter_is_transmit() {
    let mut t = assert_transmit(QueueTransmitter::new());
    assert_eq!(Ok(()), t.transmit("Hello"));
    assert_eq!(Ok(()), t.transmit("World"));
    assert_eq!(&vec!["Hello", "World"], t.items());
    assert_eq!(vec!["Hello", "World"], t.into_items());
}

#[test]
fn queue_transmitter_rejects_when_closed() {
    let mut t: QueueTransmitter<String> = QueueTransmitter::new();
    assert_eq!(Ok(()), t.transmit(String::from("Hello")));
    t.close();
    let r = t.transmit(String::from("World"));
    match r {
        Ok(()) => panic!("a closed queue accepted an item"),
        Err(e) => assert_eq!("World", e.0),
    }
    assert_eq!(vec![String::from("Hello")], t.into_items());
}

#[test]
fn boxed_transmitter_is_transmit() {
    let mut t = assert_transmit(Box::new(QueueTransmitter::new()));
    assert_eq!(Ok(()), t.transmit("Hello"));
    assert_eq!(vec!["Hello"], t.into_items());
}

#[test]
fn with_transforms_items() {
    let q: QueueTransmitter<String> = QueueTransmitter::new();
    let mut t = assert_transmit(q.with(|s: String| format!("!!!{}!!!", s)));
    assert_eq!(Ok(()), t.transmit(String::from("Hello")));
    assert_eq!(Ok(()), t.transmit(String::from("World")));
    let items = t.into_inner().into_items();
    assert_eq!(vec![String::from("!!!Hello!!!"), String::from("!!!World!!!")], items);
}

#[test]
fn with_accessors_reach_the_inner_transmitter() {
    let q: QueueTransmitter<u64> = QueueTransmitter::new();
    let mut t = With::new(q, |x: u64| x + 1);
    assert_eq!(Ok(()), t.transmit(1));
    assert_eq!(&vec![2u64], t.get_ref().items());
    t.get_mut().close();
    let r = t.transmit(5);
    match r {
        Ok(()) => panic!("a closed queue accepted an item"),
        Err(e) => assert_eq!(6, e.0),
    }
    assert_eq!(vec![2u64], t.into_inner().into_items());
}

#[test]
fn map_err_maps_the_first_failure() {
    let mut q: QueueTransmitter<String> = QueueTransmitter::new();
    q.close();
    let mut t = assert_transmit(TransmitMapErr::new(q, |e: async_transmit::SendError<String>| format!("rejected: {}", e.0)));
    let r = t.transmit(String::from("Hello"));
    assert_eq!(Err(String::from("rejected: Hello")), r);
}

#[test]
fn map_err_success_keeps_the_mapper() {
    let q: QueueTransmitter<String> = QueueTransmitter::new();
    let mut t = TransmitMapErr::new(q, |e: async_transmit::SendError<String>| format!("rejected: {}", e.0));
    assert_eq!(Ok(()), t.transmit(String::from("Hello")));
    assert_eq!(Ok(()), t.transmit(String::from("World")));
    t.get_mut().close();
    let r = t.transmit(String::from("!"));
    assert_eq!(Err(String::from("rejected: !")), r);
    assert_eq!(&vec![String::from("Hello"), String::from("World")], t.get_ref().items());
    assert_eq!(
        vec![String::from("Hello"), String::from("World")],
        t.into_inner().into_items(),
    );
}

#[test]
fn from_sink_is_transmit() {
    let mut t = assert_transmit(FromSink::from(BufferSink::new()));
    assert_eq!(Ok(()), t.transmit("Hello"));
    assert_eq!(Ok(()), t.transmit("World"));
    let observed = t.into_inner().into_flushed();
    assert_eq!(vec!["Hello", "World"], observed);
}

#[test]
fn buffer_sink_accumulates_and_flushes() {
    let mut t = assert_transmit(from_sink(BufferSink::new()));
    assert_eq!(Ok(()), t.transmit("Hello"));
    assert_eq!(&vec!["Hello"], t.get_ref().flushed_items());
    assert_eq!(Ok(()), t.transmit("World"));
    assert_eq!(&vec!["Hello", "World"], t.get_ref().flushed_items());
    let s = t.into_inner();
    assert_eq!(vec!["Hello", "World"], s.into_flushed());
}

#[test]
fn buffer_sink_rejects_when_closed() {
    let mut s: BufferSink<String> = BufferSink::new();
    s.close();
    let mut t = FromSink::new(s);
    let r = t.transmit(String::from("Hello"));
    match r {
        Ok(()) => panic!("a closed sink accepted an item"),
        Err(e) => assert_eq!("Hello", e.0),
    }
    assert_eq!(Vec::<String>::new(), t.into_inner().into_flushed());
}

#[test]
fn from_sink_accessors_reach_the_sink() {
    let mut t = FromSink::new(BufferSink::new());
    assert_eq!(Ok(()), t.transmit(7u64));
    assert_eq!(&vec![7u64], t.get_ref().flushed_items());
    t.get_mut().close();
    let r = t.transmit(8);
    match r {
        Ok(()) => panic!("a closed sink accepted an item"),
        Err(e) => assert_eq!(8, e.0),
    }
}

#[test]
fn adapters_compose_over_the_bridge() {
    let t = from_sink(BufferSink::new());
    let mut t = t.with(|s: &str| s.len());
    assert_eq!(Ok(()), t.transmit("Hello"));
    assert_eq!(Ok(()), t.transmit("at"));
    let s = t.into_inner().into_inner();
    assert_eq!(vec![5usize, 2usize], s.into_flushed());
}
