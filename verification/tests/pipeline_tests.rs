use bee::pipeline::{
    buffer_size_of, max_thread_of, stage_step, ChannelModel, Decoder, IdentityProcessor,
    Processor, RawDecoder, RecvOutcome, SendOutcome, StageEvent, StageState,
};
use bee::{ConfigTable, Event, Value};

fn numbered_event(n: i64) -> Event {
    let mut e = Event::new();
    e.insert("n", Value::from_i64(n));
    e
}

fn number_of(e: &Event) -> i64 {
    match e.get("n") {
        Some(Value::Integer(i)) => *i,
        _ => panic!("event without a number"),
    }
}

#[test]
fn stage_lifecycle() {
    assert_eq!(
        Some(StageState::Running),
        stage_step(StageState::Configured, StageEvent::Start)
    );
    assert_eq!(
        Some(StageState::Draining),
        stage_step(StageState::Running, StageEvent::BeginDrain)
    );
    assert_eq!(
        Some(StageState::Failed),
        stage_step(StageState::Running, StageEvent::Fail)
    );
    assert_eq!(
        Some(StageState::Stopped),
        stage_step(StageState::Draining, StageEvent::Finish)
    );
    assert_eq!(
        Some(StageState::Stopped),
        stage_step(StageState::Failed, StageEvent::Finish)
    );
    assert_eq!(None, stage_step(StageState::Stopped, StageEvent::Start));
    assert_eq!(None, stage_step(StageState::Configured, StageEvent::Finish));
}

#[test]
fn model_backpressure_and_order() {
    let mut c = ChannelModel::new(1, 1);
    match c.send(numbered_event(1)) {
        SendOutcome::Sent => {}
        _ => panic!("room for the first event"),
    }
    // The channel is full: the second event comes back and the sender
    // suspends; nothing is dropped.
    let e2 = match c.send(numbered_event(2)) {
        SendOutcome::Suspend(e) => e,
        _ => panic!("a full channel must suspend the sender"),
    };
    assert_eq!(2, number_of(&e2));
    match c.recv() {
        RecvOutcome::Received(e) => assert_eq!(1, number_of(&e)),
        _ => panic!("the first event must come out first"),
    }
    match c.send(e2) {
        SendOutcome::Sent => {}
        _ => panic!("room again after the receive"),
    }
    match c.recv() {
        RecvOutcome::Received(e) => assert_eq!(2, number_of(&e)),
        _ => panic!("the second event comes out second"),
    }
    // Empty with a producer still open: the receiver waits.
    match c.recv() {
        RecvOutcome::Pending => {}
        _ => panic!("an open producer means no end-of-stream"),
    }
    c.close_producer();
    match c.recv() {
        RecvOutcome::Closed => {}
        _ => panic!("all producers closed and drained: end-of-stream"),
    }
}

#[test]
fn model_drain_preserves_order() {
    let mut c = ChannelModel::new(8, 2);
    for i in 0..5 {
        match c.send(numbered_event(i)) {
            SendOutcome::Sent => {}
            _ => panic!("room for five events"),
        }
    }
    c.close_producer();
    c.close_producer();
    let drained = c.drain();
    assert_eq!(5, drained.len());
    for (i, e) in drained.iter().enumerate() {
        assert_eq!(i as i64, number_of(e));
    }
    match c.recv() {
        RecvOutcome::Closed => {}
        _ => panic!("nothing is left after the drain"),
    }
}

#[test]
fn channel_backpressure() {
    // With capacity one, a decoder that emits two events before the
    // consumer takes the first must suspend on the second send until the
    // first is received.
    let rt = tokio::runtime::Builder::new_current_thread().build().unwrap();
    rt.block_on(async {
        let (tx, mut rx) = tokio::sync::mpsc::channel::<Event>(1);
        tx.send(numbered_event(1)).await.unwrap();
        let second = match tx.try_send(numbered_event(2)) {
            Err(tokio::sync::mpsc::error::TrySendError::Full(e)) => e,
            _ => panic!("the second send must wait until the first is received"),
        };
        let got = rx.recv().await.expect("the first event");
        assert_eq!(1, number_of(&got));
        tx.try_send(second).expect("room once the first was received");
        let got = rx.recv().await.expect("the second event");
        assert_eq!(2, number_of(&got));
    });
}

#[test]
fn channel_drain_after_close() {
    // Closing every producer handle on a channel with buffered items lets
    // the consumer drain exactly those items, in order, before it observes
    // end-of-stream.
    let rt = tokio::runtime::Builder::new_current_thread().build().unwrap();
    rt.block_on(async {
        let (tx, mut rx) = tokio::sync::mpsc::channel::<Event>(8);
        let tx2 = tx.clone();
        for i in 0..3 {
            tx.send(numbered_event(i)).await.unwrap();
        }
        for i in 3..5 {
            tx2.send(numbered_event(i)).await.unwrap();
        }
        drop(tx);
        drop(tx2);
        for i in 0..5 {
            let e = rx.recv().await.expect("a buffered event");
            assert_eq!(i, number_of(&e));
        }
        assert!(rx.recv().await.is_none(), "end-of-stream after the last buffered event");
    });
}

#[test]
fn start_up_settings() {
    let mut table = ConfigTable::new();
    table.insert_value("buffer_size", Value::from_i64(16));
    let mut output = ConfigTable::new();
    output.insert_value("max_thread", Value::from_i64(2));
    table.insert_table("output", output);

    assert_eq!(16, buffer_size_of(&table).unwrap());
    assert_eq!(2, max_thread_of(&table, "output.max_thread").unwrap());

    let err = max_thread_of(&table, "input.max_thread").unwrap_err();
    assert_eq!(bee::error::INVALID_INDEX, err.get_code());
    assert_eq!("can't get config[input.max_thread]", err.get_msg());

    let mut bad = ConfigTable::new();
    bad.insert_value("buffer_size", Value::from_text("lots"));
    assert_eq!(
        bee::error::INVALID_TYPE,
        buffer_size_of(&bad).unwrap_err().get_code()
    );

    let mut zero = ConfigTable::new();
    zero.insert_value("buffer_size", Value::from_i64(0));
    assert_eq!(
        bee::error::INVALID_PARAM,
        buffer_size_of(&zero).unwrap_err().get_code()
    );
}

#[test]
fn decoder_and_processor() {
    let decoder = RawDecoder {};
    let event = decoder.decode(&vec![0x01_u8, 0x02]).unwrap();
    match event.get("payload") {
        Some(Value::Bytes(b)) => assert_eq!(vec![0x01_u8, 0x02], b.0),
        _ => panic!("the raw payload field"),
    }
    let processor = IdentityProcessor {};
    let out = processor.process(numbered_event(4)).unwrap().unwrap();
    assert_eq!(4, number_of(&out));
}

#[test]
fn console_line() {
    let mut e = Event::new();
    e.insert("kind", Value::from_text("transfer"));
    let line = bee::ConsoleOutput::render(&e);
    assert_eq!("{\"kind\": String(\"transfer\")}", line);
    e.insert("amount", Value::from_i64(12));
    let line = bee::ConsoleOutput::render(&e);
    assert_eq!(
        "{\"kind\": String(\"transfer\"), \"amount\": Integer(12)}",
        line
    );
    e.insert("kind", Value::from_text("mint"));
    let line = bee::ConsoleOutput::render(&e);
    assert_eq!("{\"kind\": String(\"mint\"), \"amount\": Integer(12)}", line);
}
