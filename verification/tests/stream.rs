use bytes::Bytes;
use s3_reproxy::server::stream::{
    bounds_in_order, convert_sizehint, copy_item, Broadcaster, ByteStreamError, ByteStreamMultiplier,
    ByteStreamReceiver, ByteStreamResult, Producer, SizeHint, Subscription,
    FRAME_QUEUE_CAPACITY, SUBSCRIBER_QUEUE_CAPACITY, SUBSCRIBE_QUEUE_CAPACITY,
};

fn data(text: &'static [u8]) -> ByteStreamResult {
    Some(Ok(Bytes::from_static(text)))
}

fn bytes_of(item: &ByteStreamResult) -> Vec<u8> {
    match item {
        Some(Ok(buffer)) => buffer.to_vec(),
        other => panic!("not a data frame: {:?}", other),
    }
}

fn body_of(items: &[ByteStreamResult]) -> Vec<u8> {
    let mut body = Vec::new();
    for item in items {
        if let Some(Ok(buffer)) = item {
            body.extend_from_slice(buffer);
        }
    }
    body
}

fn join(broadcaster: &mut Broadcaster) -> (usize, Vec<ByteStreamResult>) {
    match broadcaster.subscribe() {
        Subscription::Accepted { id, replay } => (id, replay),
        Subscription::Refused => panic!("subscription refused"),
    }
}

/// Runs a broadcast with `early` subscribers before the first frame and
/// returns what each subscriber's queue got.
fn run(frames: Vec<ByteStreamResult>, early: usize) -> Vec<Vec<ByteStreamResult>> {
    let mut broadcaster = Broadcaster::new();
    let mut queues: Vec<Vec<ByteStreamResult>> = Vec::new();
    for _ in 0..early {
        let (id, replay) = join(&mut broadcaster);
        assert_eq!(id, queues.len());
        queues.push(replay);
    }
    for frame in frames {
        for (id, copy) in broadcaster.frame(frame, true) {
            queues[id].push(copy);
        }
    }
    queues
}

#[test]
fn queue_bounds() {
    assert_eq!(FRAME_QUEUE_CAPACITY, 4);
    assert_eq!(SUBSCRIBE_QUEUE_CAPACITY, 4);
    assert_eq!(SUBSCRIBER_QUEUE_CAPACITY, 16);
}

#[test]
fn every_subscriber_gets_the_body() {
    let queues = run(vec![data(b"he"), data(b"l"), data(b"lo")], 3);
    assert_eq!(queues.len(), 3);
    for queue in &queues {
        assert_eq!(queue.len(), 3);
        assert_eq!(body_of(queue), b"hello");
    }
}

#[test]
fn single_byte_body() {
    let queues = run(vec![data(b"x")], 2);
    assert_eq!(body_of(&queues[0]), b"x");
    assert_eq!(body_of(&queues[1]), b"x");
}

#[test]
fn zero_byte_body() {
    let queues = run(vec![], 2);
    assert!(queues[0].is_empty());
    assert!(queues[1].is_empty());
    let empty_frame = run(vec![data(b"")], 1);
    assert_eq!(empty_frame[0].len(), 1);
    assert_eq!(body_of(&empty_frame[0]), b"");
}

#[test]
fn one_frame_larger_than_a_queue() {
    static BIG: [u8; 100_000] = [7u8; 100_000];
    let queues = run(vec![Some(Ok(Bytes::from_static(&BIG)))], 2);
    assert_eq!(queues[0].len(), 1);
    assert_eq!(bytes_of(&queues[0][0]).len(), 100_000);
    assert_eq!(bytes_of(&queues[1][0]), BIG.to_vec());
}

#[test]
fn late_subscriber_gets_the_replay() {
    let mut broadcaster = Broadcaster::new();
    let (first, replay) = join(&mut broadcaster);
    assert_eq!(first, 0);
    assert!(replay.is_empty());
    let mut first_queue = replay;
    for frame in [data(b"ab"), data(b"cd")] {
        for (id, copy) in broadcaster.frame(frame, false) {
            assert_eq!(id, 0);
            first_queue.push(copy);
        }
    }
    assert_eq!(broadcaster.cache_len(), 2);
    let (second, replay) = join(&mut broadcaster);
    assert_eq!(second, 1);
    assert_eq!(body_of(&replay), b"abcd");
    let mut second_queue = replay;
    let copies = broadcaster.frame(data(b"ef"), false);
    assert_eq!(copies.len(), 2);
    for (id, copy) in copies {
        if id == 0 {
            first_queue.push(copy);
        } else {
            second_queue.push(copy);
        }
    }
    assert_eq!(body_of(&first_queue), b"abcdef");
    assert_eq!(body_of(&second_queue), b"abcdef");
}

#[test]
fn subscriber_after_the_last_frame_gets_the_whole_body() {
    let mut broadcaster = Broadcaster::new();
    assert!(broadcaster.frame(data(b"hel"), false).is_empty());
    assert!(broadcaster.frame(data(b"lo"), false).is_empty());
    let (id, replay) = join(&mut broadcaster);
    assert_eq!(id, 0);
    assert_eq!(replay.len(), 2);
    assert_eq!(body_of(&replay), b"hello");
}

#[test]
fn upstream_error_reaches_every_subscriber() {
    let broken: ByteStreamResult = Some(Err(ByteStreamError::ByteStreamError("reset".to_string())));
    let queues = run(vec![data(b"he"), broken], 2);
    for queue in &queues {
        assert_eq!(queue.len(), 2);
        assert_eq!(bytes_of(&queue[0]), b"he");
        match &queue[1] {
            Some(Err(ByteStreamError::ByteStreamError(cause))) => assert_eq!(cause, "reset"),
            other => panic!("unexpected item {:?}", other),
        }
    }
}

#[test]
fn cancelled_subscriber_does_not_stop_the_others() {
    let mut broadcaster = Broadcaster::new();
    let mut queues = vec![join(&mut broadcaster).1, join(&mut broadcaster).1, join(&mut broadcaster).1];
    for (id, copy) in broadcaster.frame(data(b"ab"), true) {
        queues[id].push(copy);
    }
    broadcaster.abandon(1);
    broadcaster.abandon(17);
    let copies = broadcaster.frame(data(b"cd"), true);
    let ids: Vec<usize> = copies.iter().map(|c| c.0).collect();
    assert_eq!(ids, vec![0, 2]);
    for (id, copy) in copies {
        queues[id].push(copy);
    }
    assert_eq!(body_of(&queues[0]), b"abcd");
    assert_eq!(body_of(&queues[1]), b"ab");
    assert_eq!(body_of(&queues[2]), b"abcd");
}

#[test]
fn cache_is_let_go_once_subscriptions_close() {
    let mut broadcaster = Broadcaster::new();
    let _ = join(&mut broadcaster);
    assert!(broadcaster.is_accepting());
    broadcaster.frame(data(b"a"), false);
    broadcaster.frame(data(b"b"), false);
    assert_eq!(broadcaster.cache_len(), 2);
    let copies = broadcaster.frame(data(b"c"), true);
    assert_eq!(copies.len(), 1);
    assert!(!broadcaster.is_accepting());
    assert_eq!(broadcaster.cache_len(), 0);
    broadcaster.frame(data(b"d"), false);
    assert!(!broadcaster.is_accepting());
    assert_eq!(broadcaster.cache_len(), 0);
}

#[test]
fn subscription_after_close_ends_the_broadcast() {
    let mut broadcaster = Broadcaster::new();
    let _ = join(&mut broadcaster);
    assert_eq!(broadcaster.frame(data(b"a"), true).len(), 1);
    assert!(matches!(broadcaster.subscribe(), Subscription::Refused));
    assert!(broadcaster.frame(data(b"b"), true).is_empty());
}

#[test]
fn copy_holds_the_same_bytes() {
    let item = data(b"payload");
    assert_eq!(bytes_of(&copy_item(&item)), b"payload");
    assert!(copy_item(&None).is_none());
    assert!(matches!(
        copy_item(&Some(Err(ByteStreamError::Disconnected))),
        Some(Err(ByteStreamError::Disconnected))
    ));
}

#[test]
fn first_byte_fires_once() {
    let mut producer = Producer::new();
    let first = producer.on_item(Ok(Bytes::from_static(b"a")));
    assert!(first.fire_first_byte);
    assert!(!first.stop);
    assert_eq!(bytes_of(&first.payload), b"a");
    let second = producer.on_item(Ok(Bytes::from_static(b"b")));
    assert!(!second.fire_first_byte);
    assert_eq!(bytes_of(&second.payload), b"b");
}

#[test]
fn read_error_becomes_a_frame_and_stops_the_producer() {
    let mut producer = Producer::new();
    let step = producer.on_item(Err("connection reset".to_string()));
    assert!(step.fire_first_byte);
    assert!(step.stop);
    match step.payload {
        Some(Err(error)) => assert_eq!(error.message(), "byte stream error: connection reset"),
        other => panic!("unexpected payload {:?}", other),
    }
    assert_eq!(ByteStreamError::Disconnected.message(), "disconnected");
}

#[test]
fn receiver_passes_frames_and_reports_a_lost_broadcaster() {
    let mut receiver = ByteStreamReceiver::new(Some(3));
    assert_eq!(receiver.part_number(), Some(3));
    assert!(!receiver.is_end_stream());
    let seen = receiver.poll_frame(Some(data(b"abc"))).unwrap().unwrap();
    assert_eq!(seen.to_vec(), b"abc");
    assert!(!receiver.is_end_stream());
    assert!(matches!(receiver.poll_frame(None), Some(Err(ByteStreamError::Disconnected))));
    assert!(!receiver.is_end_stream());
    assert!(receiver.poll_frame(Some(None)).is_none());
    assert!(receiver.is_end_stream());
}

#[test]
fn handle_gives_no_consumer_once_closed() {
    let (mut handle, _producer, _broadcaster) = ByteStreamMultiplier::from_bytestream();
    let receiver = handle.subscribe_stream(Some(1)).unwrap();
    assert_eq!(receiver.part_number(), Some(1));
    assert!(handle.subscribe_stream(None).is_some());
    handle.close();
    assert!(handle.subscribe_stream(None).is_none());
    handle.close();
    assert!(handle.subscribe_stream(Some(2)).is_none());
}

#[test]
fn size_hint_keeps_the_bounds() {
    let hint = convert_sizehint((5, Some(9)));
    assert_eq!(hint.get_lower(), 5);
    assert_eq!(hint.get_upper(), Some(9));
    let open = convert_sizehint((7, None));
    assert_eq!(open.get_lower(), 7);
    assert_eq!(open.get_upper(), None);
    let exact = convert_sizehint((0, Some(0)));
    assert_eq!((exact.get_lower(), exact.get_upper()), (0, Some(0)));
    let unknown = SizeHint::unknown();
    assert_eq!((unknown.get_lower(), unknown.get_upper()), (0, None));
    assert!(bounds_in_order((5, Some(5))));
    assert!(bounds_in_order((u64::MAX, None)));
    assert!(!bounds_in_order((6, Some(5))));
}

#[test]
fn end_of_body_is_an_end_mark_that_stops_the_producer() {
    let mut producer = Producer::new();
    let step = producer.on_end();
    assert!(!step.fire_first_byte);
    assert!(step.payload.is_none());
    assert!(step.stop);
    let first = producer.on_item(Ok(Bytes::from_static(b"a")));
    assert!(first.fire_first_byte);
    let end = producer.on_end();
    assert!(!end.fire_first_byte);
    assert!(end.payload.is_none());
    assert!(end.stop);
}

#[test]
fn body_ends_cleanly_for_every_subscriber() {
    let mut producer = Producer::new();
    let mut broadcaster = Broadcaster::new();
    let mut queues = vec![join(&mut broadcaster).1, join(&mut broadcaster).1];
    let steps =
        vec![producer.on_item(Ok(Bytes::from_static(b"hel"))), producer.on_item(Ok(Bytes::from_static(b"lo"))), producer.on_end()];
    for step in steps {
        for (id, copy) in broadcaster.frame(step.payload, true) {
            queues[id].push(copy);
        }
    }
    for queue in queues {
        let mut receiver = ByteStreamReceiver::new(None);
        let mut body = Vec::new();
        let mut ended = false;
        for item in queue {
            assert!(!ended);
            match receiver.poll_frame(Some(item)) {
                Some(Ok(buffer)) => body.extend_from_slice(&buffer),
                Some(Err(error)) => panic!("unexpected error {:?}", error),
                None => ended = true,
            }
        }
        assert_eq!(body, b"hello");
        assert!(ended);
        assert!(receiver.is_end_stream());
    }
}

#[test]
fn subscriber_after_the_end_gets_the_body_and_a_clean_end() {
    let mut producer = Producer::new();
    let mut broadcaster = Broadcaster::new();
    let first = producer.on_item(Ok(Bytes::from_static(b"hello")));
    assert!(broadcaster.frame(first.payload, false).is_empty());
    let end = producer.on_end();
    assert!(broadcaster.frame(end.payload, false).is_empty());

    let (id, replay) = join(&mut broadcaster);
    assert_eq!(id, 0);
    assert_eq!(replay.len(), 2);
    let mut receiver = ByteStreamReceiver::new(None);
    let mut replay = replay.into_iter();
    let seen = receiver.poll_frame(replay.next()).unwrap().unwrap();
    assert_eq!(seen.to_vec(), b"hello");
    assert!(!receiver.is_end_stream());
    assert!(receiver.poll_frame(replay.next()).is_none());
    assert!(receiver.is_end_stream());
    assert!(replay.next().is_none());
}
