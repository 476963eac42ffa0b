use turret_relay::frame_channel::{FrameChannel, Offer, FRAME_CAPACITY};
use turret_relay::relay::Relay;

fn frame(n: u8) -> Vec<u8> {
    vec![n, n, n]
}

#[test]
fn accepted_frames_leave_in_order() {
    let mut q = FrameChannel::new(FRAME_CAPACITY);
    for n in 0..10u8 {
        assert_eq!(q.offer(frame(n)), Offer::Accepted);
    }
    assert_eq!(q.len(), 10);
    for n in 0..10u8 {
        assert_eq!(q.take(), Some(frame(n)));
    }
    assert_eq!(q.take(), None);
    assert!(q.is_empty());
}

#[test]
fn interleaved_offers_and_takes_keep_order() {
    let mut q = FrameChannel::new(4);
    assert_eq!(q.offer(frame(1)), Offer::Accepted);
    assert_eq!(q.offer(frame(2)), Offer::Accepted);
    assert_eq!(q.take(), Some(frame(1)));
    assert_eq!(q.offer(frame(3)), Offer::Accepted);
    assert_eq!(q.take(), Some(frame(2)));
    assert_eq!(q.take(), Some(frame(3)));
    assert_eq!(q.take(), None);
}

#[test]
fn full_queue_drops_the_newest_frame() {
    let mut q = FrameChannel::new(FRAME_CAPACITY);
    for n in 0..16u8 {
        assert_eq!(q.offer(frame(n)), Offer::Accepted);
    }
    assert!(q.is_full());
    assert_eq!(q.offer(frame(16)), Offer::Dropped);
    assert_eq!(q.len(), 16);
    assert_eq!(q.capacity(), 16);
    for n in 0..16u8 {
        assert_eq!(q.take(), Some(frame(n)));
    }
    assert_eq!(q.take(), None);
}

#[test]
fn queue_of_one_keeps_the_first_frame() {
    let mut q = FrameChannel::new(1);
    assert_eq!(q.offer(frame(7)), Offer::Accepted);
    assert_eq!(q.offer(frame(8)), Offer::Dropped);
    assert_eq!(q.take(), Some(frame(7)));
    assert_eq!(q.offer(frame(9)), Offer::Accepted);
    assert_eq!(q.take(), Some(frame(9)));
}

#[test]
fn later_sink_receives_every_following_frame() {
    let mut relay: Relay<Vec<Vec<u8>>> = Relay::new();
    assert_eq!(relay.installs(), 0);
    assert_eq!(relay.install(vec![b"a".to_vec()]), None);
    relay.route().unwrap().push(frame(1));
    let displaced = relay.install(vec![b"b".to_vec()]);
    assert_eq!(displaced, Some(vec![b"a".to_vec(), frame(1)]));
    assert_eq!(relay.installs(), 2);
    for n in 2..6u8 {
        relay.route().unwrap().push(frame(n));
    }
    let last = relay.install(Vec::new()).unwrap();
    assert_eq!(last, vec![b"b".to_vec(), frame(2), frame(3), frame(4), frame(5)]);
}

#[test]
fn no_sink_discards_every_frame() {
    let mut relay: Relay<Vec<Vec<u8>>> = Relay::new();
    let mut q = FrameChannel::new(FRAME_CAPACITY);
    for n in 0..5u8 {
        q.offer(frame(n));
    }
    let mut discarded = 0;
    let mut sent = 0;
    while let Some(f) = q.take() {
        match relay.route() {
            Some(sink) => {
                sink.push(f);
                sent += 1;
            }
            None => discarded += 1,
        }
    }
    assert_eq!(discarded, 5);
    assert_eq!(sent, 0);
    assert_eq!(relay.installs(), 0);
}

#[test]
fn relay_delivers_queued_frames_in_order() {
    let mut relay: Relay<Vec<Vec<u8>>> = Relay::new();
    relay.install(Vec::new());
    let mut q = FrameChannel::new(FRAME_CAPACITY);
    for n in 0..5u8 {
        q.offer(frame(n));
    }
    while let Some(f) = q.take() {
        relay.route().unwrap().push(f);
    }
    let got = relay.install(Vec::new()).unwrap();
    assert_eq!(got, (0..5u8).map(frame).collect::<Vec<_>>());
}
