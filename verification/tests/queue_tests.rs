use page_session::notification::{Inbound, NotificationFromNeovim, NotificationReceiver};
use page_session::queue::{Delivery, NotificationQueue, SendOutcome, QUEUE_CAPACITY};
use page_session::value::RpcValue;

fn id(s: &str) -> RpcValue {
    RpcValue::Text(s.to_string())
}

#[test]
fn capacity_is_sixteen() {
    assert_eq!(QUEUE_CAPACITY, 16);
}

#[test]
fn new_queue_is_empty_and_connected() {
    let mut queue = NotificationQueue::new();
    assert_eq!(queue.len(), 0);
    assert!(!queue.is_disconnected());
    assert_eq!(queue.try_recv(), None);
}

#[test]
fn events_come_out_in_the_order_they_went_in() {
    let mut queue = NotificationQueue::new();
    let sent = vec![
        NotificationFromNeovim::FetchLines(3),
        NotificationFromNeovim::FetchPart,
        NotificationFromNeovim::FetchLines(1),
        NotificationFromNeovim::BufferClosed,
    ];
    for event in sent.iter() {
        assert_eq!(queue.try_send(*event), SendOutcome::Queued);
    }
    assert_eq!(queue.len(), 4);
    let mut received = Vec::new();
    while let Some(event) = queue.try_recv() {
        received.push(event);
    }
    assert_eq!(received, sent);
    assert_eq!(queue.len(), 0);
}

#[test]
fn interleaved_sends_and_receives_keep_the_order() {
    let mut queue = NotificationQueue::new();
    assert_eq!(queue.try_send(NotificationFromNeovim::FetchLines(1)), SendOutcome::Queued);
    assert_eq!(queue.try_send(NotificationFromNeovim::FetchLines(2)), SendOutcome::Queued);
    assert_eq!(queue.try_recv(), Some(NotificationFromNeovim::FetchLines(1)));
    assert_eq!(queue.try_send(NotificationFromNeovim::FetchLines(3)), SendOutcome::Queued);
    assert_eq!(queue.try_recv(), Some(NotificationFromNeovim::FetchLines(2)));
    assert_eq!(queue.try_recv(), Some(NotificationFromNeovim::FetchLines(3)));
    assert_eq!(queue.try_recv(), None);
}

#[test]
fn the_seventeenth_event_finds_the_queue_full() {
    let mut queue = NotificationQueue::new();
    for n in 0..16u64 {
        assert_eq!(queue.try_send(NotificationFromNeovim::FetchLines(n)), SendOutcome::Queued);
    }
    assert_eq!(queue.len(), 16);
    assert_eq!(queue.try_send(NotificationFromNeovim::BufferClosed), SendOutcome::Full);
    assert_eq!(queue.len(), 16);
    assert_eq!(queue.try_recv(), Some(NotificationFromNeovim::FetchLines(0)));
    assert_eq!(queue.try_send(NotificationFromNeovim::BufferClosed), SendOutcome::Queued);
    for n in 1..16u64 {
        assert_eq!(queue.try_recv(), Some(NotificationFromNeovim::FetchLines(n)));
    }
    assert_eq!(queue.try_recv(), Some(NotificationFromNeovim::BufferClosed));
    assert_eq!(queue.try_recv(), None);
}

#[test]
fn a_gone_consumer_refuses_every_event() {
    let mut queue = NotificationQueue::new();
    assert_eq!(queue.try_send(NotificationFromNeovim::FetchPart), SendOutcome::Queued);
    queue.disconnect();
    assert!(queue.is_disconnected());
    assert_eq!(queue.try_send(NotificationFromNeovim::BufferClosed), SendOutcome::Disconnected);
    assert_eq!(queue.len(), 1);
    assert_eq!(queue.try_recv(), Some(NotificationFromNeovim::FetchPart));
}

#[test]
fn delivery_queues_only_this_sessions_events() {
    let receiver = NotificationReceiver::new("mine");
    let mut queue = NotificationQueue::new();
    let foreign = vec![id("theirs"), RpcValue::Unsigned(5)];
    assert_eq!(
        receiver.deliver(&mut queue, "page_fetch_lines", &foreign),
        Delivery::Dropped(Inbound::ForeignSession)
    );
    assert_eq!(queue.len(), 0);
    let counted = vec![id("mine"), RpcValue::Unsigned(5)];
    assert_eq!(
        receiver.deliver(&mut queue, "page_fetch_lines", &counted),
        Delivery::Queued(NotificationFromNeovim::FetchLines(5))
    );
    let plain = vec![id("mine")];
    assert_eq!(
        receiver.deliver(&mut queue, "page_fetch_lines", &plain),
        Delivery::Queued(NotificationFromNeovim::FetchPart)
    );
    assert_eq!(
        receiver.deliver(&mut queue, "page_unknown", &plain),
        Delivery::Dropped(Inbound::Unrecognized)
    );
    assert_eq!(
        receiver.deliver(&mut queue, "page_buffer_closed", &plain),
        Delivery::Queued(NotificationFromNeovim::BufferClosed)
    );
    assert_eq!(queue.len(), 3);
    assert_eq!(queue.try_recv(), Some(NotificationFromNeovim::FetchLines(5)));
    assert_eq!(queue.try_recv(), Some(NotificationFromNeovim::FetchPart));
    assert_eq!(queue.try_recv(), Some(NotificationFromNeovim::BufferClosed));
    assert_eq!(queue.try_recv(), None);
}

#[test]
fn delivery_blocks_on_a_full_queue_and_fails_on_a_gone_consumer() {
    let receiver = NotificationReceiver::new("mine");
    let mut queue = NotificationQueue::new();
    let args = vec![id("mine")];
    for _ in 0..16 {
        assert_eq!(
            receiver.deliver(&mut queue, "page_fetch_lines", &args),
            Delivery::Queued(NotificationFromNeovim::FetchPart)
        );
    }
    assert_eq!(
        receiver.deliver(&mut queue, "page_buffer_closed", &args),
        Delivery::Blocked(NotificationFromNeovim::BufferClosed)
    );
    assert_eq!(queue.len(), 16);
    queue.disconnect();
    assert_eq!(
        receiver.deliver(&mut queue, "page_buffer_closed", &args),
        Delivery::ConsumerGone
    );
    let foreign = vec![id("theirs")];
    assert_eq!(
        receiver.deliver(&mut queue, "page_buffer_closed", &foreign),
        Delivery::Dropped(Inbound::ForeignSession)
    );
}
