use relay_pool::message::{
    ClientMessage, Event, EventId, RelayMessage, RelayPoolMessage, RelayPoolNotification, RelayUrl,
};
use relay_pool::task::RelayPoolTask;

fn valid_event(id: u64) -> Event {
    Event { id: EventId(id), sig_valid: true }
}

fn invalid_event(id: u64) -> Event {
    Event { id: EventId(id), sig_valid: false }
}

fn received(relay: u64, event: Event) -> RelayPoolMessage {
    RelayPoolMessage::ReceivedMsg {
        relay_url: RelayUrl(relay),
        msg: RelayMessage::Event { event },
    }
}

#[test]
fn first_delivery_publishes_message_then_event() {
    let mut task = RelayPoolTask::new();
    let e = valid_event(1);
    let out = task.handle_msg(received(7, e));
    assert_eq!(
        out.notifications,
        vec![
            RelayPoolNotification::Message(RelayUrl(7), RelayMessage::Event { event: e }),
            RelayPoolNotification::Event(RelayUrl(7), e),
        ]
    );
    assert!(!out.done);
}

#[test]
fn dedup_idempotence_two_deliveries_one_event() {
    let mut task = RelayPoolTask::new();
    let e = valid_event(42);
    let first = task.handle_msg(received(1, e));
    let second = task.handle_msg(received(2, e));
    let all: Vec<RelayPoolNotification> = first
        .notifications
        .into_iter()
        .chain(second.notifications.into_iter())
        .collect();
    let messages = all
        .iter()
        .filter(|n| matches!(n, RelayPoolNotification::Message(_, _)))
        .count();
    let events = all
        .iter()
        .filter(|n| matches!(n, RelayPoolNotification::Event(_, _)))
        .count();
    assert_eq!(messages, 2);
    assert_eq!(events, 1);
}

#[test]
fn verification_gate_drops_invalid_event_silently() {
    let mut task = RelayPoolTask::new();
    let bad = invalid_event(5);
    let out = task.handle_msg(received(3, bad));
    assert_eq!(
        out.notifications,
        vec![RelayPoolNotification::Message(
            RelayUrl(3),
            RelayMessage::Event { event: bad }
        )]
    );
    // Its identifier consumed no window capacity: the same identifier,
    // validly signed, is still treated as new.
    let good = valid_event(5);
    let out2 = task.handle_msg(received(3, good));
    assert_eq!(out2.notifications.len(), 2);
    assert_eq!(
        out2.notifications[1],
        RelayPoolNotification::Event(RelayUrl(3), good)
    );
}

#[test]
fn self_publish_pre_registration_suppresses_echo() {
    let mut task = RelayPoolTask::new();
    let e = valid_event(9);
    let sent = task.handle_msg(RelayPoolMessage::EventSent(e));
    assert!(sent.notifications.is_empty());
    assert!(!sent.done);
    let echo = task.handle_msg(received(4, e));
    assert_eq!(
        echo.notifications,
        vec![RelayPoolNotification::Message(
            RelayUrl(4),
            RelayMessage::Event { event: e }
        )]
    );
}

#[test]
fn fifo_eviction_exactness_at_capacity() {
    let mut task = RelayPoolTask::new();
    // Pre-register one more distinct identifier than the window's capacity.
    for i in 0..100_001u64 {
        let out = task.handle_msg(RelayPoolMessage::EventSent(valid_event(i)));
        assert!(out.notifications.is_empty());
    }
    // Identifier 1 was inserted second, so it survived the single eviction.
    let dup = task.handle_msg(received(1, valid_event(1)));
    assert_eq!(dup.notifications.len(), 1);
    // Identifier 0 was inserted first and is exactly the one evicted:
    // resubmitting it is treated as new and yields a fresh Event notification.
    let fresh = task.handle_msg(received(1, valid_event(0)));
    assert_eq!(fresh.notifications.len(), 2);
    assert_eq!(
        fresh.notifications[1],
        RelayPoolNotification::Event(RelayUrl(1), valid_event(0))
    );
}

#[test]
fn non_event_message_passes_through() {
    let mut task = RelayPoolTask::new();
    let m = RelayMessage::Other(77);
    let out = task.handle_msg(RelayPoolMessage::ReceivedMsg {
        relay_url: RelayUrl(2),
        msg: m,
    });
    assert_eq!(
        out.notifications,
        vec![RelayPoolNotification::Message(RelayUrl(2), m)]
    );
    assert!(!out.done);
}

#[test]
fn shutdown_ordering_m1_m2_then_shutdown() {
    let mut task = RelayPoolTask::new();
    let m1 = received(1, valid_event(1));
    let m2 = RelayPoolMessage::ReceivedMsg {
        relay_url: RelayUrl(2),
        msg: RelayMessage::Other(8),
    };
    let mut observed: Vec<RelayPoolNotification> = Vec::new();
    let mut done = false;
    for msg in [m1, m2, RelayPoolMessage::Shutdown] {
        assert!(!done, "no message may be processed after Shutdown");
        let out = task.handle_msg(msg);
        observed.extend(out.notifications);
        done = out.done;
    }
    assert!(done);
    // Notifications of m1 and m2, in order, strictly before Shutdown.
    assert_eq!(
        observed,
        vec![
            RelayPoolNotification::Message(RelayUrl(1), RelayMessage::Event { event: valid_event(1) }),
            RelayPoolNotification::Event(RelayUrl(1), valid_event(1)),
            RelayPoolNotification::Message(RelayUrl(2), RelayMessage::Other(8)),
            RelayPoolNotification::Shutdown,
        ]
    );
}

#[test]
fn event_sent_uses_capacity_like_any_insertion() {
    let mut task = RelayPoolTask::new();
    let publish = ClientMessage::Event(valid_event(1));
    // The facade forwards the published event as EventSent; the loop
    // pre-registers it without publishing anything.
    if let ClientMessage::Event(e) = publish {
        let out = task.handle_msg(RelayPoolMessage::EventSent(e));
        assert!(out.notifications.is_empty());
    }
    let echo = task.handle_msg(received(6, valid_event(1)));
    assert_eq!(echo.notifications.len(), 1);
}
