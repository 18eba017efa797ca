use relay_pool::message::{ClientMessage, Event, EventId, Filter, RelayMessage, RelayPoolMessage, RelayPoolNotification, RelayUrl};
use relay_pool::pool::{get_events_of, merge_event, Error, RelayError, RelayPool};
use relay_pool::task::RelayPoolTask;

fn valid_event(id: u64) -> Event {
    Event { id: EventId(id), sig_valid: true }
}

#[test]
fn default_pool_is_empty() {
    let pool = RelayPool::default();
    assert!(pool.relays().is_empty());
    assert!(pool.subscription_filters().is_empty());
}

#[test]
fn empty_pool_guard_broadcast_fails_before_io() {
    let pool = RelayPool::new();
    let r = pool.send_msg(ClientMessage::Event(valid_event(1)));
    match r {
        Err(e) => assert_eq!(e, Error::NoRelayConnected),
        Ok(_) => panic!("a broadcast on an empty pool must fail"),
    }
}

#[test]
fn unknown_target_guard_returns_relay_not_found() {
    let mut pool = RelayPool::new();
    pool.add_relay(RelayUrl(1));
    let relays_before = pool.relays();
    let filters_before = pool.subscription_filters();
    let r = pool.send_msg_to(RelayUrl(2), ClientMessage::Other(0));
    match r {
        Err(e) => assert_eq!(e, Error::RelayNotFound),
        Ok(_) => panic!("an unregistered address must fail"),
    }
    assert_eq!(pool.relays(), relays_before);
    assert_eq!(pool.subscription_filters(), filters_before);
}

#[test]
fn send_to_registered_relay_passes_message_through() {
    let mut pool = RelayPool::new();
    pool.add_relay(RelayUrl(1));
    let msg = ClientMessage::Other(33);
    assert_eq!(pool.send_msg_to(RelayUrl(1), msg), Ok(msg));
}

#[test]
fn idempotent_add_leaves_one_handle() {
    let mut pool = RelayPool::new();
    assert!(pool.add_relay(RelayUrl(1)));
    // The second add is a no-op: no new endpoint is constructed, so an
    // already-connected endpoint is never disrupted.
    assert!(!pool.add_relay(RelayUrl(1)));
    assert_eq!(pool.relays(), vec![RelayUrl(1)]);
}

#[test]
fn remove_relay_is_noop_on_absent_address() {
    let mut pool = RelayPool::new();
    pool.add_relay(RelayUrl(1));
    pool.add_relay(RelayUrl(2));
    assert!(!pool.remove_relay(RelayUrl(3)));
    assert_eq!(pool.relays(), vec![RelayUrl(1), RelayUrl(2)]);
    assert!(pool.remove_relay(RelayUrl(1)));
    assert_eq!(pool.relays(), vec![RelayUrl(2)]);
}

#[test]
fn broadcast_plan_pre_registers_published_event() {
    let mut pool = RelayPool::new();
    pool.add_relay(RelayUrl(1));
    pool.add_relay(RelayUrl(2));
    let e = valid_event(9);
    let plan = pool.send_msg(ClientMessage::Event(e)).unwrap();
    assert_eq!(plan.pre_register, Some(e));
    assert_eq!(plan.targets, vec![RelayUrl(1), RelayUrl(2)]);
    let plan2 = pool.send_msg(ClientMessage::Other(4)).unwrap();
    assert_eq!(plan2.pre_register, None);
}

#[test]
fn subscribe_replaces_filters_and_snapshots_relays() {
    let mut pool = RelayPool::new();
    pool.add_relay(RelayUrl(1));
    let targets = pool.subscribe(vec![Filter(5), Filter(6)]);
    assert_eq!(targets, vec![RelayUrl(1)]);
    assert_eq!(pool.subscription_filters(), vec![Filter(5), Filter(6)]);
    // Last writer wins.
    pool.subscribe(vec![Filter(7)]);
    assert_eq!(pool.subscription_filters(), vec![Filter(7)]);
    // Clearing endpoint subscriptions leaves the pool's filter set alone.
    let targets = pool.unsubscribe();
    assert_eq!(targets, vec![RelayUrl(1)]);
    assert_eq!(pool.subscription_filters(), vec![Filter(7)]);
}

#[test]
fn merge_event_suppresses_duplicate_identifiers() {
    let mut events: Vec<Event> = Vec::new();
    merge_event(&mut events, valid_event(1));
    merge_event(&mut events, valid_event(2));
    // Same identifier, different verification flag: still a duplicate,
    // because event equality is by identifier.
    merge_event(&mut events, Event { id: EventId(1), sig_valid: false });
    assert_eq!(events, vec![valid_event(1), valid_event(2)]);
}

#[test]
fn get_events_of_merges_batches_first_seen_wins() {
    let batches = vec![
        vec![valid_event(1), valid_event(2)],
        vec![],
        vec![valid_event(2), valid_event(3), valid_event(1)],
        vec![valid_event(4)],
    ];
    let merged = get_events_of(&batches);
    assert_eq!(
        merged,
        vec![valid_event(1), valid_event(2), valid_event(3), valid_event(4)]
    );
}

#[test]
fn error_variants_are_distinct() {
    assert_eq!(Error::Relay(RelayError(7)), Error::Relay(RelayError(7)));
    assert_ne!(Error::Relay(RelayError(7)), Error::Relay(RelayError(8)));
    assert_ne!(Error::NoRelayConnected, Error::RelayNotFound);
}

#[test]
fn scenario_broadcast_subscribe_dedup_across_relays() {
    // Zero relays: broadcast fails with NoRelayConnected.
    let mut pool = RelayPool::new();
    let x = valid_event(100);
    assert_eq!(
        pool.send_msg(ClientMessage::Event(x)).err(),
        Some(Error::NoRelayConnected)
    );

    // Add relays A and B; subscribe to [F]; the filter set reads back as [F].
    let a = RelayUrl(10);
    let b = RelayUrl(11);
    pool.add_relay(a);
    pool.add_relay(b);
    let targets = pool.subscribe(vec![Filter(1)]);
    assert_eq!(targets, vec![a, b]);
    assert_eq!(pool.subscription_filters(), vec![Filter(1)]);

    // A delivers a valid event e1: a subscriber observes Message(A, e1)
    // then Event(A, e1).
    let mut task = RelayPoolTask::new();
    let e1 = valid_event(200);
    let m = RelayMessage::Event { event: e1 };
    let out = task.handle_msg(RelayPoolMessage::ReceivedMsg { relay_url: a, msg: m });
    assert_eq!(
        out.notifications,
        vec![
            RelayPoolNotification::Message(a, m),
            RelayPoolNotification::Event(a, e1),
        ]
    );

    // B later delivers the same e1: Message(B, e1) only.
    let out = task.handle_msg(RelayPoolMessage::ReceivedMsg { relay_url: b, msg: m });
    assert_eq!(
        out.notifications,
        vec![RelayPoolNotification::Message(b, m)]
    );
}
