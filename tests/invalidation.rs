use multi_tier_cache::{
    audit_fields, decimal_string, AtomicInvalidationStats, InvalidationConfig, InvalidationMessage,
    InvalidationStats, SubscriberAction, SubscriberEvent, SubscriberState, TierAction, Ttl,
};

fn pairs(v: &[(&str, &str)]) -> Vec<(String, String)> {
    v.iter().map(|(a, b)| (a.to_string(), b.to_string())).collect()
}

#[test]
fn test_invalidation_config_default() {
    let config = InvalidationConfig::default();
    assert_eq!(config.channel, "cache:invalidate");
    assert_eq!(config.auto_broadcast_on_write, false);
    assert_eq!(config.enable_audit_stream, false);
}

#[test]
fn config_default_audit_stream() {
    let config = InvalidationConfig::default();
    assert_eq!(config.audit_stream, "cache:invalidations");
    assert_eq!(config.audit_stream_maxlen, Some(10_000));
}

#[test]
fn message_constructors() {
    let m = InvalidationMessage::remove("test_key");
    assert_eq!(m, InvalidationMessage::Remove { key: "test_key".to_string() });
    let m = InvalidationMessage::update("test_key", b"{\"value\":123}".to_vec(), Some(Ttl::from_secs(300)));
    assert_eq!(
        m,
        InvalidationMessage::Update {
            key: "test_key".to_string(),
            value: b"{\"value\":123}".to_vec(),
            ttl_secs: Some(300),
        }
    );
    assert_eq!(m.ttl(), Some(Ttl::from_secs(300)));
    let m = InvalidationMessage::remove_pattern("user:*");
    assert_eq!(m, InvalidationMessage::RemovePattern { pattern: "user:*".to_string() });
    assert_eq!(m.ttl(), None);
    let m = InvalidationMessage::remove_bulk(vec!["key1".to_string(), "key2".to_string()]);
    assert_eq!(m, InvalidationMessage::RemoveBulk { keys: vec!["key1".to_string(), "key2".to_string()] });
}

#[test]
fn update_ttl_rounds_down_to_seconds() {
    let m = InvalidationMessage::update("k", vec![1], Some(Ttl::from_millis(1_999)));
    assert_eq!(m.ttl(), Some(Ttl::from_secs(1)));
    let m = InvalidationMessage::update("k", vec![1], None);
    assert_eq!(m.ttl(), None);
}

#[test]
fn local_actions_per_kind() {
    let remove = InvalidationMessage::remove("a");
    assert_eq!(remove.local_actions(), vec![TierAction::Remove { key: "a".to_string() }]);

    let update = InvalidationMessage::Update { key: "k".to_string(), value: b"2".to_vec(), ttl_secs: Some(60) };
    assert_eq!(
        update.local_actions(),
        vec![TierAction::Store { key: "k".to_string(), value: b"2".to_vec(), ttl: Ttl::from_millis(60_000) }]
    );

    let update_no_ttl = InvalidationMessage::Update { key: "k".to_string(), value: b"2".to_vec(), ttl_secs: None };
    assert_eq!(
        update_no_ttl.local_actions(),
        vec![TierAction::Store { key: "k".to_string(), value: b"2".to_vec(), ttl: Ttl::from_secs(300) }]
    );

    assert!(InvalidationMessage::remove_pattern("u:*").local_actions().is_empty());

    let bulk = InvalidationMessage::remove_bulk(vec!["x".to_string(), "y".to_string()]);
    assert_eq!(
        bulk.local_actions(),
        vec![TierAction::Remove { key: "x".to_string() }, TierAction::Remove { key: "y".to_string() }]
    );
}

#[test]
fn bus_counters_by_kind() {
    let mut s = AtomicInvalidationStats::default();
    s.record_sent();
    s.record_received(&InvalidationMessage::remove("a"));
    s.record_received(&InvalidationMessage::remove("a"));
    s.record_received(&InvalidationMessage::update("a", vec![], None));
    s.record_received(&InvalidationMessage::remove_pattern("p*"));
    s.record_received(&InvalidationMessage::remove_bulk(vec![]));
    s.record_error();
    assert_eq!(
        s.snapshot(),
        InvalidationStats {
            messages_sent: 1,
            messages_received: 5,
            removes_received: 2,
            updates_received: 1,
            patterns_received: 1,
            bulk_removes_received: 1,
            processing_errors: 1,
        }
    );
    assert_eq!(InvalidationStats::default().messages_received, 0);
}

#[test]
fn audit_record_fields() {
    let f = audit_fields(&InvalidationMessage::remove("u:1"), "1700000000");
    assert_eq!(f, pairs(&[("type", "remove"), ("timestamp", "1700000000"), ("key", "u:1")]));

    let f = audit_fields(&InvalidationMessage::update("k", vec![1], None), "5");
    assert_eq!(f, pairs(&[("type", "update"), ("timestamp", "5"), ("key", "k")]));

    let f = audit_fields(&InvalidationMessage::remove_pattern("user:*"), "5");
    assert_eq!(f, pairs(&[("type", "remove_pattern"), ("timestamp", "5"), ("key", "user:*")]));

    let keys: Vec<String> = (0..12).map(|i| format!("bulk{i}")).collect();
    let f = audit_fields(&InvalidationMessage::remove_bulk(keys), "5");
    assert_eq!(f, pairs(&[("type", "remove_bulk"), ("timestamp", "5"), ("count", "12")]));

    let f = audit_fields(&InvalidationMessage::remove(""), "5");
    assert_eq!(f, pairs(&[("type", "remove"), ("timestamp", "5")]));
}

#[test]
fn decimal_rendering() {
    assert_eq!(decimal_string(0), "0");
    assert_eq!(decimal_string(7), "7");
    assert_eq!(decimal_string(10), "10");
    assert_eq!(decimal_string(10_000), "10000");
    assert_eq!(decimal_string(usize::MAX), usize::MAX.to_string());
}

#[test]
fn subscriber_lifecycle() {
    let (s, a) = SubscriberState::start();
    assert_eq!((s, a), (SubscriberState::Connecting, SubscriberAction::Connect));
    let (s, a) = s.step(SubscriberEvent::Connected);
    assert_eq!((s, a), (SubscriberState::Subscribed, SubscriberAction::AwaitMessage));
    let (s, a) = s.step(SubscriberEvent::MessageArrived);
    assert_eq!((s, a), (SubscriberState::Running, SubscriberAction::HandleMessage));
    let (s, a) = s.step(SubscriberEvent::StreamEnded);
    assert_eq!((s, a), (SubscriberState::Reconnecting, SubscriberAction::Wait(Ttl::from_secs(5))));
    let (s, a) = s.step(SubscriberEvent::WaitOver);
    assert_eq!((s, a), (SubscriberState::Connecting, SubscriberAction::Connect));
    let (s, a) = s.step(SubscriberEvent::ConnectFailed);
    assert_eq!((s, a), (SubscriberState::Reconnecting, SubscriberAction::Wait(Ttl::from_secs(5))));
    let (s, a) = s.step(SubscriberEvent::Shutdown);
    assert_eq!((s, a), (SubscriberState::Stopped, SubscriberAction::Exit));
    let (s, a) = s.step(SubscriberEvent::Connected);
    assert_eq!((s, a), (SubscriberState::Stopped, SubscriberAction::Exit));
}

#[test]
fn shutdown_stops_from_every_state() {
    for s in [
        SubscriberState::Connecting,
        SubscriberState::Subscribed,
        SubscriberState::Running,
        SubscriberState::Reconnecting,
        SubscriberState::Stopped,
    ] {
        assert_eq!(s.step(SubscriberEvent::Shutdown), (SubscriberState::Stopped, SubscriberAction::Exit));
    }
}
