use querylog::config::ListenerConfig;
use querylog::listener::QueryLogListener;
use querylog::registry::HandleRegistry;

#[test]
fn handles_are_distinct_and_non_zero() {
    let mut reg: HandleRegistry<QueryLogListener> = HandleRegistry::new();
    let h1 = reg.create(QueryLogListener::new(ListenerConfig::default(), false));
    let h2 = reg.create(QueryLogListener::new(ListenerConfig::default(), false));
    assert_ne!(h1, 0);
    assert_ne!(h2, 0);
    assert_ne!(h1, h2);
}

#[test]
fn get_resolves_only_live_handles() {
    let mut reg: HandleRegistry<u32> = HandleRegistry::new();
    let h = reg.create(7);
    assert_eq!(reg.get(h).copied(), Some(7));
    assert!(reg.get(0).is_none());
    assert!(reg.get(h + 1).is_none());
}

#[test]
fn destroy_releases_exactly_once() {
    let mut reg: HandleRegistry<String> = HandleRegistry::new();
    let h1 = reg.create("first".to_string());
    let h2 = reg.create("second".to_string());
    assert_eq!(reg.destroy(h1), Some("first".to_string()));
    // The handle is dead afterwards; others are untouched.
    assert!(reg.get(h1).is_none());
    assert_eq!(reg.destroy(h1), None);
    assert_eq!(reg.get(h2).map(|s| s.as_str()), Some("second"));
    assert_eq!(reg.destroy(h2), Some("second".to_string()));
    assert!(reg.get(h2).is_none());
}

#[test]
fn destroyed_slots_are_never_reissued() {
    let mut reg: HandleRegistry<u32> = HandleRegistry::new();
    let h1 = reg.create(1);
    reg.destroy(h1);
    let h2 = reg.create(2);
    assert_ne!(h1, h2);
    assert!(reg.get(h1).is_none());
    assert_eq!(reg.get(h2).copied(), Some(2));
}

#[test]
fn malformed_config_still_yields_usable_handle() {
    // Full construction flow on malformed configuration text: resolution
    // falls back to the default configuration, construction succeeds, and
    // the issued handle is non-zero and dispatches normally.
    let config = querylog::config::parse_config("kafka_topic=\\u00zz\n");
    assert!(config.track_event_created());
    assert!(config.track_event_completed());
    let request = QueryLogListener::forwarding_request(&config);
    assert!(request.is_none());
    let listener = QueryLogListener::new(config, request.is_some());
    let mut reg: HandleRegistry<QueryLogListener> = HandleRegistry::new();
    let handle = reg.create(listener);
    assert_ne!(handle, 0);
    let action = reg.get(handle).unwrap().query_created(&"{\"queryId\":\"q3\"}".to_string());
    assert!(matches!(
        action,
        querylog::listener::EventAction::Record { forward: None }
    ));
    assert!(reg.destroy(handle).is_some());
}
