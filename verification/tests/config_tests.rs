use querylog::config::{default_true, parse_bool, parse_config, resolve_config, ListenerConfig};

#[test]
fn default_config_tracks_both_and_does_not_forward() {
    let c = ListenerConfig::default();
    assert!(c.track_event_created());
    assert!(c.track_event_completed());
    assert!(c.kafka_brokers().is_none());
    assert!(c.kafka_topic().is_none());
}

#[test]
fn default_true_is_true() {
    assert!(default_true());
}

#[test]
fn parse_bool_accepts_exactly_true_and_false() {
    assert_eq!(parse_bool(&"true".to_string()), Some(true));
    assert_eq!(parse_bool(&"false".to_string()), Some(false));
    assert_eq!(parse_bool(&"True".to_string()), None);
    assert_eq!(parse_bool(&"yes".to_string()), None);
    assert_eq!(parse_bool(&"".to_string()), None);
}

#[test]
fn parse_config_reads_all_four_settings() {
    let text = "track_event_created=false\ntrack_event_completed=true\nkafka_brokers=localhost:9092\nkafka_topic=queries\n";
    let c = parse_config(text);
    assert!(!c.track_event_created());
    assert!(c.track_event_completed());
    assert_eq!(c.kafka_brokers().as_ref().map(|s| s.as_str()), Some("localhost:9092"));
    assert_eq!(c.kafka_topic().as_ref().map(|s| s.as_str()), Some("queries"));
}

#[test]
fn parse_config_missing_keys_default() {
    let c = parse_config("kafka_topic=queries\n");
    assert!(c.track_event_created());
    assert!(c.track_event_completed());
    assert!(c.kafka_brokers().is_none());
    assert_eq!(c.kafka_topic().as_ref().map(|s| s.as_str()), Some("queries"));
}

#[test]
fn parse_config_colon_separator_and_comments() {
    let c = parse_config("# a comment\nkafka_topic: queries\n");
    assert_eq!(c.kafka_topic().as_ref().map(|s| s.as_str()), Some("queries"));
}

#[test]
fn parse_config_malformed_text_falls_back_to_default() {
    // A malformed unicode escape fails the properties parser as a whole.
    let c = parse_config("track_event_created=false\nkafka_topic=\\u00zz\n");
    assert!(c.track_event_created());
    assert!(c.track_event_completed());
    assert!(c.kafka_brokers().is_none());
    assert!(c.kafka_topic().is_none());
}

#[test]
fn parse_config_unreadable_bool_falls_back_to_default() {
    let c = parse_config("track_event_created=yes\nkafka_topic=queries\n");
    assert!(c.track_event_created());
    assert!(c.track_event_completed());
    assert!(c.kafka_topic().is_none());
}

#[test]
fn parse_config_repeated_known_key_falls_back_to_default() {
    let c = parse_config("kafka_topic=a\nkafka_topic=b\n");
    assert!(c.kafka_topic().is_none());
    assert!(c.track_event_created());
}

#[test]
fn parse_config_empty_optional_value_is_absent() {
    let c = parse_config("kafka_brokers=\nkafka_topic=queries\n");
    assert!(c.kafka_brokers().is_none());
    assert_eq!(c.kafka_topic().as_ref().map(|s| s.as_str()), Some("queries"));
}

#[test]
fn parse_config_ignores_unknown_keys() {
    let c = parse_config("something_else=7\nkafka_topic=queries\n");
    assert_eq!(c.kafka_topic().as_ref().map(|s| s.as_str()), Some("queries"));
    assert!(c.track_event_created());
}

#[test]
fn resolve_config_on_explicit_pairs() {
    let pairs = vec![
        ("track_event_completed".to_string(), "false".to_string()),
        ("kafka_brokers".to_string(), "b:1".to_string()),
    ];
    let c = resolve_config(&pairs).unwrap();
    assert!(c.track_event_created());
    assert!(!c.track_event_completed());
    assert_eq!(c.kafka_brokers().as_ref().map(|s| s.as_str()), Some("b:1"));
    assert!(c.kafka_topic().is_none());

    let bad = vec![("track_event_created".to_string(), "1".to_string())];
    assert!(resolve_config(&bad).is_none());
}
