//! Listener configuration: a typed, immutable value resolved once from a
//! host-supplied properties-style text, falling back to safe defaults on
//! any malformed input.

use vstd::prelude::*;

verus! {

/// Mathematical content of a [`ListenerConfig`].
pub struct ConfigView {
    pub track_created: bool,
    pub track_completed: bool,
    pub brokers: Option<Seq<char>>,
    pub topic: Option<Seq<char>>,
}

/// Immutable listener configuration, fixed at construction time.
pub struct ListenerConfig {
    track_event_created: bool,
    track_event_completed: bool,
    kafka_brokers: Option<String>,
    kafka_topic: Option<String>,
}

impl View for ListenerConfig {
    type V = ConfigView;

    closed spec fn view(&self) -> ConfigView {
        ConfigView {
            track_created: self.track_event_created,
            track_completed: self.track_event_completed,
            brokers: match self.kafka_brokers {
                Some(b) => Some(b@),
                None => None,
            },
            topic: match self.kafka_topic {
                Some(t) => Some(t@),
                None => None,
            },
        }
    }
}

/// The configuration every listener falls back to: both lifecycle events
/// tracked, forwarding disabled.
pub open spec fn default_config() -> ConfigView {
    ConfigView { track_created: true, track_completed: true, brokers: None, topic: None }
}

/// Forwarding is active iff both a broker address and a topic are present.
pub open spec fn forwarding_enabled(c: ConfigView) -> bool {
    c.brokers is Some && c.topic is Some
}

/// Default value of the two tracking flags.
pub fn default_true() -> (r: bool)
    ensures
        r,
{
    true
}

impl ListenerConfig {
    /// Build a configuration from its four resolved settings.
    pub fn new(
        track_event_created: bool,
        track_event_completed: bool,
        kafka_brokers: Option<String>,
        kafka_topic: Option<String>,
    ) -> (r: ListenerConfig)
        ensures
            r@.track_created == track_event_created,
            r@.track_completed == track_event_completed,
            r@.brokers == (match kafka_brokers {
                Some(b) => Some(b@),
                None => None::<Seq<char>>,
            }),
            r@.topic == (match kafka_topic {
                Some(t) => Some(t@),
                None => None::<Seq<char>>,
            }),
    {
        ListenerConfig { track_event_created, track_event_completed, kafka_brokers, kafka_topic }
    }

    /// Whether created-events are tracked.
    pub fn track_event_created(&self) -> (r: bool)
        ensures
            r == self@.track_created,
    {
        self.track_event_created
    }

    /// Whether completed-events are tracked.
    pub fn track_event_completed(&self) -> (r: bool)
        ensures
            r == self@.track_completed,
    {
        self.track_event_completed
    }

    /// The configured broker address, if any.
    pub fn kafka_brokers(&self) -> (r: &Option<String>)
        ensures
            self@.brokers == (match r {
                Some(b) => Some(b@),
                None => None::<Seq<char>>,
            }),
    {
        &self.kafka_brokers
    }

    /// The configured broker topic, if any.
    pub fn kafka_topic(&self) -> (r: &Option<String>)
        ensures
            self@.topic == (match r {
                Some(t) => Some(t@),
                None => None::<Seq<char>>,
            }),
    {
        &self.kafka_topic
    }
}

/// View of an optional owned string.
pub open spec fn opt_view(o: Option<String>) -> Option<Seq<char>> {
    match o {
        Some(s) => Some(s@),
        None => None,
    }
}

/// How a boolean setting is read from its textual value: exactly the words
/// `true` and `false` are accepted.
pub open spec fn spec_parse_bool(v: Seq<char>) -> Option<bool> {
    if v == "true"@ {
        Some(true)
    } else if v == "false"@ {
        Some(false)
    } else {
        None
    }
}

/// Intermediate state while folding key/value pairs into a configuration:
/// the settings resolved so far, and which keys have already been seen
/// (a repeated known key makes the whole payload malformed).
pub struct Resolution {
    pub cfg: ConfigView,
    pub seen_created: bool,
    pub seen_completed: bool,
    pub seen_brokers: bool,
    pub seen_topic: bool,
}

/// Resolution before any pair has been read: defaults, nothing seen.
pub open spec fn initial_resolution() -> Resolution {
    Resolution {
        cfg: default_config(),
        seen_created: false,
        seen_completed: false,
        seen_brokers: false,
        seen_topic: false,
    }
}

/// One key/value pair applied to a resolution state. An unknown key is
/// ignored; a repeated known key or an unreadable boolean fails the whole
/// payload; an empty value for an optional setting leaves it absent.
pub open spec fn resolve_step(st: Resolution, k: Seq<char>, v: Seq<char>) -> Option<Resolution> {
    if k == "track_event_created"@ {
        if st.seen_created {
            None
        } else {
            match spec_parse_bool(v) {
                Some(b) => Some(
                    Resolution {
                        cfg: ConfigView { track_created: b, ..st.cfg },
                        seen_created: true,
                        ..st
                    },
                ),
                None => None,
            }
        }
    } else if k == "track_event_completed"@ {
        if st.seen_completed {
            None
        } else {
            match spec_parse_bool(v) {
                Some(b) => Some(
                    Resolution {
                        cfg: ConfigView { track_completed: b, ..st.cfg },
                        seen_completed: true,
                        ..st
                    },
                ),
                None => None,
            }
        }
    } else if k == "kafka_brokers"@ {
        if st.seen_brokers {
            None
        } else {
            Some(
                Resolution {
                    cfg: ConfigView {
                        brokers: if v.len() == 0 {
                            None
                        } else {
                            Some(v)
                        },
                        ..st.cfg
                    },
                    seen_brokers: true,
                    ..st
                },
            )
        }
    } else if k == "kafka_topic"@ {
        if st.seen_topic {
            None
        } else {
            Some(
                Resolution {
                    cfg: ConfigView {
                        topic: if v.len() == 0 {
                            None
                        } else {
                            Some(v)
                        },
                        ..st.cfg
                    },
                    seen_topic: true,
                    ..st
                },
            )
        }
    } else {
        Some(st)
    }
}

/// Fold the remaining pairs into a resolution state.
pub open spec fn resolve_pairs_from(
    pairs: Seq<(Seq<char>, Seq<char>)>,
    st: Resolution,
) -> Option<Resolution>
    decreases pairs.len(),
{
    if pairs.len() == 0 {
        Some(st)
    } else {
        match resolve_step(st, pairs[0].0, pairs[0].1) {
            Some(next) => resolve_pairs_from(pairs.drop_first(), next),
            None => None,
        }
    }
}

/// The configuration a sequence of key/value pairs resolves to, or `None`
/// where the pairs are malformed as a configuration.
pub open spec fn resolve_pairs(pairs: Seq<(Seq<char>, Seq<char>)>) -> Option<ConfigView> {
    match resolve_pairs_from(pairs, initial_resolution()) {
        Some(st) => Some(st.cfg),
        None => None,
    }
}

/// View of a vector of owned key/value pairs.
pub open spec fn pairs_view(v: Seq<(String, String)>) -> Seq<(Seq<char>, Seq<char>)> {
    v.map_values(|p: (String, String)| (p.0@, p.1@))
}

/// What the properties-format parser yields for a given text: its key/value
/// pairs in order, or nothing where some line is malformed.
pub uninterp spec fn properties_of(text: Seq<char>) -> Option<Seq<(Seq<char>, Seq<char>)>>;

/// Relies on `java_properties::PropertiesIter::read_into`: hands over the
/// key/value pairs of the properties text in order, or fails on the first
/// malformed line; the outcome depends on the text alone.
#[verifier::external_body]
fn read_properties(text: &str) -> (r: Option<Vec<(String, String)>>)
    ensures
        match r {
            Some(v) => properties_of(text@) == Some(pairs_view(v@)),
            None => properties_of(text@) is None,
        },
{
    let source = std::io::Cursor::new(text.as_bytes());
    let mut iter = java_properties::PropertiesIter::new_with_encoding(source, encoding_rs::UTF_8);
    let mut pairs: Vec<(String, String)> = Vec::new();
    match iter.read_into(|k, v| pairs.push((k, v))) {
        Ok(()) => Some(pairs),
        Err(_) => None,
    }
}

/// String equality against a literal.
fn string_eq(a: &String, b: &str) -> (r: bool)
    ensures
        r == (a@ == b@),
{
    let owned = b.to_owned();
    a.eq(&owned)
}

/// Read a boolean setting from its textual value.
pub fn parse_bool(v: &String) -> (r: Option<bool>)
    ensures
        r == spec_parse_bool(v@),
{
    if string_eq(v, "true") {
        Some(true)
    } else if string_eq(v, "false") {
        Some(false)
    } else {
        None
    }
}

/// Resolve key/value pairs into a configuration, or report the payload
/// malformed.
pub fn resolve_config(pairs: &Vec<(String, String)>) -> (r: Option<ListenerConfig>)
    ensures
        match r {
            Some(c) => resolve_pairs(pairs_view(pairs@)) == Some(c@),
            None => resolve_pairs(pairs_view(pairs@)) is None,
        },
{
    let ghost all = pairs_view(pairs@);
    let mut track_created: bool = true;
    let mut track_completed: bool = true;
    let mut brokers: Option<String> = None;
    let mut topic: Option<String> = None;
    let mut seen_created: bool = false;
    let mut seen_completed: bool = false;
    let mut seen_brokers: bool = false;
    let mut seen_topic: bool = false;
    let mut failed: bool = false;
    let mut i: usize = 0;
    proof {
        assert(all.skip(0) =~= all);
    }
    while i < pairs.len() && !failed
        invariant
            i <= pairs@.len(),
            all == pairs_view(pairs@),
            failed ==> resolve_pairs_from(all, initial_resolution()) is None,
            !failed ==> resolve_pairs_from(all, initial_resolution()) == resolve_pairs_from(
                all.skip(i as int),
                Resolution {
                    cfg: ConfigView {
                        track_created: track_created,
                        track_completed: track_completed,
                        brokers: opt_view(brokers),
                        topic: opt_view(topic),
                    },
                    seen_created: seen_created,
                    seen_completed: seen_completed,
                    seen_brokers: seen_brokers,
                    seen_topic: seen_topic,
                },
            ),
        decreases pairs@.len() - i,
    {
        let ghost i0 = i as int;
        let ghost st_pre = Resolution {
            cfg: ConfigView {
                track_created: track_created,
                track_completed: track_completed,
                brokers: opt_view(brokers),
                topic: opt_view(topic),
            },
            seen_created: seen_created,
            seen_completed: seen_completed,
            seen_brokers: seen_brokers,
            seen_topic: seen_topic,
        };
        let k = &pairs[i].0;
        let v = &pairs[i].1;
        if string_eq(k, "track_event_created") {
            if seen_created {
                failed = true;
            } else {
                match parse_bool(v) {
                    Some(b) => {
                        track_created = b;
                        seen_created = true;
                    },
                    None => {
                        failed = true;
                    },
                }
            }
        } else if string_eq(k, "track_event_completed") {
            if seen_completed {
                failed = true;
            } else {
                match parse_bool(v) {
                    Some(b) => {
                        track_completed = b;
                        seen_completed = true;
                    },
                    None => {
                        failed = true;
                    },
                }
            }
        } else if string_eq(k, "kafka_brokers") {
            if seen_brokers {
                failed = true;
            } else {
                if v.as_str().is_empty() {
                    brokers = None;
                } else {
                    brokers = Some(v.clone());
                }
                seen_brokers = true;
            }
        } else if string_eq(k, "kafka_topic") {
            if seen_topic {
                failed = true;
            } else {
                if v.as_str().is_empty() {
                    topic = None;
                } else {
                    topic = Some(v.clone());
                }
                seen_topic = true;
            }
        }
        i = i + 1;
        proof {
            let st_post = Resolution {
                cfg: ConfigView {
                    track_created: track_created,
                    track_completed: track_completed,
                    brokers: opt_view(brokers),
                    topic: opt_view(topic),
                },
                seen_created: seen_created,
                seen_completed: seen_completed,
                seen_brokers: seen_brokers,
                seen_topic: seen_topic,
            };
            assert(all[i0] == (pairs@[i0].0@, pairs@[i0].1@));
            assert(all.skip(i0)[0] == all[i0]);
            assert(all.skip(i0).drop_first() =~= all.skip(i0 + 1));
            if failed {
                assert(resolve_step(st_pre, all[i0].0, all[i0].1) is None || (
                resolve_pairs_from(all, initial_resolution()) is None));
                assert(resolve_pairs_from(all.skip(i0), st_pre) is None || (
                resolve_pairs_from(all, initial_resolution()) is None));
            } else {
                assert(resolve_step(st_pre, all[i0].0, all[i0].1) == Some(st_post));
                assert(resolve_pairs_from(all.skip(i0), st_pre) == resolve_pairs_from(
                    all.skip(i0 + 1),
                    st_post,
                ));
            }
        }
    }
    if failed {
        return None;
    }
    proof {
        assert(all.skip(pairs@.len() as int).len() == 0);
    }
    Some(ListenerConfig::new(track_created, track_completed, brokers, topic))
}

/// What a host-supplied configuration text resolves to: its configuration,
/// or the default one where the text or its values are malformed.
pub open spec fn spec_parse_config(text: Seq<char>) -> ConfigView {
    match properties_of(text) {
        Some(pairs) => match resolve_pairs(pairs) {
            Some(c) => c,
            None => default_config(),
        },
        None => default_config(),
    }
}

/// Resolve a host-supplied properties text into a configuration. Never
/// fails: any malformed input yields the default configuration.
pub fn parse_config(text: &str) -> (r: ListenerConfig)
    ensures
        r@ == spec_parse_config(text@),
{
    match read_properties(text) {
        Some(pairs) => match resolve_config(&pairs) {
            Some(c) => c,
            None => ListenerConfig::default(),
        },
        None => ListenerConfig::default(),
    }
}

/// Law: a malformed configuration payload still resolves — to the default
/// configuration, with both events tracked and forwarding disabled.
pub proof fn lemma_malformed_config_defaults(text: Seq<char>)
    requires
        properties_of(text) is None || (properties_of(text) matches Some(pairs)
            && resolve_pairs(pairs) is None),
    ensures
        spec_parse_config(text) == default_config(),
        spec_parse_config(text).track_created,
        spec_parse_config(text).track_completed,
        !forwarding_enabled(spec_parse_config(text)),
{
}

impl Default for ListenerConfig {
    /// Both tracking flags on, forwarding disabled.
    fn default() -> (r: ListenerConfig)
        ensures
            r@ == default_config(),
    {
        ListenerConfig {
            track_event_created: true,
            track_event_completed: true,
            kafka_brokers: None,
            kafka_topic: None,
        }
    }
}

} // verus!
