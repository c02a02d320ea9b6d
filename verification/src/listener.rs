//! The listener core: holds the resolved configuration and the forwarding
//! decision, and maps each lifecycle report to the action the surrounding
//! process must perform — nothing, a recovered bad payload, or a record to
//! log and optionally forward.

use vstd::prelude::*;
use crate::config::{ConfigView, ListenerConfig, forwarding_enabled};

verus! {

/// Mathematical content of a [`BrokerMessage`].
pub struct MessageView {
    pub topic: Seq<char>,
    pub key: Seq<char>,
    pub payload: Seq<char>,
}

/// A message to submit to the broker: the raw, unmodified event text as
/// payload, an empty key, the configured topic.
pub struct BrokerMessage {
    pub topic: String,
    pub key: String,
    pub payload: String,
}

impl View for BrokerMessage {
    type V = MessageView;

    closed spec fn view(&self) -> MessageView {
        MessageView { topic: self.topic@, key: self.key@, payload: self.payload@ }
    }
}

/// Spec-level description of what one lifecycle report amounts to.
pub enum ActionView {
    Skipped,
    Rejected,
    Record { forward: Option<MessageView> },
}

/// What a lifecycle report asks the surrounding process to do.
pub enum EventAction {
    /// Tracking for this event kind is off: nothing happens at all.
    Skipped,
    /// The payload was not well-formed JSON: recovered as a no-op.
    Rejected,
    /// Record the event, and submit the message if one is present.
    Record { forward: Option<BrokerMessage> },
}

impl View for EventAction {
    type V = ActionView;

    closed spec fn view(&self) -> ActionView {
        match self {
            EventAction::Skipped => ActionView::Skipped,
            EventAction::Rejected => ActionView::Rejected,
            EventAction::Record { forward } => ActionView::Record {
                forward: match forward {
                    Some(m) => Some(m@),
                    None => None,
                },
            },
        }
    }
}

/// Mathematical content of a [`QueryLogListener`].
pub struct ListenerView {
    pub config: ConfigView,
    pub forward_topic: Option<Seq<char>>,
}

/// The listener a given configuration and producer outcome construct:
/// forwarding is on iff both broker settings are present and the producer
/// was in fact constructed.
pub open spec fn spec_new(config: ConfigView, producer_created: bool) -> ListenerView {
    ListenerView {
        config: config,
        forward_topic: if producer_created && forwarding_enabled(config) {
            config.topic
        } else {
            None
        },
    }
}

/// Whether a text is well-formed JSON, as the JSON parser accepts it.
pub uninterp spec fn json_accepts(text: Seq<char>) -> bool;

/// Relies on `serde_json::from_str::<serde_json::Value>`: whether the text
/// is accepted as JSON depends on the text alone.
#[verifier::external_body]
fn json_is_valid(text: &str) -> (r: bool)
    ensures
        r == json_accepts(text@),
{
    match serde_json::from_str::<serde_json::Value>(text) {
        Ok(_) => true,
        Err(_) => false,
    }
}

/// The action one lifecycle report amounts to, given the tracking flag that
/// gates this event kind.
pub open spec fn spec_action(l: ListenerView, gate: bool, ev: Seq<char>) -> ActionView {
    if !gate {
        ActionView::Skipped
    } else if !json_accepts(ev) {
        ActionView::Rejected
    } else {
        ActionView::Record {
            forward: match l.forward_topic {
                Some(t) => Some(
                    MessageView { topic: t, key: Seq::<char>::empty(), payload: ev },
                ),
                None => None,
            },
        }
    }
}

/// The action of a created-event report.
pub open spec fn spec_created_action(l: ListenerView, ev: Seq<char>) -> ActionView {
    spec_action(l, l.config.track_created, ev)
}

/// The action of a completed-event report.
pub open spec fn spec_completed_action(l: ListenerView, ev: Seq<char>) -> ActionView {
    spec_action(l, l.config.track_completed, ev)
}

/// The listener core: an immutable configuration fixed at construction and
/// the topic to forward to, present iff forwarding is active.
pub struct QueryLogListener {
    config: ListenerConfig,
    forward_topic: Option<String>,
}

impl View for QueryLogListener {
    type V = ListenerView;

    closed spec fn view(&self) -> ListenerView {
        ListenerView {
            config: self.config@,
            forward_topic: match self.forward_topic {
                Some(t) => Some(t@),
                None => None,
            },
        }
    }
}

impl QueryLogListener {
    /// Decide whether a broker client is to be constructed: yields the
    /// broker address and topic iff both are configured; their absence is
    /// a valid state, not an error.
    pub fn forwarding_request(config: &ListenerConfig) -> (r: Option<(String, String)>)
        ensures
            match r {
                Some(bt) => forwarding_enabled(config@) && config@.brokers == Some(bt.0@)
                    && config@.topic == Some(bt.1@),
                None => !forwarding_enabled(config@),
            },
    {
        match config.kafka_brokers() {
            Some(b) => match config.kafka_topic() {
                Some(t) => Some((b.clone(), t.clone())),
                None => None,
            },
            None => None,
        }
    }

    /// Assemble the listener core from its configuration and the outcome of
    /// the producer construction the configuration asked for. Never fails:
    /// a missing or failed producer only disables forwarding.
    pub fn new(config: ListenerConfig, producer_created: bool) -> (r: QueryLogListener)
        ensures
            r@ == spec_new(config@, producer_created),
    {
        let mut forward_topic: Option<String> = None;
        if producer_created {
            if config.kafka_brokers().is_some() {
                match config.kafka_topic() {
                    Some(t) => {
                        forward_topic = Some(t.clone());
                    },
                    None => {},
                }
            }
        }
        QueryLogListener { config, forward_topic }
    }

    /// The action a report amounts to, gated by the given tracking flag.
    fn react(&self, gate: bool, event: &String) -> (r: EventAction)
        ensures
            r@ == spec_action(self@, gate, event@),
    {
        if !gate {
            return EventAction::Skipped;
        }
        if !json_is_valid(event.as_str()) {
            return EventAction::Rejected;
        }
        match &self.forward_topic {
            Some(t) => EventAction::Record {
                forward: Some(
                    BrokerMessage { topic: t.clone(), key: String::new(), payload: event.clone() },
                ),
            },
            None => EventAction::Record { forward: None },
        }
    }

    /// React to a created-event report: nothing if created-events are
    /// untracked; a recovered no-op if the payload is not well-formed JSON;
    /// otherwise a record, forwarded iff a producer is present.
    pub fn query_created(&self, event: &String) -> (r: EventAction)
        ensures
            r@ == spec_created_action(self@, event@),
    {
        self.react(self.config.track_event_created(), event)
    }

    /// React to a completed-event report: the same contract as for
    /// created-events, gated by the completed-events flag.
    pub fn query_completed(&self, event: &String) -> (r: EventAction)
        ensures
            r@ == spec_completed_action(self@, event@),
    {
        self.react(self.config.track_event_completed(), event)
    }
}

/// Law: with created-event tracking off, a created-event report is a
/// complete no-op, whatever the payload, the forwarding state, and the
/// completed-events flag.
pub proof fn lemma_untracked_created_is_noop(l: ListenerView, ev: Seq<char>)
    requires
        !l.config.track_created,
    ensures
        spec_created_action(l, ev) == ActionView::Skipped,
{
}

/// Law: construction is deterministic and behavior depends only on the
/// constructed state — two listeners built from identical configurations
/// and identical producer outcomes are equal and act identically on every
/// payload.
pub proof fn lemma_identical_configuration(
    c: ConfigView,
    producer_created: bool,
    a: ListenerView,
    b: ListenerView,
    ev: Seq<char>,
)
    requires
        a == spec_new(c, producer_created),
        b == spec_new(c, producer_created),
    ensures
        a == b,
        spec_created_action(a, ev) == spec_created_action(b, ev),
        spec_completed_action(a, ev) == spec_completed_action(b, ev),
{
}

/// Whether an action carries a message to submit to the broker.
pub open spec fn forwards(a: ActionView) -> bool {
    a matches ActionView::Record { forward: Some(_) }
}

/// Law: a configuration missing either broker setting never forwards —
/// whatever the producer outcome, the constructed listener carries no
/// forwarding topic, and no report of either kind yields a message.
pub proof fn lemma_forwarding_disabled(c: ConfigView, producer_created: bool, ev: Seq<char>)
    requires
        !forwarding_enabled(c),
    ensures
        spec_new(c, producer_created).forward_topic is None,
        !forwards(spec_created_action(spec_new(c, producer_created), ev)),
        !forwards(spec_completed_action(spec_new(c, producer_created), ev)),
{
}

} // verus!
