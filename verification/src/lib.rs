//! An embeddable query-event listener: a host engine reports lifecycle
//! events ("query created", "query completed") and this library decides,
//! from a once-resolved configuration, what each report amounts to —
//! nothing, a recovered bad payload, or a record to log and optionally
//! forward to a message broker.

pub mod config;
pub mod listener;
pub mod registry;
