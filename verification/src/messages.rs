use vstd::prelude::*;
use crate::fields::FieldMap;

verus! {

/// An immutable event within a stream. The id is empty on a write (the
/// store assigns it) and populated on a query result.
pub struct Event {
    /// The store-assigned id of the event; empty when writing.
    pub event_id: String,
    /// The stream the event belongs to.
    pub stream: String,
    /// The event's field mapping.
    pub values: FieldMap,
}

/// The response to a write: the id the store assigned to the event.
pub struct WriteResponse {
    /// The store-native id, combining timestamp and sequence.
    pub event_id: String,
}

/// An inclusive timestamp interval restricting a stream query.
#[derive(Clone, Copy, Debug, PartialEq, Eq, Structural)]
pub struct TimeRange {
    /// Events must have occurred at or after this time.
    pub min_time: u64,
    /// Events must have occurred at or before this time.
    pub max_time: u64,
}

/// A query against a stream: an optional time range and an optional result
/// cap (zero means unbounded).
pub struct StreamQuery {
    /// The stream to query.
    pub stream_id: String,
    /// An optional time range limiter.
    pub range: Option<TimeRange>,
    /// Maximum number of results; zero returns all that are available.
    pub count: u64,
}

/// The ordered results of a stream query, in the store's ascending id order.
pub struct StreamResults {
    /// The reconstructed events.
    pub events: Vec<Event>,
}

/// What the host hands over at bind time: the caller identity and its
/// configuration options.
pub struct CapabilityConfiguration {
    /// The caller identity the configuration is for.
    pub module: String,
    /// Option-name to option-value mapping.
    pub values: FieldMap,
}

} // verus!
