//! Source-side filtering of subscription log events.
//!
//! The subscription yields one `LogEvent` per inbound message. Events
//! whose `failed` flag is set carry no balance-changing outcome and
//! are dropped at the source: only the identifiers of successful
//! transactions may proceed towards the queue.

use vstd::prelude::*;

verus! {

/// One message from the log subscription: the transaction identifier,
/// whether the transaction failed, and the raw log lines (kept only
/// until the success filter has been applied).
pub struct LogEvent {
    pub id: String,
    pub failed: bool,
    pub raw_log_lines: Vec<String>,
}

/// The source-side success filter: a failed event yields nothing, a
/// successful event yields exactly its transaction identifier. Only
/// identifiers returned here may ever be enqueued, so no failed
/// event's identifier can reach the queue.
pub fn filter_event(event: LogEvent) -> (r: Option<String>)
    ensures
        event.failed ==> r is None,
        !event.failed ==> (r matches Some(id) && id@ == event.id@),
{
    if event.failed {
        None
    } else {
        Some(event.id)
    }
}

} // verus!
