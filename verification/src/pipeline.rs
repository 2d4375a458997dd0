//! The per-transaction enrichment step.
//!
//! Each queued identifier is enriched by one detail lookup, whose
//! outcome is handed here as a plain value. The step resolves the
//! balance delta, classifies it against the threshold, and yields the
//! alert to deliver — or nothing. Every per-event failure is absorbed
//! inside this step: a lookup miss (the transaction not yet indexed),
//! a transport error and a malformed detail all yield no alert and no
//! error, and never disturb the rest of the pipeline.

use vstd::prelude::*;
use crate::alert::AlertMessage;
use crate::alert::build_alert_message;
use crate::alert::spec_alert_text;
use crate::alert::spec_explorer_link;
use crate::resolve::TransactionDetail;
use crate::resolve::qualifies;
use crate::resolve::resolve;
use crate::resolve::spec_abs_diff;

verus! {

/// The outcome of one external detail lookup, as a plain value.
pub enum LookupOutcome {
    /// The lookup returned full transaction detail.
    Found(TransactionDetail),
    /// The lookup reported the transaction as not found — expected
    /// for very recent events not yet indexed; treated as a no-op.
    NotFound,
    /// The lookup failed in transport; absorbed, never escalated.
    TransportError,
}

/// Whether a found detail carries a transfer that must be alerted:
/// both balance lists non-empty and the primary balance delta
/// strictly above the threshold.
pub open spec fn spec_alert_due(detail: TransactionDetail, threshold_lamports: int) -> bool {
    &&& detail.pre_balances@.len() > 0
    &&& detail.post_balances@.len() > 0
    &&& spec_abs_diff(detail.pre_balances@[0] as int, detail.post_balances@[0] as int)
        > threshold_lamports
}

/// The amount, in base units, of a found detail's primary transfer.
pub open spec fn spec_found_amount(detail: TransactionDetail) -> int {
    spec_abs_diff(detail.pre_balances@[0] as int, detail.post_balances@[0] as int)
}

/// Runs one enrichment step on a lookup outcome.
///
/// An alert comes back exactly when the lookup found detail whose
/// primary balance delta strictly exceeds the threshold; the alert
/// then carries the text and explorer link built for that delta. A
/// miss, a transport error, a detail with nothing to evaluate, and a
/// delta at or below the threshold all yield nothing.
pub fn process_transaction(outcome: LookupOutcome, threshold_lamports: u64) -> (r: Option<
    AlertMessage,
>)
    ensures
        r is Some <==> (outcome matches LookupOutcome::Found(d) && spec_alert_due(
            d,
            threshold_lamports as int,
        )),
        outcome matches LookupOutcome::Found(d) ==> r matches Some(m) ==> ({
            &&& m.text@ == spec_alert_text(
                spec_found_amount(d),
                d.id@,
                d.pre_balances@[0] as int,
                d.post_balances@[0] as int,
            )
            &&& m.link@ == spec_explorer_link(d.id@)
        }),
{
    match outcome {
        LookupOutcome::Found(detail) => {
            match resolve(&detail) {
                Some(delta) => {
                    if qualifies(&delta, threshold_lamports) {
                        Some(build_alert_message(&delta))
                    } else {
                        None
                    }
                },
                None => None,
            }
        },
        LookupOutcome::NotFound => None,
        LookupOutcome::TransportError => None,
    }
}

} // verus!
