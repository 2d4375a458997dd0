//! Balance-delta resolution and threshold classification.
//!
//! A fetched `TransactionDetail` carries the pre- and post-transaction
//! balances of every account the transaction touched, in base units
//! (lamports; one display unit is `LAMPORTS_PER_SOL` base units).
//! Resolution reads index 0 of each list — the primary account of the
//! event filter — and derives the absolute transferred amount. A
//! detail with an empty balance list carries nothing to evaluate and
//! resolves to no delta; that is a legitimate no-op, not an error.

use vstd::prelude::*;

verus! {

/// Full transaction detail as fetched from the lookup collaborator:
/// the transaction identifier and the ordered pre/post balance lists
/// in base units.
pub struct TransactionDetail {
    pub id: String,
    pub pre_balances: Vec<u64>,
    pub post_balances: Vec<u64>,
}

/// The transfer derived from one `TransactionDetail`: the absolute
/// balance change of the primary account, in base units, together
/// with the balances it moved between.
pub struct BalanceDelta {
    pub id: String,
    pub amount_lamports: u64,
    pub pre_lamports: u64,
    pub post_lamports: u64,
}

/// The absolute difference of two balances.
pub open spec fn spec_abs_diff(a: int, b: int) -> int {
    if a >= b {
        a - b
    } else {
        b - a
    }
}

/// The absolute difference is symmetric in its two arguments: the
/// amount derived from balances `(a, b)` equals the amount derived
/// from `(b, a)`.
pub proof fn lemma_abs_diff_symmetric(a: int, b: int)
    ensures
        spec_abs_diff(a, b) == spec_abs_diff(b, a),
{
}

/// Resolves a fetched detail into its balance delta.
///
/// Returns no delta exactly when either balance list is empty;
/// otherwise the delta holds the absolute difference of the two
/// primary balances and the balances themselves.
pub fn resolve(detail: &TransactionDetail) -> (r: Option<BalanceDelta>)
    ensures
        (detail.pre_balances@.len() == 0 || detail.post_balances@.len() == 0) <==> r is None,
        r matches Some(d) ==> ({
            &&& d.id@ == detail.id@
            &&& d.pre_lamports == detail.pre_balances@[0]
            &&& d.post_lamports == detail.post_balances@[0]
            &&& d.amount_lamports == spec_abs_diff(
                detail.pre_balances@[0] as int,
                detail.post_balances@[0] as int,
            )
        }),
{
    if detail.pre_balances.len() == 0 || detail.post_balances.len() == 0 {
        return None;
    }
    let pre: u64 = detail.pre_balances[0];
    let post: u64 = detail.post_balances[0];
    let amount: u64 = if pre >= post {
        pre - post
    } else {
        post - pre
    };
    Some(BalanceDelta {
        id: detail.id.clone(),
        amount_lamports: amount,
        pre_lamports: pre,
        post_lamports: post,
    })
}

/// Threshold classification: a delta qualifies for an alert exactly
/// when its amount strictly exceeds the configured threshold. An
/// amount equal to the threshold does not qualify.
pub fn qualifies(delta: &BalanceDelta, threshold_lamports: u64) -> (r: bool)
    ensures
        r <==> delta.amount_lamports > threshold_lamports,
{
    delta.amount_lamports > threshold_lamports
}

/// Resolution is symmetric in the two balance lists: two details that
/// agree except that pre- and post-balances are swapped resolve to
/// deltas with the same amount.
pub proof fn lemma_resolve_symmetric(a: TransactionDetail, b: TransactionDetail)
    requires
        a.pre_balances@ == b.post_balances@,
        a.post_balances@ == b.pre_balances@,
        a.pre_balances@.len() > 0,
        a.post_balances@.len() > 0,
    ensures
        spec_abs_diff(a.pre_balances@[0] as int, a.post_balances@[0] as int)
            == spec_abs_diff(b.pre_balances@[0] as int, b.post_balances@[0] as int),
{
}

} // verus!
