use vstd::prelude::*;

use crate::create_dataset::upload_recorded;
use crate::redeem::fully_claimed;
use crate::state::{rescored, Identity, Reputation};
use crate::update_reputation::{
    activity_applied, activity_fits, citation_applied, citation_fits, download_applied,
    download_fits, review_applied, review_fits, upload_applied, upload_fits,
};

verus! {

/// One operation on a contributor's ledger, as the ledger sees it.
pub enum LedgerAction {
    /// `create_dataset` of a dataset of the given quality by `contributor`.
    CreateDataset { contributor: Identity, quality_score: u8 },
    /// `update_reputation_upload` with the given quality.
    Upload { quality_score: u8 },
    /// `update_reputation_download` at the given time.
    Download { now: i64 },
    /// `update_reputation_citation`.
    Citation,
    /// `update_reputation_review`.
    Review,
    /// `update_reputation_activity` at the given time.
    Activity { now: i64 },
    /// `redeem_points`.
    Redeem,
}

/// The ledger after `action` succeeds, or `None` where the operation's own
/// contract says that it fails on this ledger.
pub open spec fn action_result(r: Reputation, action: LedgerAction) -> Option<Reputation> {
    match action {
        LedgerAction::CreateDataset { contributor, quality_score } => {
            if r.dataset_count < u32::MAX && r.total_uploads < u32::MAX && r.total_quality_score
                + quality_score <= u64::MAX {
                Some(
                    Reputation {
                        dataset_count: (r.dataset_count + 1) as u32,
                        ..upload_recorded(r, contributor, quality_score)
                    },
                )
            } else {
                None
            }
        },
        LedgerAction::Upload { quality_score } => {
            if upload_fits(r, quality_score) {
                Some(rescored(upload_applied(r, quality_score)))
            } else {
                None
            }
        },
        LedgerAction::Download { now } => {
            if download_fits(r, now) {
                Some(rescored(download_applied(r, now)))
            } else {
                None
            }
        },
        LedgerAction::Citation => {
            if citation_fits(r) {
                Some(rescored(citation_applied(r)))
            } else {
                None
            }
        },
        LedgerAction::Review => {
            if review_fits(r) {
                Some(rescored(review_applied(r)))
            } else {
                None
            }
        },
        LedgerAction::Activity { now } => {
            if activity_fits(r, now) {
                Some(rescored(activity_applied(r, now)))
            } else {
                None
            }
        },
        LedgerAction::Redeem => {
            if r.reputation_score > r.claimed_points {
                Some(fully_claimed(r))
            } else {
                None
            }
        },
    }
}

/// The ledger after a run of operations, in order. A failed operation leaves
/// the ledger as it was.
pub open spec fn ledger_after(r: Reputation, actions: Seq<LedgerAction>) -> Reputation
    decreases actions.len(),
{
    if actions.len() == 0 {
        r
    } else {
        let next = match action_result(r, actions[0]) {
            Some(n) => n,
            None => r,
        };
        ledger_after(next, actions.drop_first())
    }
}

/// One operation keeps a consistent ledger consistent.
pub proof fn lemma_action_keeps_ledger_consistent(r: Reputation, action: LedgerAction)
    requires
        r.wf(),
    ensures
        action_result(r, action) matches Some(n) ==> n.wf(),
{
}

/// After any run of operations on a consistent ledger (a freshly opened one
/// among them), the stored score is still the low 32 bits of
/// upload + review + activity points + 2 per download + 15 per citation, and
/// the day's activity points are within the daily cap.
pub proof fn lemma_ledger_stays_consistent(r: Reputation, actions: Seq<LedgerAction>)
    requires
        r.wf(),
    ensures
        ledger_after(r, actions).wf(),
    decreases actions.len(),
{
    if actions.len() > 0 {
        lemma_action_keeps_ledger_consistent(r, actions[0]);
        let next = match action_result(r, actions[0]) {
            Some(n) => n,
            None => r,
        };
        lemma_ledger_stays_consistent(next, actions.drop_first());
    }
}

/// A freshly opened ledger is consistent, so every run of operations from it
/// keeps the score equal to its formula.
pub proof fn lemma_fresh_ledger_stays_consistent(
    contributor: Identity,
    bump: u8,
    actions: Seq<LedgerAction>,
)
    ensures
        ledger_after(Reputation::zeroed(contributor, bump), actions).wf(),
{
    lemma_ledger_stays_consistent(Reputation::zeroed(contributor, bump), actions);
}

} // verus!
