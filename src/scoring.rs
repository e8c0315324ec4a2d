use vstd::prelude::*;

use crate::constants::{
    CITATION_WEIGHT, DOWNLOAD_WEIGHT, UPLOAD_TIER_1_REWARD, UPLOAD_TIER_1_THRESHOLD,
    UPLOAD_TIER_2_REWARD, UPLOAD_TIER_2_THRESHOLD, UPLOAD_TIER_3_REWARD,
};
use crate::error::ErrorCode;
use crate::state::{points_total, rescored, scorable, Reputation};

verus! {

/// The tiered reward for an upload of the given quality.
pub open spec fn upload_reward_spec(quality_score: int) -> int {
    if quality_score > 71 {
        300
    } else if quality_score >= 50 {
        35
    } else {
        20
    }
}

/// The points an upload of the given quality earns: 300 above 71, 35 from 50
/// to 71, and 20 below 50.
pub fn upload_reward(quality_score: u8) -> (r: u32)
    ensures
        r == upload_reward_spec(quality_score as int),
{
    if quality_score > UPLOAD_TIER_2_THRESHOLD {
        UPLOAD_TIER_3_REWARD
    } else if quality_score >= UPLOAD_TIER_1_THRESHOLD {
        UPLOAD_TIER_2_REWARD
    } else {
        UPLOAD_TIER_1_REWARD
    }
}

/// Recomputes `reputation_score` from the ledger's counters. Fails, changing
/// nothing, when the point total does not fit in 64 bits.
pub fn calculate_reputation_score(reputation: &mut Reputation) -> (r: Result<(), ErrorCode>)
    ensures
        scorable(*old(reputation)) ==> r is Ok && *final(reputation) == rescored(*old(reputation)),
        !scorable(*old(reputation)) ==> r == Err::<(), ErrorCode>(ErrorCode::NumericalOverflow)
            && *final(reputation) == *old(reputation),
{
    let download_score = match reputation.total_downloads.checked_mul(DOWNLOAD_WEIGHT as u64) {
        Some(v) => v,
        None => return Err(ErrorCode::NumericalOverflow),
    };
    let citation_score = match (reputation.total_citations as u64).checked_mul(
        CITATION_WEIGHT as u64,
    ) {
        Some(v) => v,
        None => return Err(ErrorCode::NumericalOverflow),
    };
    let mut total = match reputation.total_upload_points.checked_add(
        reputation.total_review_points,
    ) {
        Some(v) => v,
        None => return Err(ErrorCode::NumericalOverflow),
    };
    total = match total.checked_add(reputation.total_activity_points) {
        Some(v) => v,
        None => return Err(ErrorCode::NumericalOverflow),
    };
    total = match total.checked_add(download_score) {
        Some(v) => v,
        None => return Err(ErrorCode::NumericalOverflow),
    };
    total = match total.checked_add(citation_score) {
        Some(v) => v,
        None => return Err(ErrorCode::NumericalOverflow),
    };
    let low: u32 = #[verifier::truncate] (total as u32);
    assert(low == (total % 0x1_0000_0000) as u32) by (bit_vector)
        requires
            low == #[verifier::truncate] (total as u32),
    ;
    reputation.reputation_score = low;
    Ok(())
}

} // verus!
