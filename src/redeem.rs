use vstd::prelude::*;

use crate::constants::POINTS_TO_ARB_RATE;
use crate::error::ErrorCode;
use crate::state::{Identity, Reputation};

verus! {

/// The records a redemption touches: `user` must own the ledger.
pub struct RedeemPoints {
    pub user: Identity,
    pub reputation: Reputation,
}

/// The ledger with its claimed watermark advanced to its score.
pub open spec fn fully_claimed(r: Reputation) -> Reputation {
    Reputation { claimed_points: r.reputation_score as u64, ..r }
}

impl RedeemPoints {
    /// The redeeming user owns the ledger.
    pub open spec fn authorized(self) -> bool {
        self.reputation.contributor.bytes@ == self.user.bytes@
    }

    /// Redeems every unclaimed point of the ledger. On success the claimed
    /// watermark is advanced to the score and the amount of reward tokens to
    /// pay out is returned; the payment itself is the caller's to make, in the
    /// same atomic unit as the watermark update.
    pub fn redeem_points(&mut self) -> (r: Result<u64, ErrorCode>)
        ensures
            !old(self).authorized() ==> r == Err::<u64, ErrorCode>(
                ErrorCode::UnauthorizedReputationUpdate,
            ),
            old(self).authorized() && old(self).reputation.unclaimed() <= 0 ==> r == Err::<
                u64,
                ErrorCode,
            >(ErrorCode::NothingToRedeem),
            old(self).authorized() && old(self).reputation.unclaimed() > 0 ==> r == Ok::<
                u64,
                ErrorCode,
            >((old(self).reputation.unclaimed() * POINTS_TO_ARB_RATE) as u64),
            r is Ok ==> final(self).user == old(self).user,
            r is Ok ==> final(self).reputation == fully_claimed(old(self).reputation),
            r is Ok ==> final(self).reputation.claimed_points
                <= final(self).reputation.reputation_score,
            r is Ok ==> r->Ok_0 > 0,
            r is Err ==> *final(self) == *old(self),
            old(self).reputation.wf() ==> final(self).reputation.wf(),
    {
        if !self.reputation.contributor.same_as(&self.user) {
            return Err(ErrorCode::UnauthorizedReputationUpdate);
        }
        let total_score = self.reputation.reputation_score as u64;
        let claimed = self.reputation.claimed_points;
        if total_score <= claimed {
            return Err(ErrorCode::NothingToRedeem);
        }
        let available_points = total_score - claimed;
        let amount_to_transfer = match available_points.checked_mul(POINTS_TO_ARB_RATE) {
            Some(v) => v,
            None => return Err(ErrorCode::NumericalOverflow),
        };
        if amount_to_transfer == 0 {
            return Ok(0);
        }
        self.reputation.claimed_points = match claimed.checked_add(available_points) {
            Some(v) => v,
            None => return Err(ErrorCode::NumericalOverflow),
        };
        Ok(amount_to_transfer)
    }
}

} // verus!
