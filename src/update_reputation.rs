use vstd::prelude::*;

use crate::constants::{COMMUNITY_REWARD, DAILY_COMMUNITY_CAP, REVIEW_REWARD, SECONDS_PER_DAY};
use crate::error::ErrorCode;
use crate::scoring::{calculate_reputation_score, upload_reward, upload_reward_spec};
use crate::state::{rescored, scorable, Dataset, Identity, Reputation};

verus! {

/// The records an upload reward touches.
pub struct UpdateReputationOnUpload {
    pub reputation: Reputation,
}

/// The records a download touches: the downloaded dataset must belong to `contributor`.
pub struct UpdateReputationOnDownload {
    pub contributor: Identity,
    pub reputation: Reputation,
    pub dataset: Dataset,
}

/// The records a citation touches: the cited dataset must belong to `contributor`.
pub struct UpdateReputationOnCitation {
    pub contributor: Identity,
    pub reputation: Reputation,
    pub dataset: Dataset,
}

/// The records a peer-review reward touches.
pub struct UpdateReputationOnReview {
    pub reputation: Reputation,
}

/// The records a community-activity reward touches.
pub struct UpdateReputationActivity {
    pub reputation: Reputation,
}

/// The ledger after an upload of quality `q`, before its score is recomputed.
pub open spec fn upload_applied(r: Reputation, q: u8) -> Reputation {
    Reputation {
        total_uploads: (r.total_uploads + 1) as u32,
        total_quality_score: (r.total_quality_score + q) as u64,
        total_upload_points: (r.total_upload_points + upload_reward_spec(q as int)) as u64,
        ..r
    }
}

/// An upload of quality `q` overflows no counter of `r`.
pub open spec fn upload_fits(r: Reputation, q: u8) -> bool {
    &&& r.total_uploads < u32::MAX
    &&& r.total_quality_score + q <= u64::MAX
    &&& r.total_upload_points + upload_reward_spec(q as int) <= u64::MAX
    &&& scorable(upload_applied(r, q))
}

/// The ledger after a download at time `now`, before its score is recomputed.
pub open spec fn download_applied(r: Reputation, now: i64) -> Reputation {
    Reputation { total_downloads: (r.total_downloads + 1) as u64, download_time: now, ..r }
}

/// A download overflows no counter of `r`.
pub open spec fn download_fits(r: Reputation, now: i64) -> bool {
    &&& r.total_downloads < u64::MAX
    &&& scorable(download_applied(r, now))
}

/// The ledger after a citation, before its score is recomputed.
pub open spec fn citation_applied(r: Reputation) -> Reputation {
    Reputation { total_citations: (r.total_citations + 1) as u32, ..r }
}

/// A citation overflows no counter of `r`.
pub open spec fn citation_fits(r: Reputation) -> bool {
    &&& r.total_citations < u32::MAX
    &&& scorable(citation_applied(r))
}

/// The ledger after a peer review, before its score is recomputed.
pub open spec fn review_applied(r: Reputation) -> Reputation {
    Reputation {
        total_reviews: (r.total_reviews + 1) as u64,
        total_review_points: (r.total_review_points + REVIEW_REWARD) as u64,
        ..r
    }
}

/// A peer review overflows no counter of `r`.
pub open spec fn review_fits(r: Reputation) -> bool {
    &&& r.total_reviews < u64::MAX
    &&& r.total_review_points + REVIEW_REWARD <= u64::MAX
    &&& scorable(review_applied(r))
}

/// The calendar day of an epoch timestamp: the quotient by the seconds of a
/// day, rounded toward zero.
pub open spec fn epoch_day(t: int) -> int {
    if t >= 0 {
        t / 86400
    } else {
        -((-t) / 86400)
    }
}

/// The day's activity points before an award at time `now`: zero on a later
/// calendar day than the last activity, else the stored count.
pub open spec fn activity_base(daily: u32, last: i64, now: i64) -> int {
    if epoch_day(now as int) > epoch_day(last as int) {
        0
    } else {
        daily as int
    }
}

/// The points awarded for one activity when the day's count is `base`: the
/// community reward, cut down to what is left under the daily cap.
pub open spec fn activity_award(base: int) -> int {
    if base < DAILY_COMMUNITY_CAP {
        if COMMUNITY_REWARD <= DAILY_COMMUNITY_CAP - base {
            COMMUNITY_REWARD as int
        } else {
            DAILY_COMMUNITY_CAP - base
        }
    } else {
        0
    }
}

/// The day's activity points after one activity at time `now`.
pub open spec fn activity_daily(daily: u32, last: i64, now: i64) -> u32 {
    let base = activity_base(daily, last, now);
    (base + activity_award(base)) as u32
}

/// The ledger after an activity at time `now`, before its score is recomputed.
pub open spec fn activity_applied(r: Reputation, now: i64) -> Reputation {
    let award = activity_award(
        activity_base(r.daily_activity_points, r.last_activity_timestamp, now),
    );
    Reputation {
        daily_activity_points: activity_daily(
            r.daily_activity_points,
            r.last_activity_timestamp,
            now,
        ),
        last_activity_timestamp: now,
        total_activity_points: (r.total_activity_points + award) as u64,
        ..r
    }
}

/// An activity at time `now` overflows no counter of `r`.
pub open spec fn activity_fits(r: Reputation, now: i64) -> bool {
    &&& r.total_activity_points + activity_award(
        activity_base(r.daily_activity_points, r.last_activity_timestamp, now),
    ) <= u64::MAX
    &&& scorable(activity_applied(r, now))
}

/// The day's activity points after a run of activities at the given times,
/// starting from `daily` points and a last activity at `last`.
pub open spec fn daily_points_after(daily: u32, last: i64, times: Seq<i64>) -> u32
    decreases times.len(),
{
    if times.len() == 0 {
        daily
    } else {
        daily_points_after(activity_daily(daily, last, times[0]), times[0], times.drop_first())
    }
}

/// However many activities come, on whatever days, the day's activity points
/// never exceed the daily cap; and an activity on a later calendar day than
/// the last one starts the count from zero before awarding.
pub proof fn lemma_daily_points_capped(daily: u32, last: i64, times: Seq<i64>)
    requires
        daily <= DAILY_COMMUNITY_CAP,
    ensures
        daily_points_after(daily, last, times) <= DAILY_COMMUNITY_CAP,
        times.len() > 0 && epoch_day(times[0] as int) > epoch_day(last as int) ==> activity_daily(
            daily,
            last,
            times[0],
        ) == activity_award(0),
    decreases times.len(),
{
    if times.len() > 0 {
        lemma_daily_points_capped(
            activity_daily(daily, last, times[0]),
            times[0],
            times.drop_first(),
        );
    }
}

/// The calendar day of an epoch timestamp.
fn day_of(t: i64) -> (r: i64)
    ensures
        r == epoch_day(t as int),
{
    t / SECONDS_PER_DAY
}

impl UpdateReputationOnUpload {
    /// Credits an upload of quality `quality_score`: one more upload, the
    /// quality added to the quality total, and the tiered reward added to the
    /// upload points; then the score is recomputed.
    pub fn update_reputation_upload(&mut self, quality_score: u8) -> (r: Result<(), ErrorCode>)
        ensures
            r is Ok <==> upload_fits(old(self).reputation, quality_score),
            r is Ok ==> final(self).reputation == rescored(
                upload_applied(old(self).reputation, quality_score),
            ),
            r is Ok ==> final(self).reputation.score_is_current(),
            r is Err ==> r == Err::<(), ErrorCode>(ErrorCode::NumericalOverflow) && *final(self)
                == *old(self),
            old(self).reputation.wf() ==> final(self).reputation.wf(),
    {
        let mut rep = self.reputation;
        rep.total_uploads = match rep.total_uploads.checked_add(1) {
            Some(v) => v,
            None => return Err(ErrorCode::NumericalOverflow),
        };
        rep.total_quality_score = match rep.total_quality_score.checked_add(quality_score as u64) {
            Some(v) => v,
            None => return Err(ErrorCode::NumericalOverflow),
        };
        let reward = upload_reward(quality_score);
        rep.total_upload_points = match rep.total_upload_points.checked_add(reward as u64) {
            Some(v) => v,
            None => return Err(ErrorCode::NumericalOverflow),
        };
        calculate_reputation_score(&mut rep)?;
        self.reputation = rep;
        Ok(())
    }
}

impl UpdateReputationOnDownload {
    /// The dataset belongs to the contributor whose ledger is credited.
    pub open spec fn authorized(self) -> bool {
        self.dataset.contributor.bytes@ == self.contributor.bytes@
    }

    /// Credits a download at time `now` of a dataset of this contributor: one
    /// more download, `now` as the latest download time; then the score is
    /// recomputed.
    pub fn update_reputation_download(&mut self, now: i64) -> (r: Result<(), ErrorCode>)
        ensures
            !old(self).authorized() ==> r == Err::<(), ErrorCode>(ErrorCode::UnauthorizedUpdate),
            old(self).authorized() ==> (r is Ok <==> download_fits(old(self).reputation, now)),
            r is Ok ==> final(self).reputation == rescored(
                download_applied(old(self).reputation, now),
            ),
            r is Ok ==> final(self).reputation.score_is_current(),
            r is Ok ==> final(self).dataset == old(self).dataset,
            r is Ok ==> final(self).contributor == old(self).contributor,
            r is Err ==> *final(self) == *old(self),
            r is Err ==> r == Err::<(), ErrorCode>(ErrorCode::UnauthorizedUpdate) || r == Err::<
                (),
                ErrorCode,
            >(ErrorCode::NumericalOverflow),
            old(self).reputation.wf() ==> final(self).reputation.wf(),
    {
        if !self.dataset.contributor.same_as(&self.contributor) {
            return Err(ErrorCode::UnauthorizedUpdate);
        }
        let mut rep = self.reputation;
        rep.total_downloads = match rep.total_downloads.checked_add(1) {
            Some(v) => v,
            None => return Err(ErrorCode::NumericalOverflow),
        };
        rep.download_time = now;
        calculate_reputation_score(&mut rep)?;
        self.reputation = rep;
        Ok(())
    }
}

impl UpdateReputationOnCitation {
    /// The dataset belongs to the contributor whose ledger is credited.
    pub open spec fn authorized(self) -> bool {
        self.dataset.contributor.bytes@ == self.contributor.bytes@
    }

    /// Credits a citation of a dataset of this contributor: one more
    /// citation; then the score is recomputed.
    pub fn update_reputation_citation(&mut self) -> (r: Result<(), ErrorCode>)
        ensures
            !old(self).authorized() ==> r == Err::<(), ErrorCode>(ErrorCode::UnauthorizedUpdate),
            old(self).authorized() ==> (r is Ok <==> citation_fits(old(self).reputation)),
            r is Ok ==> final(self).reputation == rescored(citation_applied(old(self).reputation)),
            r is Ok ==> final(self).reputation.score_is_current(),
            r is Ok ==> final(self).dataset == old(self).dataset,
            r is Ok ==> final(self).contributor == old(self).contributor,
            r is Err ==> *final(self) == *old(self),
            r is Err ==> r == Err::<(), ErrorCode>(ErrorCode::UnauthorizedUpdate) || r == Err::<
                (),
                ErrorCode,
            >(ErrorCode::NumericalOverflow),
            old(self).reputation.wf() ==> final(self).reputation.wf(),
    {
        if !self.dataset.contributor.same_as(&self.contributor) {
            return Err(ErrorCode::UnauthorizedUpdate);
        }
        let mut rep = self.reputation;
        rep.total_citations = match rep.total_citations.checked_add(1) {
            Some(v) => v,
            None => return Err(ErrorCode::NumericalOverflow),
        };
        calculate_reputation_score(&mut rep)?;
        self.reputation = rep;
        Ok(())
    }
}

impl UpdateReputationOnReview {
    /// Credits a peer review: one more review and the review reward added to
    /// the review points; then the score is recomputed.
    pub fn update_reputation_review(&mut self) -> (r: Result<(), ErrorCode>)
        ensures
            r is Ok <==> review_fits(old(self).reputation),
            r is Ok ==> final(self).reputation == rescored(review_applied(old(self).reputation)),
            r is Ok ==> final(self).reputation.score_is_current(),
            r is Err ==> r == Err::<(), ErrorCode>(ErrorCode::NumericalOverflow) && *final(self)
                == *old(self),
            old(self).reputation.wf() ==> final(self).reputation.wf(),
    {
        let mut rep = self.reputation;
        rep.total_reviews = match rep.total_reviews.checked_add(1) {
            Some(v) => v,
            None => return Err(ErrorCode::NumericalOverflow),
        };
        rep.total_review_points = match rep.total_review_points.checked_add(REVIEW_REWARD as u64) {
            Some(v) => v,
            None => return Err(ErrorCode::NumericalOverflow),
        };
        calculate_reputation_score(&mut rep)?;
        self.reputation = rep;
        Ok(())
    }
}

impl UpdateReputationActivity {
    /// Credits one community activity at time `now`. On a later calendar day
    /// than the last activity the day's points start again from zero; the
    /// last-activity time becomes `now` in any case; while the day's points
    /// are under the cap, the community reward (cut down to what is left under
    /// the cap) is added to the day's points and to the activity total. Then
    /// the score is recomputed.
    pub fn update_reputation_activity(&mut self, now: i64) -> (r: Result<(), ErrorCode>)
        ensures
            r is Ok <==> activity_fits(old(self).reputation, now),
            r is Ok ==> final(self).reputation == rescored(
                activity_applied(old(self).reputation, now),
            ),
            r is Ok ==> final(self).reputation.score_is_current(),
            r is Ok && old(self).reputation.daily_activity_points <= DAILY_COMMUNITY_CAP
                ==> final(self).reputation.daily_activity_points <= DAILY_COMMUNITY_CAP,
            r is Err ==> r == Err::<(), ErrorCode>(ErrorCode::NumericalOverflow) && *final(self)
                == *old(self),
            old(self).reputation.wf() ==> final(self).reputation.wf(),
    {
        let mut rep = self.reputation;
        let current_day = day_of(now);
        let last_activity_day = day_of(rep.last_activity_timestamp);
        if current_day > last_activity_day {
            rep.daily_activity_points = 0;
        }
        rep.last_activity_timestamp = now;
        if rep.daily_activity_points < DAILY_COMMUNITY_CAP {
            let room = DAILY_COMMUNITY_CAP - rep.daily_activity_points;
            let points_to_add = if COMMUNITY_REWARD <= room {
                COMMUNITY_REWARD
            } else {
                room
            };
            if points_to_add > 0 {
                rep.daily_activity_points = match rep.daily_activity_points.checked_add(
                    points_to_add,
                ) {
                    Some(v) => v,
                    None => return Err(ErrorCode::NumericalOverflow),
                };
                rep.total_activity_points = match rep.total_activity_points.checked_add(
                    points_to_add as u64,
                ) {
                    Some(v) => v,
                    None => return Err(ErrorCode::NumericalOverflow),
                };
            }
        }
        calculate_reputation_score(&mut rep)?;
        self.reputation = rep;
        Ok(())
    }
}

} // verus!
