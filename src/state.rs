use vstd::prelude::*;

use crate::constants::{CITATION_WEIGHT, DAILY_COMMUNITY_CAP, DOWNLOAD_WEIGHT};

verus! {

/// The 32-byte identity of an account holder or of a stored record.
#[derive(Clone, Copy, Debug, PartialEq, Eq)]
pub struct Identity {
    pub bytes: [u8; 32],
}

impl Identity {
    /// Whether two identities hold the same bytes.
    pub fn same_as(&self, other: &Identity) -> (r: bool)
        ensures
            r == (self.bytes@ == other.bytes@),
    {
        let mut i: usize = 0;
        while i < 32
            invariant
                i <= 32,
                forall|j: int| 0 <= j < i ==> self.bytes@[j] == other.bytes@[j],
            decreases 32 - i,
        {
            if self.bytes[i] != other.bytes[i] {
                return false;
            }
            i = i + 1;
        }
        assert(self.bytes@ =~= other.bytes@);
        true
    }
}

/// The deployment-wide aggregate, one per admin.
#[derive(Clone, Copy, Debug, PartialEq, Eq)]
pub struct Registry {
    pub admin: Identity,
    pub total_datasets: u64,
    pub total_downloads: u64,
    pub bump: u8,
}

/// A contributor's reputation ledger.
#[derive(Clone, Copy, Debug, PartialEq, Eq)]
pub struct Reputation {
    pub contributor: Identity,
    pub total_uploads: u32,
    /// Number of datasets this contributor has created; the index of the next one.
    pub dataset_count: u32,
    pub download_time: i64,
    pub total_quality_score: u64,
    pub total_downloads: u64,
    pub total_citations: u32,
    /// Always the low 32 bits of `points_total`; never set on its own.
    pub reputation_score: u32,
    pub total_reviews: u64,
    pub last_activity_timestamp: i64,
    pub daily_activity_points: u32,
    pub total_upload_points: u64,
    pub total_review_points: u64,
    pub total_activity_points: u64,
    /// How much of the score has been redeemed so far.
    pub claimed_points: u64,
    pub bump: u8,
}

/// All points a ledger has earned: the accumulators plus the weighted
/// download and citation counts.
pub open spec fn points_total(r: Reputation) -> int {
    r.total_upload_points + r.total_review_points + r.total_activity_points
        + r.total_downloads * DOWNLOAD_WEIGHT + r.total_citations * CITATION_WEIGHT
}

/// The low 32 bits of a point total, as the stored score keeps them.
pub open spec fn truncated_score(total: int) -> u32 {
    (total % 0x1_0000_0000) as u32
}

/// The ledger with its score recomputed from its counters.
pub open spec fn rescored(r: Reputation) -> Reputation {
    Reputation { reputation_score: truncated_score(points_total(r)), ..r }
}

/// Whether the score can be recomputed without overflowing 64 bits.
pub open spec fn scorable(r: Reputation) -> bool {
    points_total(r) <= u64::MAX
}

impl Reputation {
    /// A consistent ledger: the score is the formula of its counters, and the
    /// day's activity points are within the daily cap.
    pub open spec fn wf(self) -> bool {
        &&& self.score_is_current()
        &&& self.daily_activity_points <= DAILY_COMMUNITY_CAP
    }

    /// The stored score is the formula of the ledger's counters.
    pub open spec fn score_is_current(self) -> bool {
        &&& scorable(self)
        &&& self.reputation_score == truncated_score(points_total(self))
    }

    /// A fresh ledger for `contributor`, with every counter at zero.
    pub open spec fn zeroed(contributor: Identity, bump: u8) -> Reputation {
        Reputation {
            contributor,
            total_uploads: 0,
            dataset_count: 0,
            download_time: 0,
            total_quality_score: 0,
            total_downloads: 0,
            total_citations: 0,
            reputation_score: 0,
            total_reviews: 0,
            last_activity_timestamp: 0,
            daily_activity_points: 0,
            total_upload_points: 0,
            total_review_points: 0,
            total_activity_points: 0,
            claimed_points: 0,
            bump,
        }
    }

    /// Points of the score not yet redeemed.
    pub open spec fn unclaimed(self) -> int {
        self.reputation_score - self.claimed_points
    }
}

/// One uploaded dataset.
#[derive(Clone, Debug, PartialEq, Eq)]
pub struct Dataset {
    pub id: Identity,
    pub contributor: Identity,
    pub content_hash: [u8; 32],
    pub ai_metadata: Vec<u8>,
    pub file_name: Vec<u8>,
    /// The contributor's dataset count when this dataset was created.
    pub dataset_index: u32,
    pub file_size: u64,
    pub data_uri: [u8; 256],
    pub column_count: u64,
    pub row_count: u64,
    pub quality_score: u8,
    pub upload_timestamp: i64,
    pub last_updated: Option<i64>,
    pub download_count: u32,
    pub is_active: bool,
    pub bump: u8,
}

/// A recorded citation of a dataset.
#[derive(Clone, Debug, PartialEq, Eq)]
pub struct Citation {
    pub dataset_id: Identity,
    pub citer: Identity,
    pub contributor: Identity,
    pub published_information: Vec<u8>,
    pub citing_time: i64,
    pub bump: u8,
}

/// A recorded download of a dataset.
#[derive(Clone, Copy, Debug, PartialEq, Eq)]
pub struct Attribution {
    pub dataset_id: Identity,
    pub downloader: Identity,
    pub contributor: Identity,
    pub download_time: i64,
    pub bump: u8,
}

} // verus!
