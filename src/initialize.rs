use vstd::prelude::*;

use crate::error::ErrorCode;
use crate::state::{Identity, Registry, Reputation};

verus! {

/// The records that setting up a deployment's registry touches.
pub struct Initialize {
    pub admin: Identity,
    pub registry: Registry,
}

/// The records that opening a contributor's ledger touches.
pub struct InitializeReputation {
    pub contributor: Identity,
    pub reputation: Reputation,
}

impl Initialize {
    /// Sets up the registry of `admin` with both counters at zero.
    pub fn initialize_registry(&mut self, bump: u8) -> (r: Result<(), ErrorCode>)
        ensures
            r is Ok,
            final(self).admin == old(self).admin,
            final(self).registry == (Registry {
                admin: old(self).admin,
                total_datasets: 0,
                total_downloads: 0,
                bump,
            }),
    {
        self.registry = Registry { admin: self.admin, total_datasets: 0, total_downloads: 0, bump };
        Ok(())
    }
}

impl InitializeReputation {
    /// Opens the ledger of `contributor` with every counter at zero.
    pub fn initialize_reputation(&mut self, bump: u8) -> (r: Result<(), ErrorCode>)
        ensures
            r is Ok,
            final(self).contributor == old(self).contributor,
            final(self).reputation == Reputation::zeroed(old(self).contributor, bump),
            final(self).reputation.wf(),
    {
        self.reputation = Reputation {
            contributor: self.contributor,
            total_uploads: 0,
            dataset_count: 0,
            download_time: 0,
            total_quality_score: 0,
            total_downloads: 0,
            total_citations: 0,
            reputation_score: 0,
            total_reviews: 0,
            last_activity_timestamp: 0,
            daily_activity_points: 0,
            total_upload_points: 0,
            total_review_points: 0,
            total_activity_points: 0,
            claimed_points: 0,
            bump,
        };
        Ok(())
    }
}

} // verus!
