//! Reputation ledger and dataset registry of a research-data sharing network.
//!
//! Contributors submit datasets and earn reputation points for uploads,
//! downloads, citations, peer reviews and daily-capped community activity.
//! Earned points can later be redeemed for a reward token at a fixed rate.
//! Every operation validates its inputs and either applies all of its effects
//! or fails and leaves every record as it was.

pub mod constants;
pub mod create_dataset;
pub mod error;
pub mod history;
pub mod initialize;
pub mod redeem;
pub mod scoring;
pub mod state;
pub mod update_reputation;

pub use create_dataset::CreateDataset;
pub use error::ErrorCode;
pub use initialize::{Initialize, InitializeReputation};
pub use redeem::RedeemPoints;
pub use scoring::{calculate_reputation_score, upload_reward};
pub use state::{Attribution, Citation, Dataset, Identity, Registry, Reputation};
pub use update_reputation::{
    UpdateReputationActivity, UpdateReputationOnCitation, UpdateReputationOnDownload,
    UpdateReputationOnReview, UpdateReputationOnUpload,
};
