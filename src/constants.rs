use vstd::prelude::*;

verus! {

/// Points per recorded download.
pub const DOWNLOAD_WEIGHT: u32 = 2;

/// Points per recorded citation.
pub const CITATION_WEIGHT: u32 = 15;

/// Points awarded for each peer review.
pub const REVIEW_REWARD: u32 = 50;

/// Points awarded for one community activity.
pub const COMMUNITY_REWARD: u32 = 20;

/// Most activity points that can be earned in one calendar day.
pub const DAILY_COMMUNITY_CAP: u32 = 100;

/// Quality scores at or above this value earn the middle upload tier.
pub const UPLOAD_TIER_1_THRESHOLD: u8 = 50;

/// Quality scores above this value earn the top upload tier.
pub const UPLOAD_TIER_2_THRESHOLD: u8 = 71;

/// Upload reward for a quality score below the first threshold.
pub const UPLOAD_TIER_1_REWARD: u32 = 20;

/// Upload reward for a quality score between the two thresholds, both included.
pub const UPLOAD_TIER_2_REWARD: u32 = 35;

/// Upload reward for a quality score above the second threshold.
pub const UPLOAD_TIER_3_REWARD: u32 = 300;

/// Reward tokens paid out per redeemed point.
pub const POINTS_TO_ARB_RATE: u64 = 1;

/// Seconds in one calendar day.
pub const SECONDS_PER_DAY: i64 = 86400;

/// Longest accepted file name, in bytes.
pub const MAX_FILE_NAME_LEN: usize = 100;

/// Largest accepted file size, in bytes.
pub const MAX_FILE_SIZE: u64 = 104_857_600;

/// Largest accepted column count.
pub const MAX_COLUMN_COUNT: u64 = 100;

/// Largest accepted quality score.
pub const MAX_QUALITY_SCORE: u8 = 100;

} // verus!
