use africa_research_base::{
    calculate_reputation_score, upload_reward, CreateDataset, Dataset, ErrorCode, Identity,
    Initialize, InitializeReputation, RedeemPoints, Registry, Reputation,
    UpdateReputationActivity, UpdateReputationOnCitation, UpdateReputationOnDownload,
    UpdateReputationOnReview, UpdateReputationOnUpload,
};

const DAY: i64 = 86400;

fn id(b: u8) -> Identity {
    Identity { bytes: [b; 32] }
}

fn fresh_reputation(who: Identity) -> Reputation {
    let mut init = InitializeReputation {
        contributor: who,
        reputation: Reputation {
            contributor: id(0),
            total_uploads: 7,
            dataset_count: 7,
            download_time: 7,
            total_quality_score: 7,
            total_downloads: 7,
            total_citations: 7,
            reputation_score: 7,
            total_reviews: 7,
            last_activity_timestamp: 7,
            daily_activity_points: 7,
            total_upload_points: 7,
            total_review_points: 7,
            total_activity_points: 7,
            claimed_points: 7,
            bump: 7,
        },
    };
    assert_eq!(init.initialize_reputation(254), Ok(()));
    init.reputation
}

fn empty_dataset() -> Dataset {
    Dataset {
        id: id(0),
        contributor: id(0),
        content_hash: [0; 32],
        ai_metadata: Vec::new(),
        file_name: Vec::new(),
        dataset_index: 0,
        file_size: 0,
        data_uri: [0; 256],
        column_count: 0,
        row_count: 0,
        quality_score: 0,
        upload_timestamp: 0,
        last_updated: None,
        download_count: 0,
        is_active: false,
        bump: 0,
    }
}

fn dataset_of(who: Identity) -> Dataset {
    let mut d = empty_dataset();
    d.contributor = who;
    d
}

fn registry() -> Registry {
    let mut init = Initialize {
        admin: id(9),
        registry: Registry { admin: id(0), total_datasets: 5, total_downloads: 5, bump: 0 },
    };
    assert_eq!(init.initialize_registry(253), Ok(()));
    init.registry
}

fn creation(rep: Reputation) -> CreateDataset {
    CreateDataset {
        contributor: id(1),
        dataset_key: id(2),
        registry: registry(),
        reputation: rep,
        dataset: empty_dataset(),
    }
}

fn create(
    c: &mut CreateDataset,
    file_name_len: usize,
    file_size: u64,
    column_count: u64,
    quality_score: u8,
) -> Result<(), ErrorCode> {
    c.create_dataset(
        [3; 32],
        vec![1, 2, 3],
        vec![b'a'; file_name_len],
        file_size,
        [4; 256],
        column_count,
        500,
        quality_score,
        1_700_000_000,
        250,
    )
}

fn activity(rep: &mut Reputation, now: i64) -> Result<(), ErrorCode> {
    let mut u = UpdateReputationActivity { reputation: *rep };
    let r = u.update_reputation_activity(now);
    *rep = u.reputation;
    r
}

#[test]
fn upload_reward_tiers() {
    assert_eq!(upload_reward(0), 20);
    assert_eq!(upload_reward(49), 20);
    assert_eq!(upload_reward(50), 35);
    assert_eq!(upload_reward(71), 35);
    assert_eq!(upload_reward(72), 300);
    assert_eq!(upload_reward(100), 300);
}

#[test]
fn initialize_sets_zeroed_records() {
    let rep = fresh_reputation(id(1));
    assert_eq!(rep.contributor, id(1));
    assert_eq!(rep.total_uploads, 0);
    assert_eq!(rep.reputation_score, 0);
    assert_eq!(rep.claimed_points, 0);
    assert_eq!(rep.daily_activity_points, 0);
    assert_eq!(rep.bump, 254);
    let reg = registry();
    assert_eq!(reg, Registry { admin: id(9), total_datasets: 0, total_downloads: 0, bump: 253 });
}

#[test]
fn score_formula_exact_value() {
    let mut rep = fresh_reputation(id(1));
    rep.total_upload_points = 300;
    rep.total_review_points = 100;
    rep.total_activity_points = 40;
    rep.total_downloads = 3;
    rep.total_citations = 2;
    assert_eq!(calculate_reputation_score(&mut rep), Ok(()));
    assert_eq!(rep.reputation_score, 300 + 100 + 40 + 6 + 30);
}

#[test]
fn score_keeps_low_32_bits() {
    let mut rep = fresh_reputation(id(1));
    rep.total_upload_points = (1u64 << 32) + 5;
    assert_eq!(calculate_reputation_score(&mut rep), Ok(()));
    assert_eq!(rep.reputation_score, 5);
}

#[test]
fn score_overflow_fails_and_changes_nothing() {
    let mut rep = fresh_reputation(id(1));
    rep.total_upload_points = u64::MAX;
    rep.total_downloads = 1;
    let before = rep;
    assert_eq!(calculate_reputation_score(&mut rep), Err(ErrorCode::NumericalOverflow));
    assert_eq!(rep, before);
}

#[test]
fn upload_download_redeem_scenario() {
    let who = id(1);
    let mut up = UpdateReputationOnUpload { reputation: fresh_reputation(who) };
    assert_eq!(up.update_reputation_upload(80), Ok(()));
    assert_eq!(up.reputation.total_upload_points, 300);
    assert_eq!(up.reputation.total_uploads, 1);
    assert_eq!(up.reputation.total_quality_score, 80);
    assert_eq!(up.reputation.reputation_score, 300);

    let mut down = UpdateReputationOnDownload {
        contributor: who,
        reputation: up.reputation,
        dataset: dataset_of(who),
    };
    assert_eq!(down.update_reputation_download(1_700_000_123), Ok(()));
    assert_eq!(down.reputation.total_downloads, 1);
    assert_eq!(down.reputation.download_time, 1_700_000_123);
    assert_eq!(down.reputation.reputation_score, 302);

    let mut redeem = RedeemPoints { user: who, reputation: down.reputation };
    assert_eq!(redeem.redeem_points(), Ok(302));
    assert_eq!(redeem.reputation.claimed_points, 302);
    assert!(redeem.reputation.claimed_points <= redeem.reputation.reputation_score as u64);
    let before = redeem.reputation;
    assert_eq!(redeem.redeem_points(), Err(ErrorCode::NothingToRedeem));
    assert_eq!(redeem.reputation, before);
}

#[test]
fn redeem_after_more_points_pays_only_the_difference() {
    let who = id(1);
    let mut rep = fresh_reputation(who);
    rep.total_review_points = 50;
    rep.reputation_score = 50;
    rep.claimed_points = 20;
    let mut redeem = RedeemPoints { user: who, reputation: rep };
    assert_eq!(redeem.redeem_points(), Ok(30));
    assert_eq!(redeem.reputation.claimed_points, 50);
}

#[test]
fn redeem_on_fresh_ledger_has_nothing() {
    let who = id(1);
    let mut redeem = RedeemPoints { user: who, reputation: fresh_reputation(who) };
    assert_eq!(redeem.redeem_points(), Err(ErrorCode::NothingToRedeem));
}

#[test]
fn redeem_by_other_user_is_refused() {
    let mut rep = fresh_reputation(id(1));
    rep.total_review_points = 50;
    rep.reputation_score = 50;
    let mut redeem = RedeemPoints { user: id(2), reputation: rep };
    assert_eq!(redeem.redeem_points(), Err(ErrorCode::UnauthorizedReputationUpdate));
    assert_eq!(redeem.reputation.claimed_points, 0);
}

#[test]
fn five_activities_reach_the_daily_cap() {
    let mut rep = fresh_reputation(id(1));
    let start = 20_000 * DAY + 100;
    for i in 0..5 {
        assert_eq!(activity(&mut rep, start + i * 60), Ok(()));
        assert_eq!(rep.daily_activity_points, 20 * (i as u32 + 1));
    }
    assert_eq!(rep.daily_activity_points, 100);
    assert_eq!(rep.total_activity_points, 100);
    assert_eq!(rep.reputation_score, 100);
    assert_eq!(activity(&mut rep, start + 3600), Ok(()));
    assert_eq!(rep.daily_activity_points, 100);
    assert_eq!(rep.total_activity_points, 100);
    assert_eq!(rep.last_activity_timestamp, start + 3600);
    assert_eq!(rep.reputation_score, 100);
}

#[test]
fn new_day_resets_daily_points() {
    let mut rep = fresh_reputation(id(1));
    let start = 20_000 * DAY + 100;
    for i in 0..6 {
        assert_eq!(activity(&mut rep, start + i), Ok(()));
    }
    assert_eq!(rep.daily_activity_points, 100);
    assert_eq!(activity(&mut rep, 20_001 * DAY), Ok(()));
    assert_eq!(rep.daily_activity_points, 20);
    assert_eq!(rep.total_activity_points, 120);
    assert_eq!(rep.reputation_score, 120);
}

#[test]
fn partial_award_fills_up_to_the_cap() {
    let mut rep = fresh_reputation(id(1));
    rep.daily_activity_points = 90;
    rep.last_activity_timestamp = 5 * DAY;
    assert_eq!(activity(&mut rep, 5 * DAY + 10), Ok(()));
    assert_eq!(rep.daily_activity_points, 100);
    assert_eq!(rep.total_activity_points, 10);
}

#[test]
fn day_boundary_truncates_toward_zero() {
    let mut rep = fresh_reputation(id(1));
    rep.daily_activity_points = 100;
    rep.last_activity_timestamp = 0;
    // -1 and 0 both fall on day zero when the quotient is rounded toward zero.
    assert_eq!(activity(&mut rep, -1), Ok(()));
    assert_eq!(rep.daily_activity_points, 100);
    assert_eq!(rep.last_activity_timestamp, -1);
    assert_eq!(activity(&mut rep, DAY - 1), Ok(()));
    assert_eq!(rep.daily_activity_points, 100);
    assert_eq!(activity(&mut rep, DAY), Ok(()));
    assert_eq!(rep.daily_activity_points, 20);
}

#[test]
fn activity_overflow_changes_nothing() {
    let mut rep = fresh_reputation(id(1));
    rep.total_activity_points = u64::MAX - 5;
    let before = rep;
    assert_eq!(activity(&mut rep, 10 * DAY), Err(ErrorCode::NumericalOverflow));
    assert_eq!(rep, before);
}

#[test]
fn review_adds_fixed_reward() {
    let mut u = UpdateReputationOnReview { reputation: fresh_reputation(id(1)) };
    assert_eq!(u.update_reputation_review(), Ok(()));
    assert_eq!(u.update_reputation_review(), Ok(()));
    assert_eq!(u.reputation.total_reviews, 2);
    assert_eq!(u.reputation.total_review_points, 100);
    assert_eq!(u.reputation.reputation_score, 100);
}

#[test]
fn review_overflow_changes_nothing() {
    let mut rep = fresh_reputation(id(1));
    rep.total_reviews = u64::MAX;
    let mut u = UpdateReputationOnReview { reputation: rep };
    assert_eq!(u.update_reputation_review(), Err(ErrorCode::NumericalOverflow));
    assert_eq!(u.reputation, rep);
}

#[test]
fn citation_adds_weighted_points() {
    let who = id(1);
    let mut u = UpdateReputationOnCitation {
        contributor: who,
        reputation: fresh_reputation(who),
        dataset: dataset_of(who),
    };
    assert_eq!(u.update_reputation_citation(), Ok(()));
    assert_eq!(u.reputation.total_citations, 1);
    assert_eq!(u.reputation.reputation_score, 15);
}

#[test]
fn citation_of_foreign_dataset_is_refused() {
    let who = id(1);
    let rep = fresh_reputation(who);
    let mut u = UpdateReputationOnCitation {
        contributor: who,
        reputation: rep,
        dataset: dataset_of(id(2)),
    };
    assert_eq!(u.update_reputation_citation(), Err(ErrorCode::UnauthorizedUpdate));
    assert_eq!(u.reputation, rep);
}

#[test]
fn citation_overflow_changes_nothing() {
    let who = id(1);
    let mut rep = fresh_reputation(who);
    rep.total_citations = u32::MAX;
    let mut u = UpdateReputationOnCitation {
        contributor: who,
        reputation: rep,
        dataset: dataset_of(who),
    };
    assert_eq!(u.update_reputation_citation(), Err(ErrorCode::NumericalOverflow));
    assert_eq!(u.reputation, rep);
}

#[test]
fn download_of_foreign_dataset_is_refused() {
    let who = id(1);
    let rep = fresh_reputation(who);
    let mut u = UpdateReputationOnDownload {
        contributor: who,
        reputation: rep,
        dataset: dataset_of(id(3)),
    };
    assert_eq!(u.update_reputation_download(77), Err(ErrorCode::UnauthorizedUpdate));
    assert_eq!(u.reputation, rep);
}

#[test]
fn download_overflow_changes_nothing() {
    let who = id(1);
    let mut rep = fresh_reputation(who);
    rep.total_downloads = u64::MAX;
    let mut u = UpdateReputationOnDownload {
        contributor: who,
        reputation: rep,
        dataset: dataset_of(who),
    };
    assert_eq!(u.update_reputation_download(77), Err(ErrorCode::NumericalOverflow));
    assert_eq!(u.reputation, rep);
}

#[test]
fn upload_overflow_changes_nothing() {
    let mut rep = fresh_reputation(id(1));
    rep.total_upload_points = u64::MAX - 100;
    let mut u = UpdateReputationOnUpload { reputation: rep };
    assert_eq!(u.update_reputation_upload(90), Err(ErrorCode::NumericalOverflow));
    assert_eq!(u.reputation, rep);
}

#[test]
fn create_dataset_records_everything() {
    let mut c = creation(fresh_reputation(id(1)));
    assert_eq!(create(&mut c, 10, 1024, 12, 80), Ok(()));
    assert_eq!(c.dataset.id, id(2));
    assert_eq!(c.dataset.contributor, id(1));
    assert_eq!(c.dataset.content_hash, [3; 32]);
    assert_eq!(c.dataset.ai_metadata, vec![1, 2, 3]);
    assert_eq!(c.dataset.file_name, vec![b'a'; 10]);
    assert_eq!(c.dataset.dataset_index, 0);
    assert_eq!(c.dataset.file_size, 1024);
    assert_eq!(c.dataset.data_uri, [4; 256]);
    assert_eq!(c.dataset.column_count, 12);
    assert_eq!(c.dataset.row_count, 500);
    assert_eq!(c.dataset.quality_score, 80);
    assert_eq!(c.dataset.upload_timestamp, 1_700_000_000);
    assert_eq!(c.dataset.last_updated, None);
    assert_eq!(c.dataset.download_count, 0);
    assert!(c.dataset.is_active);
    assert_eq!(c.dataset.bump, 250);
    assert_eq!(c.registry.total_datasets, 1);
    assert_eq!(c.reputation.dataset_count, 1);
    assert_eq!(c.reputation.total_uploads, 1);
    assert_eq!(c.reputation.total_quality_score, 80);
    assert_eq!(c.reputation.reputation_score, 0);
}

#[test]
fn dataset_index_is_count_before_increment() {
    let mut c = creation(fresh_reputation(id(1)));
    assert_eq!(create(&mut c, 1, 1, 0, 10), Ok(()));
    assert_eq!(c.dataset.dataset_index, 0);
    c.dataset = empty_dataset();
    assert_eq!(create(&mut c, 1, 1, 0, 20), Ok(()));
    assert_eq!(c.dataset.dataset_index, 1);
    assert_eq!(c.reputation.dataset_count, 2);
    assert_eq!(c.registry.total_datasets, 2);
    assert_eq!(c.reputation.total_quality_score, 30);
}

#[test]
fn create_dataset_file_size_bounds() {
    let mut c = creation(fresh_reputation(id(1)));
    assert_eq!(create(&mut c, 10, 0, 1, 50), Err(ErrorCode::InvalidFileSize));
    assert_eq!(create(&mut c, 10, 104_857_601, 1, 50), Err(ErrorCode::FileTooLarge));
    assert_eq!(c.registry.total_datasets, 0);
    assert_eq!(c.reputation.dataset_count, 0);
    assert_eq!(create(&mut c, 10, 104_857_600, 1, 50), Ok(()));
    assert_eq!(create(&mut c, 10, 1, 1, 50), Ok(()));
}

#[test]
fn create_dataset_validation_errors_in_order() {
    let mut c = creation(fresh_reputation(id(1)));
    assert_eq!(create(&mut c, 101, 0, 101, 101), Err(ErrorCode::FileNameTooLong));
    assert_eq!(create(&mut c, 100, 0, 101, 101), Err(ErrorCode::InvalidQualityScore));
    assert_eq!(create(&mut c, 100, 0, 101, 100), Err(ErrorCode::InvalidFileSize));
    assert_eq!(create(&mut c, 100, 1, 101, 100), Err(ErrorCode::TooManyColumns));
    assert_eq!(create(&mut c, 100, 1, 100, 100), Ok(()));
}

#[test]
fn create_dataset_overflow_changes_nothing() {
    let mut rep = fresh_reputation(id(1));
    rep.total_uploads = u32::MAX;
    let mut c = creation(rep);
    assert_eq!(create(&mut c, 1, 1, 1, 1), Err(ErrorCode::NumericalOverflow));
    assert_eq!(c.reputation, rep);
    assert_eq!(c.registry.total_datasets, 0);
    assert_eq!(c.dataset, empty_dataset());

    let mut c = creation(fresh_reputation(id(1)));
    c.registry.total_datasets = u64::MAX;
    assert_eq!(create(&mut c, 1, 1, 1, 1), Err(ErrorCode::NumericalOverflow));
    assert_eq!(c.registry.total_datasets, u64::MAX);
    assert_eq!(c.dataset, empty_dataset());
}

#[test]
fn identity_comparison_looks_at_every_byte() {
    let a = id(1);
    let mut b = id(1);
    assert!(a.same_as(&b));
    b.bytes[31] = 2;
    assert!(!a.same_as(&b));
    b = id(1);
    b.bytes[0] = 0;
    assert!(!a.same_as(&b));
}
