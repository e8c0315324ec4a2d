use vstd::prelude::*;

use crate::constants::{
    MAX_COLUMN_COUNT, MAX_FILE_NAME_LEN, MAX_FILE_SIZE, MAX_QUALITY_SCORE,
};
use crate::error::ErrorCode;
use crate::state::{Dataset, Identity, Registry, Reputation};

verus! {

/// The records that creating a dataset touches. `dataset_key` is the address
/// the host derived for the new record, and `dataset` is that record, which
/// creation fills in whole.
pub struct CreateDataset {
    pub contributor: Identity,
    pub dataset_key: Identity,
    pub registry: Registry,
    pub reputation: Reputation,
    pub dataset: Dataset,
}

/// The first validation failure of a dataset's inputs, checked in this order:
/// file-name length, quality-score range, file size at most the limit, file
/// size not zero, column count.
pub open spec fn dataset_input_error(
    file_name_len: int,
    file_size: u64,
    column_count: u64,
    quality_score: u8,
) -> Option<ErrorCode> {
    if file_name_len > MAX_FILE_NAME_LEN {
        Some(ErrorCode::FileNameTooLong)
    } else if quality_score > MAX_QUALITY_SCORE {
        Some(ErrorCode::InvalidQualityScore)
    } else if file_size > MAX_FILE_SIZE {
        Some(ErrorCode::FileTooLarge)
    } else if file_size == 0 {
        Some(ErrorCode::InvalidFileSize)
    } else if column_count > MAX_COLUMN_COUNT {
        Some(ErrorCode::TooManyColumns)
    } else {
        None
    }
}

/// Once the file name and quality score are valid, a zero file size is
/// always refused as an invalid size, and one byte over the limit always as
/// too large, whatever the column count.
pub proof fn lemma_file_size_bounds_refused(file_name_len: int, column_count: u64, quality_score: u8)
    requires
        file_name_len <= MAX_FILE_NAME_LEN,
        quality_score <= MAX_QUALITY_SCORE,
    ensures
        dataset_input_error(file_name_len, 0, column_count, quality_score) == Some(
            ErrorCode::InvalidFileSize,
        ),
        dataset_input_error(file_name_len, 104_857_601, column_count, quality_score) == Some(
            ErrorCode::FileTooLarge,
        ),
{
}

/// Creating a dataset of quality `q` overflows no counter.
pub open spec fn creation_fits(registry: Registry, reputation: Reputation, q: u8) -> bool {
    &&& registry.total_datasets < u64::MAX
    &&& reputation.dataset_count < u32::MAX
    &&& reputation.total_uploads < u32::MAX
    &&& reputation.total_quality_score + q <= u64::MAX
}

/// The contributor's ledger after an upload of quality `q` has been recorded.
pub open spec fn upload_recorded(r: Reputation, contributor: Identity, q: u8) -> Reputation {
    Reputation {
        contributor,
        total_uploads: (r.total_uploads + 1) as u32,
        total_quality_score: (r.total_quality_score + q) as u64,
        ..r
    }
}

/// Records an upload of quality `quality_score` by `contributor` on its ledger.
fn update_reputation(reputation: &mut Reputation, contributor: Identity, quality_score: u8) -> (r:
    Result<(), ErrorCode>)
    ensures
        r is Ok <==> old(reputation).total_uploads < u32::MAX
            && old(reputation).total_quality_score + quality_score <= u64::MAX,
        r is Ok ==> *final(reputation) == upload_recorded(
            *old(reputation),
            contributor,
            quality_score,
        ),
        r is Err ==> r == Err::<(), ErrorCode>(ErrorCode::NumericalOverflow) && *final(reputation)
            == *old(reputation),
{
    let total_uploads = match reputation.total_uploads.checked_add(1) {
        Some(v) => v,
        None => return Err(ErrorCode::NumericalOverflow),
    };
    let total_quality_score = match reputation.total_quality_score.checked_add(
        quality_score as u64,
    ) {
        Some(v) => v,
        None => return Err(ErrorCode::NumericalOverflow),
    };
    reputation.contributor = contributor;
    reputation.total_uploads = total_uploads;
    reputation.total_quality_score = total_quality_score;
    Ok(())
}

impl CreateDataset {
    /// Validates a new dataset's inputs and records it: the dataset is filled
    /// in with the contributor's current dataset count as its index and `now`
    /// as its upload time, the registry counts one more dataset, and the
    /// contributor's ledger counts one more dataset and upload and adds the
    /// quality score to its quality total. Content hashes are not compared
    /// with the contributor's earlier datasets.
    pub fn create_dataset(
        &mut self,
        content_hash: [u8; 32],
        ai_metadata: Vec<u8>,
        file_name: Vec<u8>,
        file_size: u64,
        data_uri: [u8; 256],
        column_count: u64,
        row_count: u64,
        quality_score: u8,
        now: i64,
        dataset_bump: u8,
    ) -> (r: Result<(), ErrorCode>)
        ensures
            dataset_input_error(file_name@.len() as int, file_size, column_count, quality_score)
                matches Some(e) ==> r == Err::<(), ErrorCode>(e),
            dataset_input_error(file_name@.len() as int, file_size, column_count, quality_score)
                is None ==> (r is Ok <==> creation_fits(
                old(self).registry,
                old(self).reputation,
                quality_score,
            )),
            r is Err ==> *final(self) == *old(self),
            r is Err && dataset_input_error(
                file_name@.len() as int,
                file_size,
                column_count,
                quality_score,
            ) is None ==> r == Err::<(), ErrorCode>(ErrorCode::NumericalOverflow),
            r is Ok ==> final(self).contributor == old(self).contributor && final(self).dataset_key
                == old(self).dataset_key,
            r is Ok ==> final(self).registry == (Registry {
                total_datasets: (old(self).registry.total_datasets + 1) as u64,
                ..old(self).registry
            }),
            r is Ok ==> final(self).reputation == (Reputation {
                dataset_count: (old(self).reputation.dataset_count + 1) as u32,
                ..upload_recorded(old(self).reputation, old(self).contributor, quality_score)
            }),
            r is Ok ==> final(self).dataset == (Dataset {
                id: old(self).dataset_key,
                contributor: old(self).contributor,
                content_hash,
                ai_metadata,
                file_name,
                dataset_index: old(self).reputation.dataset_count,
                file_size,
                data_uri,
                column_count,
                row_count,
                quality_score,
                upload_timestamp: now,
                last_updated: None,
                download_count: 0,
                is_active: true,
                bump: dataset_bump,
            }),
            old(self).reputation.wf() ==> final(self).reputation.wf(),
    {
        if file_name.len() > MAX_FILE_NAME_LEN {
            return Err(ErrorCode::FileNameTooLong);
        }
        if quality_score > MAX_QUALITY_SCORE {
            return Err(ErrorCode::InvalidQualityScore);
        }
        if file_size > MAX_FILE_SIZE {
            return Err(ErrorCode::FileTooLarge);
        }
        if file_size == 0 {
            return Err(ErrorCode::InvalidFileSize);
        }
        if column_count > MAX_COLUMN_COUNT {
            return Err(ErrorCode::TooManyColumns);
        }
        let total_datasets = match self.registry.total_datasets.checked_add(1) {
            Some(v) => v,
            None => return Err(ErrorCode::NumericalOverflow),
        };
        let current_index = self.reputation.dataset_count;
        let mut rep = self.reputation;
        rep.dataset_count = match current_index.checked_add(1) {
            Some(v) => v,
            None => return Err(ErrorCode::NumericalOverflow),
        };
        update_reputation(&mut rep, self.contributor, quality_score)?;
        self.dataset = Dataset {
            id: self.dataset_key,
            contributor: self.contributor,
            content_hash,
            ai_metadata,
            file_name,
            dataset_index: current_index,
            file_size,
            data_uri,
            column_count,
            row_count,
            quality_score,
            upload_timestamp: now,
            last_updated: None,
            download_count: 0,
            is_active: true,
            bump: dataset_bump,
        };
        self.registry.total_datasets = total_datasets;
        self.reputation = rep;
        Ok(())
    }
}

} // verus!
