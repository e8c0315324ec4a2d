use vstd::prelude::*;

verus! {

/// The ways a ledger operation can fail. A failed operation changes nothing.
#[derive(Clone, Copy, Debug, PartialEq, Eq)]
pub enum ErrorCode {
    CustomError,
    HashTooLong,
    FileNameTooLong,
    InvalidQualityScore,
    TooManyFields,
    FileTooLarge,
    InvalidFileSize,
    TooManyColumns,
    DatasetInactive,
    UnauthorizedUpdate,
    NumericalOverflow,
    InvalidReputationUpdate,
    UnauthorizedReputationUpdate,
    DuplicateDataset,
    InvalidContributorStatus,
    NothingToRedeem,
}

} // verus!
