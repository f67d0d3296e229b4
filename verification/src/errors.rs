//! The ways an operation can be refused.

use vstd::prelude::*;

verus! {

/// Why an operation was refused. A refused operation changes nothing and
/// emits nothing.
#[derive(Clone, Copy, Debug, PartialEq, Eq, Structural)]
pub enum ErrorCode {
    /// The data source referenced by a submission has been deactivated.
    InactiveDataSource,
    /// The raw payload of a submission is longer than the limit.
    DataTooLarge,
    /// The stake offered, or the stake left after slashing, is below the minimum.
    InsufficientStake,
    /// The data entry's voting window has closed.
    DataExpired,
    /// The validator has already voted on this data entry.
    AlreadyVoted,
    /// The governance weight presented is below the quorum.
    InsufficientVotes,
    /// The source id given does not name the data source presented.
    InvalidSource,
}

impl ErrorCode {
    /// The human-readable message of each error, as a sequence of characters.
    pub open spec fn message_text(self) -> Seq<char> {
        match self {
            ErrorCode::InactiveDataSource => "Data source is inactive"@,
            ErrorCode::DataTooLarge => "Data size exceeds limit"@,
            ErrorCode::InsufficientStake => "Validator has insufficient stake"@,
            ErrorCode::DataExpired => "Data entry has expired"@,
            ErrorCode::AlreadyVoted => "Validator has already voted"@,
            ErrorCode::InsufficientVotes => "Insufficient governance votes"@,
            ErrorCode::InvalidSource => "Invalid data source ID"@,
        }
    }

    /// The human-readable message of this error.
    pub fn message(&self) -> (msg: &'static str)
        ensures
            msg@ == self.message_text(),
    {
        match self {
            ErrorCode::InactiveDataSource => "Data source is inactive",
            ErrorCode::DataTooLarge => "Data size exceeds limit",
            ErrorCode::InsufficientStake => "Validator has insufficient stake",
            ErrorCode::DataExpired => "Data entry has expired",
            ErrorCode::AlreadyVoted => "Validator has already voted",
            ErrorCode::InsufficientVotes => "Insufficient governance votes",
            ErrorCode::InvalidSource => "Invalid data source ID",
        }
    }
}

} // verus!
