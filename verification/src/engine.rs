//! The voting algorithm: one vote of one validator on one data entry.

use vstd::prelude::*;
use crate::config::Config;
use crate::errors::ErrorCode;
use crate::keys::PublicKey;
use crate::ledger::{DataEntry, DataEntryView};
use crate::validator::{Validator, ValidatorView, MIN_STAKE};

verus! {

/// Emitted by the one vote that latches a data entry as validated.
#[derive(Clone, Copy, Debug, PartialEq, Eq, Structural)]
pub struct DataValidated {
    /// The data entry that has become validated.
    pub data_entry: PublicKey,
}

/// Why a vote is refused, if it is. The conditions are tried in this order:
/// the validator's stake, the entry's voting window, the validator's record.
pub open spec fn vote_rejection(
    entry: DataEntryView,
    entry_key: PublicKey,
    validator: ValidatorView,
    now: int,
) -> Option<ErrorCode> {
    if validator.stake < MIN_STAKE {
        Some(ErrorCode::InsufficientStake)
    } else if !entry.accepts_votes_at(now) {
        Some(ErrorCode::DataExpired)
    } else if validator.voted_entries.contains(entry_key) {
        Some(ErrorCode::AlreadyVoted)
    } else {
        None
    }
}

/// What one accepted vote emits: the validation event if this vote closes
/// the latch of the entry, and nothing otherwise.
pub open spec fn vote_event(
    entry: DataEntryView,
    entry_key: PublicKey,
    threshold: nat,
    is_valid: bool,
) -> Option<DataValidated> {
    if entry.vote_latches(threshold, is_valid) {
        Some(DataValidated { data_entry: entry_key })
    } else {
        None
    }
}

/// Casts the vote of `validator` on the data entry stored under `entry_key`,
/// at time `now`.
///
/// A refused vote leaves both records as they were. An accepted vote is
/// recorded with the validator for good; a valid one raises the entry's tally
/// and the validator's reputation, an invalid one lowers the reputation and
/// may slash the stake. The vote that brings the tally to the configured
/// threshold latches the entry as validated and returns the event.
pub fn validate_data(
    data_entry: &mut DataEntry,
    entry_key: PublicKey,
    validator: &mut Validator,
    config: &Config,
    is_valid: bool,
    now: i64,
) -> (res: Result<Option<DataValidated>, ErrorCode>)
    ensures
        match vote_rejection(old(data_entry)@, entry_key, old(validator)@, now as int) {
            Some(error) => {
                &&& res == Err::<Option<DataValidated>, ErrorCode>(error)
                &&& final(data_entry)@ == old(data_entry)@
                &&& final(validator)@ == old(validator)@
            },
            None => {
                &&& res == Ok::<Option<DataValidated>, ErrorCode>(
                    vote_event(
                        old(data_entry)@,
                        entry_key,
                        config@.validation_threshold,
                        is_valid,
                    ),
                )
                &&& final(data_entry)@ == old(data_entry)@.after_vote(
                    config@.validation_threshold,
                    is_valid,
                )
                &&& final(validator)@ == old(validator)@.after_vote(entry_key, is_valid)
                &&& final(validator)@.wf()
            },
        },
{
    if validator.stake() < MIN_STAKE {
        return Err(ErrorCode::InsufficientStake);
    }
    if data_entry.expiry() <= now {
        return Err(ErrorCode::DataExpired);
    }
    if validator.has_voted(&entry_key) {
        return Err(ErrorCode::AlreadyVoted);
    }
    validator.record_vote(entry_key, is_valid);
    let latched: bool = data_entry.tally(config.validation_threshold(), is_valid);
    if latched {
        Ok(Some(DataValidated { data_entry: entry_key }))
    } else {
        Ok(None)
    }
}

} // verus!
