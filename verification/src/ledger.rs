//! The ledger of submitted data entries.

use vstd::prelude::*;
use crate::errors::ErrorCode;
use crate::source::DataSource;

verus! {

/// The longest raw payload a submission may carry, in bytes.
pub const MAX_DATA_LEN: usize = 1024;

/// How long after its submission a data entry accepts votes, in seconds.
pub const ENTRY_LIFETIME: i64 = 86_400;

/// The highest value the vote tally of a data entry can hold.
pub const MAX_VALIDATION_COUNT: u8 = 255;

/// What a [`DataEntry`] holds, as mathematical values.
pub struct DataEntryView {
    /// The id of the data source that submitted the entry.
    pub source_id: nat,
    /// The payload as stored, after encoding.
    pub data: Seq<u8>,
    /// Free-form bytes that accompany the payload.
    pub metadata: Seq<u8>,
    /// The time the submitter gave for the observation.
    pub timestamp: int,
    /// How many valid votes the entry has received.
    pub validation_count: nat,
    /// Whether the entry has been latched as validated.
    pub validated: bool,
    /// The first instant at which the entry no longer accepts votes.
    pub expiry: int,
}

impl DataEntryView {
    /// Whether the voting window is still open at `now`.
    pub open spec fn accepts_votes_at(self, now: int) -> bool {
        now < self.expiry
    }

    /// The tally after one more vote: a valid vote adds one, up to the bound
    /// of the counter; an invalid vote leaves it.
    pub open spec fn count_after_vote(self, is_valid: bool) -> nat {
        if is_valid && self.validation_count < MAX_VALIDATION_COUNT {
            self.validation_count + 1
        } else {
            self.validation_count
        }
    }

    /// The entry after one accepted vote, under the given threshold. The
    /// latch closes when the new tally has reached the threshold and stays
    /// closed.
    pub open spec fn after_vote(self, threshold: nat, is_valid: bool) -> DataEntryView {
        DataEntryView {
            validation_count: self.count_after_vote(is_valid),
            validated: self.validated || self.count_after_vote(is_valid) >= threshold,
            ..self
        }
    }

    /// Whether the latch agrees with the tally under the given threshold: the
    /// entry is validated exactly when its tally has reached the threshold.
    pub open spec fn latch_agrees(self, threshold: nat) -> bool {
        self.validated <==> self.validation_count >= threshold
    }

    /// Whether one accepted vote closes the latch: it was open, and the new
    /// tally has reached the threshold.
    pub open spec fn vote_latches(self, threshold: nat, is_valid: bool) -> bool {
        !self.validated && self.count_after_vote(is_valid) >= threshold
    }
}

/// Why a submission is refused, if it is, given whether its data source is
/// active and how long its raw payload is. The data source is tried first.
pub open spec fn submission_rejection(source_active: bool, data_len: nat) -> Option<ErrorCode> {
    if !source_active {
        Some(ErrorCode::InactiveDataSource)
    } else if data_len > MAX_DATA_LEN {
        Some(ErrorCode::DataTooLarge)
    } else {
        None
    }
}

/// One submitted observation, awaiting votes or already validated.
#[derive(Debug)]
pub struct DataEntry {
    source_id: u64,
    data: Vec<u8>,
    metadata: Vec<u8>,
    timestamp: i64,
    validation_count: u8,
    validated: bool,
    expiry: i64,
}

impl View for DataEntry {
    type V = DataEntryView;

    closed spec fn view(&self) -> DataEntryView {
        DataEntryView {
            source_id: self.source_id as nat,
            data: self.data@,
            metadata: self.metadata@,
            timestamp: self.timestamp as int,
            validation_count: self.validation_count as nat,
            validated: self.validated,
            expiry: self.expiry as int,
        }
    }
}

impl Clone for DataEntry {
    fn clone(&self) -> (copy: DataEntry)
        ensures
            copy@ == self@,
    {
        let copy = DataEntry {
            source_id: self.source_id,
            data: self.data.clone(),
            metadata: self.metadata.clone(),
            timestamp: self.timestamp,
            validation_count: self.validation_count,
            validated: self.validated,
            expiry: self.expiry,
        };
        assert(copy.data@ =~= self.data@);
        assert(copy.metadata@ =~= self.metadata@);
        copy
    }
}

impl DataEntry {
    /// The data entry with the given contents, as read back from storage.
    pub fn from_parts(
        source_id: u64,
        data: Vec<u8>,
        metadata: Vec<u8>,
        timestamp: i64,
        validation_count: u8,
        validated: bool,
        expiry: i64,
    ) -> (entry: DataEntry)
        ensures
            entry@ == (DataEntryView {
                source_id: source_id as nat,
                data: data@,
                metadata: metadata@,
                timestamp: timestamp as int,
                validation_count: validation_count as nat,
                validated,
                expiry: expiry as int,
            }),
    {
        DataEntry { source_id, data, metadata, timestamp, validation_count, validated, expiry }
    }

    /// The id of the data source that submitted the entry.
    pub fn source_id(&self) -> (source_id: u64)
        ensures
            source_id == self@.source_id,
    {
        self.source_id
    }

    /// The payload as stored, after encoding.
    pub fn data(&self) -> (data: &Vec<u8>)
        ensures
            data@ == self@.data,
    {
        &self.data
    }

    /// Free-form bytes that accompany the payload.
    pub fn metadata(&self) -> (metadata: &Vec<u8>)
        ensures
            metadata@ == self@.metadata,
    {
        &self.metadata
    }

    /// The time the submitter gave for the observation.
    pub fn timestamp(&self) -> (timestamp: i64)
        ensures
            timestamp == self@.timestamp,
    {
        self.timestamp
    }

    /// How many valid votes the entry has received.
    pub fn validation_count(&self) -> (count: u8)
        ensures
            count == self@.validation_count,
    {
        self.validation_count
    }

    /// Whether the entry has been latched as validated.
    pub fn is_validated(&self) -> (validated: bool)
        ensures
            validated == self@.validated,
    {
        self.validated
    }

    /// Whether the voting window is still open at `now`. An entry carries no
    /// mark of having expired: it has expired when this is false.
    pub fn accepts_votes_at(&self, now: i64) -> (open: bool)
        ensures
            open == self@.accepts_votes_at(now as int),
    {
        now < self.expiry
    }

    /// The first instant at which the entry no longer accepts votes.
    pub fn expiry(&self) -> (expiry: i64)
        ensures
            expiry == self@.expiry,
    {
        self.expiry
    }

    /// Counts one accepted vote and closes the latch if the tally has reached
    /// the threshold. Returns whether this vote closed it.
    pub(crate) fn tally(&mut self, threshold: u8, is_valid: bool) -> (latched: bool)
        ensures
            final(self)@ == old(self)@.after_vote(threshold as nat, is_valid),
            latched == old(self)@.vote_latches(threshold as nat, is_valid),
    {
        if is_valid {
            self.validation_count = self.validation_count.saturating_add(1);
        }
        if self.validation_count >= threshold && !self.validated {
            self.validated = true;
            true
        } else {
            false
        }
    }
}

/// Emitted when a data entry has been submitted.
#[derive(Clone, Copy, Debug, PartialEq, Eq)]
pub struct DataSubmitted {
    /// The id of the data source that submitted the entry.
    pub source_id: u64,
    /// The fingerprint of the raw payload.
    pub data_hash: [u8; 32],
}

/// Submits an observation of `data_source` at time `now`.
///
/// The raw payload is fingerprinted by `digest` and stored as `codec` encodes
/// it; both are the caller's choice and are called once each, on the raw
/// payload, and only when the submission is accepted. The new entry has no
/// votes, is not validated, and accepts votes for [`ENTRY_LIFETIME`] seconds
/// from `now`.
///
/// Refused with `InactiveDataSource` when the data source has been
/// deactivated, else with `DataTooLarge` when the raw payload is longer than
/// [`MAX_DATA_LEN`]. An oversized payload is never cut to size.
pub fn submit_data<D, C>(
    data_source: &DataSource,
    data: Vec<u8>,
    metadata: Vec<u8>,
    timestamp: i64,
    now: i64,
    digest: D,
    codec: C,
) -> (res: Result<(DataEntry, DataSubmitted), ErrorCode>) where
    D: Fn(&Vec<u8>) -> [u8; 32],
    C: Fn(&Vec<u8>) -> Vec<u8>,

    requires
        submission_rejection(data_source@.active, data@.len()) is None ==> {
            &&& now + ENTRY_LIFETIME <= i64::MAX
            &&& call_requires(digest, (&data,))
            &&& call_requires(codec, (&data,))
        },
    ensures
        match submission_rejection(data_source@.active, data@.len()) {
            Some(error) => res == Err::<(DataEntry, DataSubmitted), ErrorCode>(error),
            None => {
                &&& res matches Ok((entry, event))
                &&& entry@.source_id == data_source@.id
                &&& exists|stored: Vec<u8>| #[trigger]
                    call_ensures(codec, (&data,), stored) && entry@.data == stored@
                &&& entry@.metadata == metadata@
                &&& entry@.timestamp == timestamp
                &&& entry@.validation_count == 0
                &&& !entry@.validated
                &&& entry@.expiry == now + ENTRY_LIFETIME
                &&& event.source_id == data_source@.id
                &&& call_ensures(digest, (&data,), event.data_hash)
            },
        },
{
    if !data_source.is_active() {
        return Err(ErrorCode::InactiveDataSource);
    }
    if data.len() > MAX_DATA_LEN {
        return Err(ErrorCode::DataTooLarge);
    }
    let source_id: u64 = data_source.id();
    let stored: Vec<u8> = codec(&data);
    let data_hash: [u8; 32] = digest(&data);
    let entry = DataEntry {
        source_id,
        data: stored,
        metadata,
        timestamp,
        validation_count: 0,
        validated: false,
        expiry: now + ENTRY_LIFETIME,
    };
    Ok((entry, DataSubmitted { source_id, data_hash }))
}

} // verus!
