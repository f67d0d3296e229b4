//! What holds of the validation state machine over every input and every
//! history, stated over the transition functions that the operations'
//! contracts use.

use vstd::prelude::*;
use vstd::math::max;
use crate::engine::{vote_event, vote_rejection};
use crate::errors::ErrorCode;
use crate::governance::{override_rejection, Governance, GOVERNANCE_QUORUM};
use crate::keys::PublicKey;
use crate::ledger::DataEntryView;
use crate::source::DataSourceView;
use crate::validator::{ValidatorView, MIN_STAKE, SLASH_AMOUNT};

verus! {

/// One attempt of a validator to vote: the entry as it stood, the key it is
/// stored under, the vote, and the time.
pub struct VoteAttempt {
    pub entry: DataEntryView,
    pub entry_key: PublicKey,
    pub is_valid: bool,
    pub now: int,
}

/// The validator after one attempt: changed as the vote says if the attempt
/// is accepted, and untouched if it is refused.
pub open spec fn validator_after_attempt(
    validator: ValidatorView,
    attempt: VoteAttempt,
) -> ValidatorView {
    if vote_rejection(attempt.entry, attempt.entry_key, validator, attempt.now) is None {
        validator.after_vote(attempt.entry_key, attempt.is_valid)
    } else {
        validator
    }
}

/// The validator after a history of attempts, made in order.
pub open spec fn validator_after_attempts(
    validator: ValidatorView,
    attempts: Seq<VoteAttempt>,
) -> ValidatorView
    decreases attempts.len(),
{
    if attempts.len() == 0 {
        validator
    } else {
        validator_after_attempt(
            validator_after_attempts(validator, attempts.drop_last()),
            attempts.last(),
        )
    }
}

/// The entry after a history of accepted votes, counted in order.
pub open spec fn entry_after_votes(
    entry: DataEntryView,
    threshold: nat,
    votes: Seq<bool>,
) -> DataEntryView
    decreases votes.len(),
{
    if votes.len() == 0 {
        entry
    } else {
        entry_after_votes(entry, threshold, votes.drop_last()).after_vote(threshold, votes.last())
    }
}

/// How many validation events a history of accepted votes emits.
pub open spec fn events_of_votes(entry: DataEntryView, threshold: nat, votes: Seq<bool>) -> nat
    decreases votes.len(),
{
    if votes.len() == 0 {
        0
    } else {
        let earlier = events_of_votes(entry, threshold, votes.drop_last());
        let before = entry_after_votes(entry, threshold, votes.drop_last());
        if before.vote_latches(threshold, votes.last()) {
            earlier + 1
        } else {
            earlier
        }
    }
}

/// A validator never loses an entry from its voting record: whatever it
/// attempts, every entry it had voted on stays voted on.
pub proof fn law_voting_record_only_grows(
    validator: ValidatorView,
    attempts: Seq<VoteAttempt>,
    entry_key: PublicKey,
)
    requires
        validator.voted_entries.contains(entry_key),
    ensures
        validator_after_attempts(validator, attempts).voted_entries.contains(entry_key),
    decreases attempts.len(),
{
    if attempts.len() > 0 {
        law_voting_record_only_grows(validator, attempts.drop_last(), entry_key);
    }
}

/// A validator votes on a data entry at most once in its lifetime. After an
/// accepted vote on an entry, and whatever the validator has attempted since,
/// another attempt on the same entry is refused; it is refused as
/// `AlreadyVoted` whenever the validator still has the minimum stake and the
/// entry still accepts votes, since those two are tried first.
pub proof fn law_one_vote_per_entry(
    validator: ValidatorView,
    first: VoteAttempt,
    between: Seq<VoteAttempt>,
    second: VoteAttempt,
)
    requires
        vote_rejection(first.entry, first.entry_key, validator, first.now) is None,
        second.entry_key == first.entry_key,
    ensures
        ({
            let later = validator_after_attempts(
                validator_after_attempt(validator, first),
                between,
            );
            let rejection = vote_rejection(second.entry, second.entry_key, later, second.now);
            &&& rejection is Some
            &&& validator_after_attempt(later, second) == later
            &&& later.stake >= MIN_STAKE && second.entry.accepts_votes_at(second.now)
                ==> rejection == Some(ErrorCode::AlreadyVoted)
        }),
{
    law_voting_record_only_grows(
        validator_after_attempt(validator, first),
        between,
        first.entry_key,
    );
}

/// The latch of a data entry is one-way: an accepted vote never opens it
/// again, and never lowers the tally.
pub proof fn law_latch_is_never_reset(
    entry: DataEntryView,
    entry_key: PublicKey,
    threshold: nat,
    is_valid: bool,
)
    ensures
        entry.validated ==> entry.after_vote(threshold, is_valid).validated,
        entry.validated ==> vote_event(entry, entry_key, threshold, is_valid) is None,
        entry.after_vote(threshold, is_valid).validation_count >= entry.validation_count,
{
}

/// The latch closes precisely on the vote whose resulting tally first
/// reaches the threshold, and that vote alone emits the validation event.
///
/// This is stated of entries whose latch agrees with their tally, as it does
/// for every entry from its submission on when the threshold is at least one;
/// the agreement is kept by every vote.
pub proof fn law_latch_closes_on_crossing_vote(
    entry: DataEntryView,
    entry_key: PublicKey,
    threshold: nat,
    is_valid: bool,
)
    requires
        entry.latch_agrees(threshold),
    ensures
        entry.after_vote(threshold, is_valid).latch_agrees(threshold),
        entry.vote_latches(threshold, is_valid) <==> entry.validation_count < threshold
            <= entry.after_vote(threshold, is_valid).validation_count,
        vote_event(entry, entry_key, threshold, is_valid) is Some <==> entry.validation_count
            < threshold <= entry.after_vote(threshold, is_valid).validation_count,
        vote_event(entry, entry_key, threshold, is_valid) is Some <==> !entry.validated
            && entry.after_vote(threshold, is_valid).validated,
{
}

/// Under a threshold of at least one, the latch of an entry that starts
/// without votes agrees with its tally after every history of accepted votes.
pub proof fn law_latch_agrees_with_tally(entry: DataEntryView, threshold: nat, votes: Seq<bool>)
    requires
        entry.validation_count == 0,
        !entry.validated,
        threshold >= 1,
    ensures
        entry_after_votes(entry, threshold, votes).latch_agrees(threshold),
    decreases votes.len(),
{
    if votes.len() > 0 {
        law_latch_agrees_with_tally(entry, threshold, votes.drop_last());
    }
}

/// Over any history of accepted votes a data entry emits at most one
/// validation event, and none if it was validated before; once validated it
/// stays validated.
pub proof fn law_at_most_one_validation_event(
    entry: DataEntryView,
    threshold: nat,
    votes: Seq<bool>,
)
    ensures
        events_of_votes(entry, threshold, votes) <= 1,
        entry.validated ==> events_of_votes(entry, threshold, votes) == 0,
        entry.validated ==> entry_after_votes(entry, threshold, votes).validated,
        events_of_votes(entry, threshold, votes) == 1 ==> entry_after_votes(
            entry,
            threshold,
            votes,
        ).validated,
        !entry.validated ==> (events_of_votes(entry, threshold, votes) == 1 <==> entry_after_votes(
            entry,
            threshold,
            votes,
        ).validated),
    decreases votes.len(),
{
    if votes.len() > 0 {
        law_at_most_one_validation_event(entry, threshold, votes.drop_last());
    }
}

/// Stake and reputation saturate at zero: an accepted vote moves each to the
/// exact difference where that is not negative and to zero where it would
/// be. A valid vote never touches the stake, and no vote raises it.
pub proof fn law_stake_and_reputation_saturate(
    validator: ValidatorView,
    entry_key: PublicKey,
    is_valid: bool,
)
    ensures
        ({
            let after = validator.after_vote(entry_key, is_valid);
            &&& is_valid ==> after.reputation == validator.reputation + 1
            &&& !is_valid ==> after.reputation == max(validator.reputation - 1, 0)
            &&& validator.vote_slashes(is_valid) ==> after.stake == max(
                validator.stake - SLASH_AMOUNT,
                0,
            )
            &&& !validator.vote_slashes(is_valid) ==> after.stake == validator.stake
            &&& is_valid ==> after.stake == validator.stake
            &&& 0 <= after.stake <= validator.stake
        }),
{
}

/// The reputation of a validator never exceeds the number of entries it has
/// voted on: every accepted vote keeps a well-formed validator well-formed.
pub proof fn law_reputation_is_earned_by_votes(
    validator: ValidatorView,
    entry_key: PublicKey,
    is_valid: bool,
)
    requires
        validator.wf(),
        !validator.voted_entries.contains(entry_key),
    ensures
        validator.after_vote(entry_key, is_valid).wf(),
{
}

/// A vote cast when the entry's voting window has closed is never accepted,
/// at the closing instant as little as after it, and so changes nothing. It
/// is refused as `DataExpired`, unless the validator lacks the minimum stake,
/// which is tried first and refused as `InsufficientStake`.
pub proof fn law_expired_entry_refuses_votes(
    entry: DataEntryView,
    entry_key: PublicKey,
    validator: ValidatorView,
    is_valid: bool,
    now: int,
)
    requires
        now >= entry.expiry,
    ensures
        vote_rejection(entry, entry_key, validator, now) is Some,
        validator.stake >= MIN_STAKE ==> vote_rejection(entry, entry_key, validator, now) == Some(
            ErrorCode::DataExpired,
        ),
        validator.stake < MIN_STAKE ==> vote_rejection(entry, entry_key, validator, now) == Some(
            ErrorCode::InsufficientStake,
        ),
        validator_after_attempt(validator, VoteAttempt { entry, entry_key, is_valid, now })
            == validator,
{
}

/// An override without a quorum is refused as `InsufficientVotes`, whatever
/// source it names and whatever reputation it would set. With a quorum, of
/// whatever weight, an override that names another source than the one
/// presented is refused as `InvalidSource`.
pub proof fn law_override_needs_quorum_and_matching_source(
    data_source: DataSourceView,
    governance: Governance,
    source_id: u64,
)
    ensures
        governance.votes < GOVERNANCE_QUORUM ==> override_rejection(
            data_source,
            governance,
            source_id,
        ) == Some(ErrorCode::InsufficientVotes),
        governance.votes >= GOVERNANCE_QUORUM && data_source.id != source_id
            ==> override_rejection(data_source, governance, source_id) == Some(
            ErrorCode::InvalidSource,
        ),
        override_rejection(data_source, governance, source_id) is None <==> governance.votes
            >= GOVERNANCE_QUORUM && data_source.id == source_id,
{
}

/// A deactivated data source stays deactivated: no override activates it,
/// whatever reputation it sets.
pub proof fn law_deactivation_is_permanent(data_source: DataSourceView, new_reputation: nat)
    ensures
        !data_source.active ==> !data_source.with_reputation(new_reputation).active,
{
}

} // verus!
