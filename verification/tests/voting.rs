use oraclematrix::config::{initialize, Config};
use oraclematrix::engine::{validate_data, DataValidated};
use oraclematrix::errors::ErrorCode;
use oraclematrix::keys::PublicKey;
use oraclematrix::ledger::{submit_data, DataEntry};
use oraclematrix::source::{register_data_source, DataType};
use oraclematrix::validator::{stake_validator, Validator};

fn fingerprint(data: &Vec<u8>) -> [u8; 32] {
    let mut out = [0u8; 32];
    for (i, byte) in data.iter().enumerate() {
        out[i % 32] = out[i % 32].wrapping_mul(31).wrapping_add(*byte);
    }
    out
}

fn verbatim(data: &Vec<u8>) -> Vec<u8> {
    data.clone()
}

fn deployment(threshold: u8) -> Config {
    initialize(PublicKey::new(0, 1), threshold)
}

/// An entry submitted at time 100, so that it expires at 86_500.
fn fresh_entry(config: &mut Config) -> DataEntry {
    let (source, _) =
        register_data_source(config, PublicKey::new(0, 2), DataType::Weather, 50);
    let (entry, _) =
        submit_data(&source, vec![1, 2, 3], vec![], 10, 100, fingerprint, verbatim).unwrap();
    entry
}

fn staked(config: &mut Config, who: u128, amount: u64) -> Validator {
    stake_validator(config, PublicKey::new(1, who), amount).unwrap()
}

/// A validator that has earned `reputation` by as many valid votes on
/// entries of its own.
fn reputed(config: &mut Config, who: u128, reputation: u64) -> Validator {
    let mut validator = staked(config, who, 1000);
    for n in 0..reputation {
        let mut entry = fresh_entry(config);
        let key = PublicKey::new(1000 + who, n as u128);
        assert_eq!(validate_data(&mut entry, key, &mut validator, config, true, 200), Ok(None));
    }
    assert_eq!(validator.reputation(), reputation);
    validator
}

#[test]
fn third_valid_vote_latches_the_entry_and_emits_once() {
    let mut config = deployment(3);
    let mut entry = fresh_entry(&mut config);
    let entry_key = PublicKey::new(7, 7);
    let mut events = Vec::new();
    for i in 0..3u128 {
        let mut validator = staked(&mut config, i, 1000 + i as u64);
        assert!(!entry.is_validated());
        let outcome = validate_data(&mut entry, entry_key, &mut validator, &config, true, 200);
        if let Some(event) = outcome.unwrap() {
            events.push((i, event));
        }
        assert_eq!(entry.validation_count(), i as u8 + 1);
        assert_eq!(validator.reputation(), 1);
        assert_eq!(validator.stake(), 1000 + i as u64);
    }
    assert_eq!(events, vec![(2, DataValidated { data_entry: entry_key })]);
    assert!(entry.is_validated());
}

#[test]
fn votes_after_the_latch_emit_nothing_and_keep_it_closed() {
    let mut config = deployment(2);
    let mut entry = fresh_entry(&mut config);
    let entry_key = PublicKey::new(7, 8);
    let mut first = staked(&mut config, 1, 1000);
    let mut second = staked(&mut config, 2, 1000);
    let mut third = staked(&mut config, 3, 1000);
    let mut fourth = staked(&mut config, 4, 1000);
    assert_eq!(validate_data(&mut entry, entry_key, &mut first, &config, true, 200), Ok(None));
    assert_eq!(
        validate_data(&mut entry, entry_key, &mut second, &config, true, 200),
        Ok(Some(DataValidated { data_entry: entry_key }))
    );
    assert_eq!(validate_data(&mut entry, entry_key, &mut third, &config, true, 200), Ok(None));
    assert_eq!(validate_data(&mut entry, entry_key, &mut fourth, &config, false, 200), Ok(None));
    assert!(entry.is_validated());
    assert_eq!(entry.validation_count(), 3);
}

#[test]
fn invalid_votes_do_not_raise_the_tally() {
    let mut config = deployment(1);
    let mut entry = fresh_entry(&mut config);
    let entry_key = PublicKey::new(7, 9);
    let mut validator = staked(&mut config, 1, 5000);
    assert_eq!(validate_data(&mut entry, entry_key, &mut validator, &config, false, 200), Ok(None));
    assert_eq!(entry.validation_count(), 0);
    assert!(!entry.is_validated());
}

#[test]
fn under_threshold_zero_the_first_vote_latches_even_when_invalid() {
    let mut config = deployment(0);
    let mut entry = fresh_entry(&mut config);
    let entry_key = PublicKey::new(7, 10);
    let mut validator = staked(&mut config, 1, 5000);
    assert!(!entry.is_validated());
    assert_eq!(
        validate_data(&mut entry, entry_key, &mut validator, &config, false, 200),
        Ok(Some(DataValidated { data_entry: entry_key }))
    );
    assert!(entry.is_validated());
    assert_eq!(entry.validation_count(), 0);
}

#[test]
fn invalid_vote_at_reputation_ten_costs_one_reputation_and_a_slash() {
    let mut config = deployment(200);
    let mut validator = reputed(&mut config, 1, 10);
    assert_eq!(validator.stake(), 1000);
    let mut entry = fresh_entry(&mut config);
    let key = PublicKey::new(7, 11);
    assert_eq!(validate_data(&mut entry, key, &mut validator, &config, false, 200), Ok(None));
    assert_eq!(validator.reputation(), 9);
    assert_eq!(validator.stake(), 900);
}

#[test]
fn invalid_vote_at_reputation_eleven_is_not_slashed() {
    let mut config = deployment(200);
    let mut validator = reputed(&mut config, 1, 11);
    let mut entry = fresh_entry(&mut config);
    let key = PublicKey::new(7, 12);
    assert_eq!(validate_data(&mut entry, key, &mut validator, &config, false, 200), Ok(None));
    assert_eq!(validator.reputation(), 10);
    assert_eq!(validator.stake(), 1000);
}

#[test]
fn valid_votes_never_move_the_stake() {
    let mut config = deployment(200);
    let validator = reputed(&mut config, 1, 5);
    assert_eq!(validator.stake(), 1000);
    assert_eq!(validator.votes_cast(), 5);
}

#[test]
fn reputation_saturates_at_zero() {
    let mut config = deployment(200);
    let mut validator = staked(&mut config, 1, 1050);
    let mut entry = fresh_entry(&mut config);
    let key = PublicKey::new(7, 13);
    assert_eq!(validate_data(&mut entry, key, &mut validator, &config, false, 200), Ok(None));
    assert_eq!(validator.reputation(), 0);
    assert_eq!(validator.stake(), 950);
}

#[test]
fn a_slashed_validator_may_not_vote_again() {
    let mut config = deployment(200);
    let mut validator = staked(&mut config, 1, 1099);
    let mut entry = fresh_entry(&mut config);
    assert_eq!(
        validate_data(&mut entry, PublicKey::new(7, 14), &mut validator, &config, false, 200),
        Ok(None)
    );
    assert_eq!(validator.stake(), 999);
    assert_eq!(
        validate_data(&mut entry, PublicKey::new(7, 15), &mut validator, &config, true, 200),
        Err(ErrorCode::InsufficientStake)
    );
    assert_eq!(validator.stake(), 999);
    assert_eq!(validator.reputation(), 0);
    assert_eq!(validator.votes_cast(), 1);
    assert_eq!(entry.validation_count(), 0);
}

#[test]
fn a_slash_takes_exactly_one_hundred() {
    let mut config = deployment(200);
    let mut validator = staked(&mut config, 1, 1000);
    let mut entry = fresh_entry(&mut config);
    assert_eq!(
        validate_data(&mut entry, PublicKey::new(7, 16), &mut validator, &config, false, 200),
        Ok(None)
    );
    assert_eq!(validator.stake(), 900);
    assert_eq!(validator.reputation(), 0);
}

#[test]
fn a_validator_below_the_minimum_keeps_what_it_has() {
    let mut config = deployment(200);
    let mut entry = fresh_entry(&mut config);
    let mut low = Validator::from_parts(PublicKey::new(1, 1), 40, 0, 0, &vec![]).unwrap();
    assert_eq!(
        validate_data(&mut entry, PublicKey::new(7, 16), &mut low, &config, false, 200),
        Err(ErrorCode::InsufficientStake)
    );
    assert_eq!(low.stake(), 40);
    assert_eq!(low.reputation(), 0);
    assert_eq!(low.votes_cast(), 0);
    assert_eq!(entry.validation_count(), 0);
}

#[test]
fn a_validator_votes_once_per_entry() {
    let mut config = deployment(5);
    let mut entry = fresh_entry(&mut config);
    let mut other = fresh_entry(&mut config);
    let entry_key = PublicKey::new(7, 17);
    let other_key = PublicKey::new(7, 18);
    let mut validator = staked(&mut config, 1, 1000);
    assert_eq!(validate_data(&mut entry, entry_key, &mut validator, &config, true, 200), Ok(None));
    assert_eq!(
        validate_data(&mut entry, entry_key, &mut validator, &config, true, 200),
        Err(ErrorCode::AlreadyVoted)
    );
    assert_eq!(
        validate_data(&mut entry, entry_key, &mut validator, &config, false, 201),
        Err(ErrorCode::AlreadyVoted)
    );
    assert_eq!(validate_data(&mut other, other_key, &mut validator, &config, true, 200), Ok(None));
    assert_eq!(
        validate_data(&mut entry, entry_key, &mut validator, &config, true, 300),
        Err(ErrorCode::AlreadyVoted)
    );
    assert_eq!(entry.validation_count(), 1);
    assert_eq!(other.validation_count(), 1);
    assert_eq!(validator.reputation(), 2);
    assert!(validator.has_voted(&entry_key));
    assert!(validator.has_voted(&other_key));
    assert!(!validator.has_voted(&PublicKey::new(7, 19)));
}

#[test]
fn keys_that_differ_in_one_half_are_different_entries() {
    let mut config = deployment(5);
    let mut entry = fresh_entry(&mut config);
    let mut validator = staked(&mut config, 1, 1000);
    assert_eq!(
        validate_data(&mut entry, PublicKey::new(1, 2), &mut validator, &config, true, 200),
        Ok(None)
    );
    assert_eq!(
        validate_data(&mut entry, PublicKey::new(2, 1), &mut validator, &config, true, 200),
        Ok(None)
    );
    assert_eq!(
        validate_data(&mut entry, PublicKey::new(1, 1), &mut validator, &config, true, 200),
        Ok(None)
    );
    assert_eq!(validator.votes_cast(), 3);
}

#[test]
fn the_voting_window_closes_at_the_expiry_instant() {
    let mut config = deployment(5);
    let mut entry = fresh_entry(&mut config);
    let expiry = entry.expiry();
    assert_eq!(expiry, 86_500);
    let key = PublicKey::new(7, 20);

    let mut late = staked(&mut config, 1, 1000);
    assert_eq!(
        validate_data(&mut entry, key, &mut late, &config, true, expiry),
        Err(ErrorCode::DataExpired)
    );
    assert_eq!(
        validate_data(&mut entry, key, &mut late, &config, true, expiry + 1),
        Err(ErrorCode::DataExpired)
    );
    assert_eq!(entry.validation_count(), 0);
    assert_eq!(late.reputation(), 0);
    assert_eq!(late.stake(), 1000);
    assert_eq!(late.votes_cast(), 0);
    assert!(!late.has_voted(&key));
    assert!(!entry.accepts_votes_at(expiry));
    assert!(!entry.accepts_votes_at(expiry + 1));

    assert!(entry.accepts_votes_at(expiry - 1));
    assert_eq!(validate_data(&mut entry, key, &mut late, &config, true, expiry - 1), Ok(None));
    assert_eq!(entry.validation_count(), 1);
}

#[test]
fn an_expired_entry_stays_as_it_was() {
    let mut config = deployment(1);
    let mut entry = fresh_entry(&mut config);
    let key = PublicKey::new(7, 21);
    let mut validator = staked(&mut config, 1, 1000);
    assert_eq!(
        validate_data(&mut entry, key, &mut validator, &config, true, i64::MAX),
        Err(ErrorCode::DataExpired)
    );
    assert!(!entry.is_validated());
    assert_eq!(entry.validation_count(), 0);
}

#[test]
fn the_stake_is_tried_before_the_window_and_the_window_before_the_record() {
    let mut config = deployment(5);
    let mut entry = fresh_entry(&mut config);
    let key = PublicKey::new(7, 22);
    let mut poor = Validator::from_parts(PublicKey::new(1, 1), 999, 0, 0, &vec![key]).unwrap();
    assert_eq!(
        validate_data(&mut entry, key, &mut poor, &config, true, 90_000),
        Err(ErrorCode::InsufficientStake)
    );
    let mut voted = Validator::from_parts(PublicKey::new(1, 2), 1000, 0, 1, &vec![key]).unwrap();
    assert_eq!(
        validate_data(&mut entry, key, &mut voted, &config, true, 90_000),
        Err(ErrorCode::DataExpired)
    );
    assert_eq!(
        validate_data(&mut entry, key, &mut voted, &config, true, 200),
        Err(ErrorCode::AlreadyVoted)
    );
}

#[test]
fn the_tally_stops_at_the_bound_of_its_counter() {
    let mut config = deployment(255);
    let mut entry = fresh_entry(&mut config);
    let key = PublicKey::new(7, 23);
    let mut events = 0;
    for i in 0..300u128 {
        let mut validator = staked(&mut config, i, 1000);
        if validate_data(&mut entry, key, &mut validator, &config, true, 200).unwrap().is_some() {
            events += 1;
            assert_eq!(i, 254);
        }
    }
    assert_eq!(entry.validation_count(), 255);
    assert!(entry.is_validated());
    assert_eq!(events, 1);
}
