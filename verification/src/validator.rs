//! The pool of staked validators.

use std::collections::BTreeSet;
use vstd::prelude::*;
use vstd::set_lib::lemma_map_size;
use vstd::std_specs::btree::spec_btree_keys_iter;
use vstd::std_specs::iter::IteratorSpec;
use crate::config::Config;
use crate::errors::ErrorCode;
use crate::keys::PublicKey;

verus! {

/// The least stake with which a validator may join, and may vote.
pub const MIN_STAKE: u64 = 1000;

/// The stake taken from a validator by one slashing.
pub const SLASH_AMOUNT: u64 = 100;

/// A validator whose reputation is below this after an invalid vote is slashed.
pub const SLASHING_REPUTATION_FLOOR: u64 = 10;

/// What a [`Validator`] holds, as mathematical values.
pub struct ValidatorView {
    /// Who controls the validator.
    pub authority: PublicKey,
    /// The stake that is left.
    pub stake: nat,
    /// The reputation earned by voting.
    pub reputation: nat,
    /// The id given at staking.
    pub id: nat,
    /// Every data entry the validator has ever voted on.
    pub voted_entries: Set<PublicKey>,
}

impl ValidatorView {
    /// What holds of every validator: it has voted on finitely many entries,
    /// and its reputation is no more than their number, since only a vote
    /// can raise it, by one.
    pub open spec fn wf(self) -> bool {
        &&& self.voted_entries.finite()
        &&& self.reputation <= self.voted_entries.len()
    }

    /// The reputation after one accepted vote: a valid vote earns one, an
    /// invalid vote costs one, never going below zero.
    pub open spec fn reputation_after_vote(self, is_valid: bool) -> nat {
        if is_valid {
            self.reputation + 1
        } else if self.reputation >= 1 {
            (self.reputation - 1) as nat
        } else {
            0
        }
    }

    /// Whether one accepted vote slashes the validator: the vote is invalid
    /// and leaves the reputation below the floor.
    pub open spec fn vote_slashes(self, is_valid: bool) -> bool {
        !is_valid && self.reputation_after_vote(is_valid) < SLASHING_REPUTATION_FLOOR
    }

    /// The stake after one accepted vote: slashing takes the penalty, never
    /// going below zero; otherwise the stake does not move.
    pub open spec fn stake_after_vote(self, is_valid: bool) -> nat {
        if !self.vote_slashes(is_valid) {
            self.stake
        } else if self.stake >= SLASH_AMOUNT {
            (self.stake - SLASH_AMOUNT) as nat
        } else {
            0
        }
    }

    /// The validator after one accepted vote on `entry`.
    pub open spec fn after_vote(self, entry: PublicKey, is_valid: bool) -> ValidatorView {
        ValidatorView {
            stake: self.stake_after_vote(is_valid),
            reputation: self.reputation_after_vote(is_valid),
            voted_entries: self.voted_entries.insert(entry),
            ..self
        }
    }
}

/// The keys whose halves are in `words`.
spec fn keys_of(words: Set<(u128, u128)>) -> Set<PublicKey> {
    Set::new(|key: PublicKey| words.contains(key.words()))
}

proof fn lemma_keys_of_len(words: Set<(u128, u128)>)
    requires
        words.finite(),
    ensures
        keys_of(words).finite(),
        keys_of(words).len() == words.len(),
{
    let key_of = |w: (u128, u128)| PublicKey { hi: w.0, lo: w.1 };
    assert forall|key: PublicKey| keys_of(words).contains(key) implies words.map(key_of).contains(
        key,
    ) by {
        assert(words.contains(key.words()) && key_of(key.words()) == key);
    }
    assert(keys_of(words) =~= words.map(key_of));
    lemma_map_size(words, keys_of(words), key_of);
}

proof fn lemma_keys_of_insert(words: Set<(u128, u128)>, key: PublicKey)
    ensures
        keys_of(words.insert(key.words())) == keys_of(words).insert(key),
        keys_of(words).contains(key) == words.contains(key.words()),
{
    assert(keys_of(words.insert(key.words())) =~= keys_of(words).insert(key));
}

/// The entries a validator has voted on, together with the reputation that
/// those votes have earned. The two move together: every vote adds an entry,
/// and only a vote can raise the reputation, by one.
#[derive(Debug)]
struct VotingRecord {
    reputation: u64,
    votes: BTreeSet<(u128, u128)>,
}

impl VotingRecord {
    #[verifier::type_invariant]
    spec fn inv(&self) -> bool {
        &&& self.votes@.finite()
        &&& self.reputation <= self.votes@.len()
    }

    spec fn entries(&self) -> Set<PublicKey> {
        keys_of(self.votes@)
    }

    /// The record of a validator that has not voted yet.
    fn new() -> (record: VotingRecord)
        ensures
            record.reputation == 0,
            record.entries() == Set::<PublicKey>::empty(),
    {
        let votes: BTreeSet<(u128, u128)> = BTreeSet::new();
        assert(keys_of(votes@) =~= Set::<PublicKey>::empty());
        VotingRecord { reputation: 0, votes }
    }

    /// A second record with the same reputation and the same entries.
    fn duplicate(&self) -> (copy: VotingRecord)
        ensures
            copy.reputation == self.reputation,
            copy.entries() == self.entries(),
    {
        proof {
            use_type_invariant(self);
        }
        VotingRecord { reputation: self.reputation, votes: self.votes.clone() }
    }

    /// Whether `entry` is in the record.
    fn contains(&self, entry: &PublicKey) -> (found: bool)
        ensures
            found == self.entries().contains(*entry),
    {
        broadcast use vstd::std_specs::btree::group_btree_axioms;
        broadcast use vstd::laws_cmp::group_laws_cmp;

        proof {
            lemma_keys_of_insert(self.votes@, *entry);
        }
        let words: (u128, u128) = (entry.hi, entry.lo);
        self.votes.contains(&words)
    }

    /// How many entries are in the record.
    fn len(&self) -> (len: usize)
        ensures
            self.entries().finite(),
            len == self.entries().len(),
            self.reputation <= len,
    {
        broadcast use vstd::std_specs::btree::group_btree_axioms;
        broadcast use vstd::laws_cmp::group_laws_cmp;

        proof {
            use_type_invariant(self);
            lemma_keys_of_len(self.votes@);
        }
        self.votes.len()
    }

    /// The entries in the record, each once.
    fn to_vec(&self) -> (out: Vec<PublicKey>)
        ensures
            out@.to_set() == self.entries(),
            out@.no_duplicates(),
    {
        broadcast use vstd::std_specs::btree::group_btree_axioms;
        broadcast use vstd::laws_cmp::group_laws_cmp;

        let ghost halves = spec_btree_keys_iter(&self.votes).remaining();
        let mut out: Vec<PublicKey> = Vec::new();
        for words in it: self.votes.iter()
            invariant
                it.seq() == halves,
                out@.len() == it.index(),
                forall|j: int| 0 <= j < out@.len() ==> out@[j].words() == *halves[j],
        {
            out.push(PublicKey { hi: words.0, lo: words.1 });
        }
        proof {
            assert forall|key: PublicKey| out@.to_set().contains(key) <==> self.entries().contains(
                key,
            ) by {
                if out@.to_set().contains(key) {
                    let j = choose|j: int| 0 <= j < out@.len() && out@[j] == key;
                    assert(halves.unref()[j] == key.words());
                    assert(halves.unref().to_set().contains(key.words()));
                }
                if self.entries().contains(key) {
                    assert(halves.unref().to_set().contains(key.words()));
                    let j = choose|j: int|
                        0 <= j < halves.unref().len() && halves.unref()[j] == key.words();
                    assert(out@[j] == key);
                }
            }
            assert(out@.to_set() =~= self.entries());
            assert forall|i: int, j: int|
                0 <= i < out@.len() && 0 <= j < out@.len() && i != j implies out@[i] != out@[j] by {
                assert(halves[i] != halves[j]);
            }
        }
        out
    }

    /// The record with `entry` in it, and the same reputation.
    fn with_entry(self, entry: PublicKey) -> (record: VotingRecord)
        ensures
            record.entries() == self.entries().insert(entry),
            record.reputation == self.reputation,
    {
        broadcast use vstd::std_specs::btree::group_btree_axioms;
        broadcast use vstd::laws_cmp::group_laws_cmp;

        proof {
            use_type_invariant(&self);
            lemma_keys_of_insert(self.votes@, entry);
        }
        let VotingRecord { reputation, mut votes } = self;
        votes.insert((entry.hi, entry.lo));
        VotingRecord { reputation, votes }
    }

    /// The record with the given reputation and the same entries, if that
    /// reputation is no more than their number.
    fn with_reputation(self, reputation: u64) -> (record: Option<VotingRecord>)
        ensures
            record is Some <==> reputation <= self.entries().len(),
            record matches Some(r) ==> r.reputation == reputation && r.entries()
                == self.entries(),
    {
        let len: usize = self.len();
        if reputation <= len as u64 {
            proof {
                use_type_invariant(&self);
                lemma_keys_of_len(self.votes@);
            }
            let VotingRecord { reputation: _, votes } = self;
            Some(VotingRecord { reputation, votes })
        } else {
            None
        }
    }

    /// The record with one more vote, on an entry that is not in it yet.
    fn with_vote(self, entry: PublicKey, is_valid: bool) -> (record: VotingRecord)
        requires
            !self.entries().contains(entry),
        ensures
            record.entries() == self.entries().insert(entry),
            is_valid ==> record.reputation == self.reputation + 1,
            !is_valid && self.reputation >= 1 ==> record.reputation == self.reputation - 1,
            !is_valid && self.reputation == 0 ==> record.reputation == 0,
    {
        broadcast use vstd::std_specs::btree::group_btree_axioms;
        broadcast use vstd::laws_cmp::group_laws_cmp;

        proof {
            use_type_invariant(&self);
            lemma_keys_of_insert(self.votes@, entry);
        }
        let VotingRecord { reputation, mut votes } = self;
        votes.insert((entry.hi, entry.lo));
        // The set has grown by one and its size fits a machine word, so the
        // reputation, which was no more than the old size, has room to grow.
        assert(votes@.len() == vstd::std_specs::btree::spec_btree_set_len(&votes));
        let reputation: u64 = if is_valid {
            reputation + 1
        } else {
            reputation.saturating_sub(1)
        };
        VotingRecord { reputation, votes }
    }
}

/// A staked actor who votes on data entries.
#[derive(Debug)]
pub struct Validator {
    authority: PublicKey,
    stake: u64,
    id: u64,
    record: VotingRecord,
}

impl View for Validator {
    type V = ValidatorView;

    closed spec fn view(&self) -> ValidatorView {
        ValidatorView {
            authority: self.authority,
            stake: self.stake as nat,
            reputation: self.record.reputation as nat,
            id: self.id as nat,
            voted_entries: self.record.entries(),
        }
    }
}

impl Clone for Validator {
    fn clone(&self) -> (copy: Validator)
        ensures
            copy@ == self@,
    {
        Validator {
            authority: self.authority,
            stake: self.stake,
            id: self.id,
            record: self.record.duplicate(),
        }
    }
}

impl Validator {
    /// The validator with the given contents, as read back from storage.
    /// Entries listed more than once count once.
    ///
    /// There is no such validator, and `None` is returned, when the
    /// reputation is more than the number of distinct entries voted on.
    pub fn from_parts(
        authority: PublicKey,
        stake: u64,
        reputation: u64,
        id: u64,
        voted_entries: &Vec<PublicKey>,
    ) -> (res: Option<Validator>)
        ensures
            res is Some <==> reputation <= voted_entries@.to_set().len(),
            res matches Some(validator) ==> validator@.wf() && validator@ == (ValidatorView {
                authority,
                stake: stake as nat,
                reputation: reputation as nat,
                id: id as nat,
                voted_entries: voted_entries@.to_set(),
            }),
    {
        let mut record = VotingRecord::new();
        let mut i: usize = 0;
        assert(voted_entries@.take(0).to_set() =~= Set::<PublicKey>::empty());
        while i < voted_entries.len()
            invariant
                i <= voted_entries.len(),
                record.entries() == voted_entries@.take(i as int).to_set(),
            decreases voted_entries.len() - i,
        {
            record = record.with_entry(voted_entries[i]);
            proof {
                let seen = voted_entries@.take(i as int);
                assert(voted_entries@.take(i + 1) =~= seen.push(voted_entries@[i as int]));
                seen.lemma_push_to_set_commute(voted_entries@[i as int]);
            }
            i += 1;
        }
        assert(voted_entries@.take(i as int) =~= voted_entries@);
        match record.with_reputation(reputation) {
            Some(record) => {
                let validator = Validator { authority, stake, id, record };
                proof {
                    use_type_invariant(&validator.record);
                    lemma_keys_of_len(validator.record.votes@);
                }
                Some(validator)
            },
            None => None,
        }
    }

    /// Who controls the validator.
    pub fn authority(&self) -> (authority: PublicKey)
        ensures
            authority == self@.authority,
    {
        self.authority
    }

    /// The reputation earned by voting.
    pub fn reputation(&self) -> (reputation: u64)
        ensures
            reputation == self@.reputation,
    {
        self.record.reputation
    }

    /// The id given at staking.
    pub fn id(&self) -> (id: u64)
        ensures
            id == self@.id,
    {
        self.id
    }

    /// Every data entry the validator has voted on, each listed once.
    pub fn voted_entries(&self) -> (entries: Vec<PublicKey>)
        ensures
            entries@.to_set() == self@.voted_entries,
            entries@.no_duplicates(),
    {
        self.record.to_vec()
    }

    /// How many data entries the validator has voted on. The reputation is
    /// never more than this.
    pub fn votes_cast(&self) -> (count: usize)
        ensures
            count == self@.voted_entries.len(),
            self@.wf(),
    {
        self.record.len()
    }

    /// The stake that is left.
    pub fn stake(&self) -> (stake: u64)
        ensures
            stake == self@.stake,
    {
        self.stake
    }

    /// Whether the validator has ever voted on `entry`.
    pub fn has_voted(&self, entry: &PublicKey) -> (voted: bool)
        ensures
            voted == self@.voted_entries.contains(*entry),
    {
        self.record.contains(entry)
    }

    /// Records one accepted vote on `entry`: marks the entry as voted on,
    /// moves the reputation, and slashes the stake where the vote calls for it.
    pub(crate) fn record_vote(&mut self, entry: PublicKey, is_valid: bool)
        requires
            !old(self)@.voted_entries.contains(entry),
        ensures
            final(self)@ == old(self)@.after_vote(entry, is_valid),
            final(self)@.wf(),
    {
        // The record is taken out of the validator while the vote is added,
        // and an empty one stands in for it meanwhile.
        let mut record = VotingRecord::new();
        core::mem::swap(&mut self.record, &mut record);
        self.record = record.with_vote(entry, is_valid);
        proof {
            use_type_invariant(&self.record);
            lemma_keys_of_len(self.record.votes@);
        }
        if !is_valid && self.record.reputation < SLASHING_REPUTATION_FLOOR {
            self.stake = self.stake.saturating_sub(SLASH_AMOUNT);
        }
    }
}

/// Admits a new validator with the given stake. The validator gets the next
/// id, no reputation and an empty voting record.
///
/// Refused with `InsufficientStake` when `amount` is below [`MIN_STAKE`];
/// the counter then does not move.
pub fn stake_validator(config: &mut Config, authority: PublicKey, amount: u64) -> (res: Result<
    Validator,
    ErrorCode,
>)
    requires
        amount >= MIN_STAKE ==> old(config)@.validator_count < u64::MAX,
    ensures
        amount < MIN_STAKE ==> res == Err::<Validator, ErrorCode>(ErrorCode::InsufficientStake)
            && final(config)@ == old(config)@,
        amount >= MIN_STAKE ==> res is Ok && res->Ok_0@ == (ValidatorView {
            authority,
            stake: amount as nat,
            reputation: 0,
            id: old(config)@.validator_count,
            voted_entries: Set::empty(),
        }) && res->Ok_0@.wf() && final(config)@ == (crate::config::ConfigView {
            validator_count: old(config)@.validator_count + 1,
            ..old(config)@
        }),
{
    if amount < MIN_STAKE {
        return Err(ErrorCode::InsufficientStake);
    }
    let id: u64 = config.next_validator_id();
    let validator = Validator { authority, stake: amount, id, record: VotingRecord::new() };
    proof {
        use_type_invariant(&validator.record);
        lemma_keys_of_len(validator.record.votes@);
    }
    Ok(validator)
}

} // verus!
