//! The deployment-wide configuration and its id counters.

use vstd::prelude::*;
use crate::keys::PublicKey;

verus! {

/// What a [`Config`] holds, as mathematical values.
pub struct ConfigView {
    /// Who created the deployment.
    pub authority: PublicKey,
    /// How many valid votes latch a data entry as validated.
    pub validation_threshold: nat,
    /// How many data sources have been registered; the id of the next one.
    pub data_source_count: nat,
    /// How many validators have staked; the id of the next one.
    pub validator_count: nat,
}

/// The singleton configuration of a deployment.
///
/// The two counters are sequence generators: nothing but a registration or a
/// staking moves them, and each moves its counter up by exactly one.
#[derive(Debug)]
pub struct Config {
    authority: PublicKey,
    validation_threshold: u8,
    data_source_count: u64,
    validator_count: u64,
}

impl View for Config {
    type V = ConfigView;

    closed spec fn view(&self) -> ConfigView {
        ConfigView {
            authority: self.authority,
            validation_threshold: self.validation_threshold as nat,
            data_source_count: self.data_source_count as nat,
            validator_count: self.validator_count as nat,
        }
    }
}

/// Creates the configuration of a fresh deployment: the given threshold, and
/// both counters at zero.
pub fn initialize(authority: PublicKey, validation_threshold: u8) -> (config: Config)
    ensures
        config@ == (ConfigView {
            authority,
            validation_threshold: validation_threshold as nat,
            data_source_count: 0,
            validator_count: 0,
        }),
{
    Config { authority, validation_threshold, data_source_count: 0, validator_count: 0 }
}

impl Clone for Config {
    fn clone(&self) -> (copy: Config)
        ensures
            copy@ == self@,
    {
        Config {
            authority: self.authority,
            validation_threshold: self.validation_threshold,
            data_source_count: self.data_source_count,
            validator_count: self.validator_count,
        }
    }
}

impl Config {
    /// The configuration with the given contents, as read back from storage.
    pub fn from_parts(
        authority: PublicKey,
        validation_threshold: u8,
        data_source_count: u64,
        validator_count: u64,
    ) -> (config: Config)
        ensures
            config@ == (ConfigView {
                authority,
                validation_threshold: validation_threshold as nat,
                data_source_count: data_source_count as nat,
                validator_count: validator_count as nat,
            }),
    {
        Config { authority, validation_threshold, data_source_count, validator_count }
    }

    /// Hands out the next data source id and advances the counter.
    pub(crate) fn next_data_source_id(&mut self) -> (id: u64)
        requires
            old(self)@.data_source_count < u64::MAX,
        ensures
            id == old(self)@.data_source_count,
            final(self)@ == (ConfigView {
                data_source_count: old(self)@.data_source_count + 1,
                ..old(self)@
            }),
    {
        let id: u64 = self.data_source_count;
        self.data_source_count = id + 1;
        id
    }

    /// Hands out the next validator id and advances the counter.
    pub(crate) fn next_validator_id(&mut self) -> (id: u64)
        requires
            old(self)@.validator_count < u64::MAX,
        ensures
            id == old(self)@.validator_count,
            final(self)@ == (ConfigView {
                validator_count: old(self)@.validator_count + 1,
                ..old(self)@
            }),
    {
        let id: u64 = self.validator_count;
        self.validator_count = id + 1;
        id
    }

    /// Who created the deployment.
    pub fn authority(&self) -> (authority: PublicKey)
        ensures
            authority == self@.authority,
    {
        self.authority
    }

    /// How many data sources have been registered; the id of the next one.
    pub fn data_source_count(&self) -> (count: u64)
        ensures
            count == self@.data_source_count,
    {
        self.data_source_count
    }

    /// How many validators have staked; the id of the next one.
    pub fn validator_count(&self) -> (count: u64)
        ensures
            count == self@.validator_count,
    {
        self.validator_count
    }

    /// How many valid votes latch a data entry as validated.
    pub fn validation_threshold(&self) -> (threshold: u8)
        ensures
            threshold == self@.validation_threshold,
    {
        self.validation_threshold
    }
}

} // verus!
