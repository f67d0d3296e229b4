//! The registry of data sources.

use vstd::prelude::*;
use crate::config::{Config, ConfigView};
use crate::keys::PublicKey;

verus! {

/// A data source whose reputation is set below this by governance is
/// deactivated.
pub const DEACTIVATION_REPUTATION_FLOOR: u64 = 10;

/// The kind of observations a data source produces.
#[derive(Clone, Copy, Debug, PartialEq, Eq, Structural)]
pub enum DataType {
    Financial,
    Sports,
    Political,
    Weather,
    Custom,
}

/// What a [`DataSource`] holds, as mathematical values.
pub struct DataSourceView {
    /// Who controls the data source.
    pub authority: PublicKey,
    /// The kind of observations it produces.
    pub data_type: DataType,
    /// The id given at registration.
    pub id: nat,
    /// The reputation it was registered with, or that governance gave it.
    pub reputation: nat,
    /// Whether it may still submit. Once false, it stays false.
    pub active: bool,
}

impl DataSourceView {
    /// The data source after governance has set its reputation: the new
    /// reputation replaces the old one whatever it was, and one below the
    /// floor deactivates the source. Nothing activates a source again.
    pub open spec fn with_reputation(self, new_reputation: nat) -> DataSourceView {
        DataSourceView {
            reputation: new_reputation,
            active: self.active && new_reputation >= DEACTIVATION_REPUTATION_FLOOR,
            ..self
        }
    }
}

/// A registered producer of observations.
#[derive(Debug)]
pub struct DataSource {
    authority: PublicKey,
    data_type: DataType,
    id: u64,
    reputation: u64,
    active: bool,
}

impl View for DataSource {
    type V = DataSourceView;

    closed spec fn view(&self) -> DataSourceView {
        DataSourceView {
            authority: self.authority,
            data_type: self.data_type,
            id: self.id as nat,
            reputation: self.reputation as nat,
            active: self.active,
        }
    }
}

/// Emitted when a data source has been registered.
#[derive(Clone, Copy, Debug, PartialEq, Eq, Structural)]
pub struct DataSourceRegistered {
    /// The id given to the new data source.
    pub source_id: u64,
    /// The kind of observations it produces.
    pub data_type: DataType,
}

impl Clone for DataSource {
    fn clone(&self) -> (copy: DataSource)
        ensures
            copy@ == self@,
    {
        DataSource {
            authority: self.authority,
            data_type: self.data_type,
            id: self.id,
            reputation: self.reputation,
            active: self.active,
        }
    }
}

impl DataSource {
    /// The data source with the given contents, as read back from storage.
    pub fn from_parts(
        authority: PublicKey,
        data_type: DataType,
        id: u64,
        reputation: u64,
        active: bool,
    ) -> (data_source: DataSource)
        ensures
            data_source@ == (DataSourceView {
                authority,
                data_type,
                id: id as nat,
                reputation: reputation as nat,
                active,
            }),
    {
        DataSource { authority, data_type, id, reputation, active }
    }

    /// Who controls the data source.
    pub fn authority(&self) -> (authority: PublicKey)
        ensures
            authority == self@.authority,
    {
        self.authority
    }

    /// The kind of observations the data source produces.
    pub fn data_type(&self) -> (data_type: DataType)
        ensures
            data_type == self@.data_type,
    {
        self.data_type
    }

    /// The reputation the data source was registered with, or that
    /// governance gave it.
    pub fn reputation(&self) -> (reputation: u64)
        ensures
            reputation == self@.reputation,
    {
        self.reputation
    }

    /// The id given at registration.
    pub fn id(&self) -> (id: u64)
        ensures
            id == self@.id,
    {
        self.id
    }

    /// Whether the data source may still submit.
    pub fn is_active(&self) -> (active: bool)
        ensures
            active == self@.active,
    {
        self.active
    }

    /// Replaces the reputation, and deactivates the source if the new
    /// reputation is below the floor.
    pub(crate) fn override_reputation(&mut self, new_reputation: u64)
        ensures
            final(self)@ == old(self)@.with_reputation(new_reputation as nat),
    {
        self.reputation = new_reputation;
        if new_reputation < DEACTIVATION_REPUTATION_FLOOR {
            self.active = false;
        }
    }
}

/// Registers a new data source. It gets the next id, whatever reputation it
/// is registered with (zero included), and starts active.
pub fn register_data_source(
    config: &mut Config,
    authority: PublicKey,
    data_type: DataType,
    initial_reputation: u64,
) -> (registered: (DataSource, DataSourceRegistered))
    requires
        old(config)@.data_source_count < u64::MAX,
    ensures
        registered.0@ == (DataSourceView {
            authority,
            data_type,
            id: old(config)@.data_source_count,
            reputation: initial_reputation as nat,
            active: true,
        }),
        registered.1 == (DataSourceRegistered {
            source_id: old(config)@.data_source_count as u64,
            data_type,
        }),
        final(config)@ == (ConfigView {
            data_source_count: old(config)@.data_source_count + 1,
            ..old(config)@
        }),
{
    let id: u64 = config.next_data_source_id();
    let data_source = DataSource {
        authority,
        data_type,
        id,
        reputation: initial_reputation,
        active: true,
    };
    (data_source, DataSourceRegistered { source_id: id, data_type })
}

} // verus!
