//! The governance override: a quorum of governance weight may rewrite the
//! reputation of a data source, and so deactivate it.

use vstd::prelude::*;
use crate::errors::ErrorCode;
use crate::keys::PublicKey;
use crate::source::{DataSource, DataSourceView};

verus! {

/// The least governance weight that may override a reputation.
pub const GOVERNANCE_QUORUM: u8 = 3;

/// The governance weight that stands behind an override. It is gathered
/// elsewhere; the override only reads it.
#[derive(Clone, Copy, Debug, PartialEq, Eq, Structural)]
pub struct Governance {
    /// Who controls the governance record.
    pub authority: PublicKey,
    /// The weight gathered.
    pub votes: u8,
}

/// Emitted when governance has set the reputation of a data source.
#[derive(Clone, Copy, Debug, PartialEq, Eq, Structural)]
pub struct ReputationUpdated {
    /// The id of the data source.
    pub source_id: u64,
    /// The reputation it now has.
    pub new_reputation: u64,
}

/// Why an override is refused, if it is. The quorum is tried first, then the
/// source id.
pub open spec fn override_rejection(
    data_source: DataSourceView,
    governance: Governance,
    source_id: u64,
) -> Option<ErrorCode> {
    if governance.votes < GOVERNANCE_QUORUM {
        Some(ErrorCode::InsufficientVotes)
    } else if data_source.id != source_id {
        Some(ErrorCode::InvalidSource)
    } else {
        None
    }
}

/// Sets the reputation of `data_source` to `new_reputation` on the strength
/// of `governance`, and deactivates the source for good if the new reputation
/// is below the floor.
///
/// Refused with `InsufficientVotes` when the governance weight is below the
/// quorum, else with `InvalidSource` when `source_id` is not the id of
/// `data_source`. A refused override leaves the data source as it was.
pub fn update_reputation(
    data_source: &mut DataSource,
    governance: &Governance,
    source_id: u64,
    new_reputation: u64,
) -> (res: Result<ReputationUpdated, ErrorCode>)
    ensures
        match override_rejection(old(data_source)@, *governance, source_id) {
            Some(error) => {
                &&& res == Err::<ReputationUpdated, ErrorCode>(error)
                &&& final(data_source)@ == old(data_source)@
            },
            None => {
                &&& res == Ok::<ReputationUpdated, ErrorCode>(
                    ReputationUpdated { source_id, new_reputation },
                )
                &&& final(data_source)@ == old(data_source)@.with_reputation(new_reputation as nat)
            },
        },
{
    if governance.votes < GOVERNANCE_QUORUM {
        return Err(ErrorCode::InsufficientVotes);
    }
    if data_source.id() != source_id {
        return Err(ErrorCode::InvalidSource);
    }
    data_source.override_reputation(new_reputation);
    Ok(ReputationUpdated { source_id, new_reputation })
}

} // verus!
