//! Validation and incentive core of a decentralized oracle network.
//!
//! Data sources submit observations, staked validators vote on them, and an
//! observation becomes trusted once enough valid votes have accumulated. Every
//! operation is a single atomic transition over plain values: the caller owns
//! storage, authorization, the clock and the event sink, and hands each
//! operation the records it works on and the current time.

pub mod keys;
pub mod errors;
pub mod config;
pub mod source;
pub mod governance;
pub mod ledger;
pub mod validator;
pub mod engine;
pub mod laws;

pub use config::{initialize, Config};
pub use engine::{validate_data, DataValidated};
pub use errors::ErrorCode;
pub use governance::{update_reputation, Governance, ReputationUpdated};
pub use keys::PublicKey;
pub use ledger::{submit_data, DataEntry, DataSubmitted};
pub use source::{register_data_source, DataSource, DataSourceRegistered, DataType};
pub use validator::{stake_validator, Validator};
