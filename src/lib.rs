//! Validator-set governance: a unanimous-consent voting process that admits
//! and removes validators, with an administrative override, and the query that
//! hands the current set to the session scheduler.

pub mod laws;
pub mod model;
pub mod types;
pub mod validator_set;
mod votes;

pub use types::{AccountId, Error, Event, Origin, SessionIndex};
pub use validator_set::Module;
