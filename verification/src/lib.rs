//! Verified core of a GitHub Actions workflow auditor: strategy-matrix
//! expansion, `uses:` matching, and the cache-poisoning and
//! superfluous-actions audits.

pub mod text;
pub mod location;
pub mod value;
pub mod models;
pub mod matrix;
pub mod context;
pub mod uses;
pub mod finding;
pub mod cache_poisoning;
pub mod superfluous_actions;
