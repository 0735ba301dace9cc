//! Persistence and reconciliation of per-guild bot configuration.
//!
//! `store` states the relational store as a model (`Tables`) and turns each
//! save or delete into the list of writes to run; `laws` proves what those
//! writes do to the model. `sync` decides how stored roles follow the
//! platform's live roster, and `import` reads a bulk-import document.
use vstd::prelude::*;

pub mod config;
pub mod import;
pub mod json;
pub mod laws;
pub mod model;
pub mod store;
pub mod sync;
pub mod text;

verus! {

} // verus!
