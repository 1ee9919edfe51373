//! A small service core that checks whether a GitHub user contributed today
//! (in a fixed UTC+9 offset), derives a mood state from the day's contribution
//! count, persists that state as a single document, and serves it back.
//!
//! This crate holds the verified logic: the time-window calculation, the
//! GraphQL query construction, the collapse of the nested query response into
//! a contribution count, the mood derivation, the orchestration decisions and
//! their error policy, and a store model. The surrounding HTTP server, the
//! outbound network calls and the document-store client live outside it and
//! hand this crate plain values.

use vstd::prelude::*;

pub mod errors;
pub mod github;
pub mod monster;
pub mod orchestrate;
pub mod store;
pub mod text;
pub mod timewin;

verus! {

/// Query parameters accepted by the check endpoint. The `secret` parameter is
/// carried but not validated anywhere yet: accepting it is a deliberate no-op.
pub struct CheckQuery {
    pub secret: String,
}

} // verus!
