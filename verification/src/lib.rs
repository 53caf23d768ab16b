//! Processing of activities delivered to a federated inbox.
//!
//! A delivered payload is resolved to one of the activities that the endpoint
//! accepts, its claims are verified, and the state change it asks for is
//! planned, with a bound on the remote fetches that one delivery may cause.

pub mod activity;
pub mod budget;
pub mod delivery;
pub mod dispatch;
pub mod inbox;
pub mod iri;
pub mod ledger;
pub mod receive;
pub mod schema;
pub mod undo_like;
pub mod verification;
pub mod wire;
