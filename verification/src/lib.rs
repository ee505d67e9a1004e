//! A fulfillment reconciliation engine: independent participants watch an
//! append-only, eventually consistent record store and each derive, from
//! their own snapshot of it, whether a need of a call to action has
//! received enough live commitments, and whether every need of a call to
//! action is satisfied, publishing the derived record when it is.

#![verifier::loop_isolation(false)]

pub mod entity;
pub mod store;
pub mod aggregate;
pub mod validate;
pub mod call_to_action;
pub mod commitment;
pub mod satisfaction;
pub mod assembly;
pub mod cascade;
pub mod laws;
