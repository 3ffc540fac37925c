//! Session-credential issuing and validation: short-lived signed session
//! tokens backed by a rotating, single-active-per-subject refresh credential.

pub mod flow;
pub mod gate;
pub mod jwt;
pub mod masked_token;
pub mod store;
