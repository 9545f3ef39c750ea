//! Authentication core: credential value types, user, revoked-token and
//! challenge stores, session tokens, and the login state machine.

pub mod assoc;
pub mod cache;
pub mod challenge;
pub mod credentials;
pub mod errors;
pub mod flow;
pub mod hashing;
pub mod memory;
pub mod stores;
pub mod text;
pub mod token;
