//! An in-memory authentication engine: a credential store that registers
//! users with salted password hashes, a session store that issues and
//! revokes opaque tokens, and an orchestrator exposing sign-up, sign-in
//! and sign-out.

pub mod auth;
pub mod hashing;
pub mod responses;
pub mod serial;
pub mod sessions;
pub mod users;
