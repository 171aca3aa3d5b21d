//! Passwords and tokens.

pub mod hashing;
pub mod jwt;
