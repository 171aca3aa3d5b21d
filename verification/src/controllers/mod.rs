//! What each endpoint does, from the authenticated request to the answer.

pub mod auth;
pub mod export;
pub mod status;
pub mod ticket;
pub mod user;
