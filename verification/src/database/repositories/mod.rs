//! The operations on each table, and the protocol by which a partial update
//! is carried out statement by statement.

pub mod ticket_repository;
pub mod user_repository;
