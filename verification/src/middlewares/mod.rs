//! What is done to a request before it reaches an endpoint.

pub mod authorization;
