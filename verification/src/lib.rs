//! A support-ticketing backend: users, tickets, bearer-token authentication,
//! role- and status-gated access, and export of tickets to PDF and CSV.
//!
//! Everything here is plain computation with a machine-checked contract.
//! Talking to the network and to the relational store is left to the caller,
//! which drives the decision functions of this crate.

pub mod config;
pub mod controllers;
pub mod database;
pub mod errors;
pub mod export;
pub mod middlewares;
pub mod models;
pub mod utils;
pub mod validations;
