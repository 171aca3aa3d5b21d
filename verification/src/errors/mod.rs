//! The failures the service reports.

pub mod api_error;
pub mod auth_error;
pub mod config_error;
pub mod export_error;
