//! The endpoint that reports the health of the service.

use crate::config::{integer_of, parse_integer};
use crate::errors::api_error::ApiError;
use crate::errors::config_error::ConfigError;
use crate::models::Timestamp;
use crate::models::status::{Database, Dependencies, Status};
use vstd::prelude::*;

verus! {

/// `GET /status`: the snapshot made of what the store answered at the
/// moment `now`: its version, the limit on connections as the store prints
/// it, and the number of connections that are open. A limit that is no whole
/// number is a `ParsingError`.
pub fn show_status_at(
    version: String,
    max_connections: &str,
    opened_connections: i64,
    now: Timestamp,
) -> (status: Result<Status, ApiError>)
    ensures
        match integer_of(max_connections@) {
            Some(limit) => status matches Ok(snapshot) && {
                &&& snapshot.updated_at == now
                &&& snapshot.dependencies.database.version == version
                &&& snapshot.dependencies.database.max_connections == limit
                &&& snapshot.dependencies.database.opened_connections == opened_connections
            },
            None => status matches Err(ApiError::ConfigError(ConfigError::ParsingError(_))),
        },
{
    let limit = match parse_integer(max_connections) {
        Some(limit) => limit,
        None => {
            return Err(
                ApiError::ConfigError(
                    ConfigError::ParsingError("Error parsing max_connections as i64".to_string()),
                ),
            );
        },
    };
    Ok(
        Status {
            updated_at: now,
            dependencies: Dependencies {
                database: Database { version, max_connections: limit, opened_connections },
            },
        },
    )
}

/// `GET /status`: the snapshot made now.
pub fn show_status(version: String, max_connections: &str, opened_connections: i64) -> (status:
    Result<Status, ApiError>)
    ensures
        match integer_of(max_connections@) {
            Some(limit) => status matches Ok(snapshot) && {
                &&& snapshot.dependencies.database.version == version
                &&& snapshot.dependencies.database.max_connections == limit
                &&& snapshot.dependencies.database.opened_connections == opened_connections
            },
            None => status matches Err(ApiError::ConfigError(ConfigError::ParsingError(_))),
        },
{
    show_status_at(version, max_connections, opened_connections, Timestamp::now())
}

} // verus!
