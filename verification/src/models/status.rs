//! The health of the service.

use crate::models::Timestamp;
use vstd::prelude::*;

verus! {

/// What the store reports of itself.
#[derive(Clone, Debug, PartialEq, Eq)]
pub struct Database {
    pub version: String,
    pub max_connections: i64,
    pub opened_connections: i64,
}

/// What the service depends on.
#[derive(Clone, Debug, PartialEq, Eq)]
pub struct Dependencies {
    pub database: Database,
}

/// A snapshot of the health of the service.
#[derive(Clone, Debug, PartialEq, Eq)]
pub struct Status {
    pub updated_at: Timestamp,
    pub dependencies: Dependencies,
}

} // verus!
