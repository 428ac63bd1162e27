//! The uniform error taxonomy of the session core, and the adapter that
//! downgrades every typed failure into a `(category, message)` pair for the
//! transport boundary.

use vstd::prelude::*;

verus! {

/// Failure to reach, authenticate with, or keep a connection to a backend.
#[derive(Debug, PartialEq, Eq)]
pub enum ConnectionError {
    /// The backend could not be reached or refused the connection.
    Unreachable { message: String },
    /// The backend rejected the supplied credentials.
    AuthFailed { message: String },
    /// The underlying connection was lost; the owning handle is broken.
    Lost,
}

/// Failure reported by the backend while running a query.
#[derive(Debug, PartialEq, Eq)]
pub enum QueryError {
    /// The backend rejected the query text itself.
    Malformed { message: String },
    /// The backend failed internally while running the query.
    BackendFault { message: String },
}

/// Failure of a table-configuration operation.
#[derive(Debug, PartialEq, Eq)]
pub enum ConfigError {
    /// The requested tier holds no entry for the table.
    NotFound,
    /// The remote persistence collaborator rejected or failed the operation.
    PersistFailed { message: String },
}

/// Failure of a registry lookup.
#[derive(Debug, PartialEq, Eq)]
pub enum RegistryError {
    /// No handle is registered under the given session identifier.
    NotFound,
}

/// Every failure the core can surface, as one closed sum so that the adapter's
/// mapping is total by construction.
#[derive(Debug, PartialEq, Eq)]
pub enum CoreError {
    Connection(ConnectionError),
    Query(QueryError),
    Config(ConfigError),
    Registry(RegistryError),
}

/// Uniform category a boundary layer turns into a transport status code.
#[derive(Clone, Copy, Debug, PartialEq, Eq, Structural)]
pub enum ErrorCategory {
    ServiceUnavailable,
    BadRequest,
    NotFound,
    Internal,
}

/// The user-facing error value: a category plus a human-readable message.
#[derive(Debug)]
pub struct AppError {
    pub category: ErrorCategory,
    pub message: String,
}

/// The category every core failure maps to: connection trouble is
/// service-unavailable, a query the backend rejected is the client's fault,
/// missing entries are not-found, and everything else is internal.
pub open spec fn category_of(e: CoreError) -> ErrorCategory {
    match e {
        CoreError::Connection(_) => ErrorCategory::ServiceUnavailable,
        CoreError::Query(QueryError::Malformed { .. }) => ErrorCategory::BadRequest,
        CoreError::Query(QueryError::BackendFault { .. }) => ErrorCategory::Internal,
        CoreError::Config(ConfigError::NotFound) => ErrorCategory::NotFound,
        CoreError::Config(ConfigError::PersistFailed { .. }) => ErrorCategory::Internal,
        CoreError::Registry(RegistryError::NotFound) => ErrorCategory::NotFound,
    }
}

/// The message every core failure maps to: a carried backend message is
/// preserved verbatim, the message-free variants get a fixed description.
pub open spec fn message_of(e: CoreError) -> Seq<char> {
    match e {
        CoreError::Connection(ConnectionError::Unreachable { message }) => message@,
        CoreError::Connection(ConnectionError::AuthFailed { message }) => message@,
        CoreError::Connection(ConnectionError::Lost) => "connection lost"@,
        CoreError::Query(QueryError::Malformed { message }) => message@,
        CoreError::Query(QueryError::BackendFault { message }) => message@,
        CoreError::Config(ConfigError::NotFound) => "no table configuration found"@,
        CoreError::Config(ConfigError::PersistFailed { message }) => message@,
        CoreError::Registry(RegistryError::NotFound) => "no session for this identifier"@,
    }
}

/// The error adapter: the single, total mapping from the core's typed
/// failures to the `(category, message)` pair the boundary consumes.
pub fn adapt(e: &CoreError) -> (r: AppError)
    ensures
        r.category == category_of(*e),
        r.message@ == message_of(*e),
{
    match e {
        CoreError::Connection(ConnectionError::Unreachable { message }) => AppError {
            category: ErrorCategory::ServiceUnavailable,
            message: message.clone(),
        },
        CoreError::Connection(ConnectionError::AuthFailed { message }) => AppError {
            category: ErrorCategory::ServiceUnavailable,
            message: message.clone(),
        },
        CoreError::Connection(ConnectionError::Lost) => AppError {
            category: ErrorCategory::ServiceUnavailable,
            message: "connection lost".to_owned(),
        },
        CoreError::Query(QueryError::Malformed { message }) => AppError {
            category: ErrorCategory::BadRequest,
            message: message.clone(),
        },
        CoreError::Query(QueryError::BackendFault { message }) => AppError {
            category: ErrorCategory::Internal,
            message: message.clone(),
        },
        CoreError::Config(ConfigError::NotFound) => AppError {
            category: ErrorCategory::NotFound,
            message: "no table configuration found".to_owned(),
        },
        CoreError::Config(ConfigError::PersistFailed { message }) => AppError {
            category: ErrorCategory::Internal,
            message: message.clone(),
        },
        CoreError::Registry(RegistryError::NotFound) => AppError {
            category: ErrorCategory::NotFound,
            message: "no session for this identifier".to_owned(),
        },
    }
}

} // verus!
