use vstd::prelude::*;

verus! {

/// Kinds of database error this layer reports. Refining a failure into
/// constraint, syntax or other kinds is left to higher layers.
#[derive(Debug, Clone, Copy, PartialEq, Eq)]
pub enum DatabaseErrorKind {
    Unknown,
}

/// Why a connection could not be established or closed.
#[derive(Debug, Clone, PartialEq, Eq)]
pub enum ConnectionError {
    /// A string for the native layer held a zero byte at this byte offset.
    InvalidCString(usize),
    /// A native open/configure call returned a failure status; carries the
    /// engine's message.
    BadConnection(String),
    /// The connection string was not a URL of the engine's scheme.
    InvalidConnectionUrl(String),
}

/// Why a statement could not be run.
#[derive(Debug, Clone, PartialEq, Eq)]
pub enum QueryError {
    /// A string for the native layer held a zero byte at this byte offset.
    InvalidCString(usize),
    /// The engine reported a failure; carries the engine's message.
    DatabaseError(DatabaseErrorKind, String),
}

pub type ConnectionResult<T> = Result<T, ConnectionError>;

pub type QueryResult<T> = Result<T, QueryError>;

} // verus!
