use vstd::prelude::*;

use crate::error::ConnectionError;
use crate::error::ConnectionResult;
use crate::error::DatabaseErrorKind;
use crate::error::QueryError;
use crate::error::QueryResult;
use crate::SQLITE_OK;

verus! {

/// Translates the status of a native open or configure call. `message` is
/// the engine's description of `status_code`.
pub fn ensure_status_code_ok(status_code: i32, message: &str) -> (r: ConnectionResult<()>)
    ensures
        r is Ok <==> status_code == SQLITE_OK,
        r matches Err(e) ==> e matches ConnectionError::BadConnection(m) && m@ == message@,
{
    if status_code == SQLITE_OK {
        Ok(())
    } else {
        Err(ConnectionError::BadConnection(message.to_owned()))
    }
}

/// Translates the outcome of running a statement. The engine signals
/// success by producing no error message; a message it did produce, already
/// copied out of native memory, becomes a database error of unknown kind.
pub fn exec_result(error_message: Option<String>) -> (r: QueryResult<()>)
    ensures
        r is Ok <==> error_message is None,
        error_message matches Some(m) ==> r == Err::<(), QueryError>(
            QueryError::DatabaseError(DatabaseErrorKind::Unknown, m),
        ),
{
    match error_message {
        None => Ok(()),
        Some(m) => Err(QueryError::DatabaseError(DatabaseErrorKind::Unknown, m)),
    }
}

/// What to do once the native close call has returned.
#[derive(Debug, Clone, Copy, PartialEq, Eq)]
pub enum CloseOutcome {
    /// The handle was released.
    Closed,
    /// The close failed while another failure was already propagating:
    /// report it as a diagnostic and go on.
    Diagnostic(i32),
    /// The close failed in normal operation: a fatal failure.
    Fatal(i32),
}

/// Decides how a close with status `status_code` is handled, given whether
/// the program is already unwinding from an earlier failure.
pub fn close_outcome(status_code: i32, unwinding: bool) -> (r: CloseOutcome)
    ensures
        status_code == SQLITE_OK ==> r == CloseOutcome::Closed,
        status_code != SQLITE_OK && unwinding ==> r == CloseOutcome::Diagnostic(status_code),
        status_code != SQLITE_OK && !unwinding ==> r == CloseOutcome::Fatal(status_code),
{
    if status_code == SQLITE_OK {
        CloseOutcome::Closed
    } else if unwinding {
        CloseOutcome::Diagnostic(status_code)
    } else {
        CloseOutcome::Fatal(status_code)
    }
}

} // verus!
