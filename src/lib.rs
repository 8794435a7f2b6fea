//! Verified core of a single-handle connection layer over an embedded SQL
//! engine: connection-string parsing, C-string encoding, the establishment
//! protocol, status translation, close handling and result-table rendering.
//! The native calls themselves are made by the surrounding program, which
//! follows the decisions taken here.
pub mod error;
pub mod cstring;
pub mod table;
pub mod target;
pub mod status;
pub mod establish;

use vstd::prelude::*;

verus! {

/// The engine's single success status.
pub const SQLITE_OK: i32 = 0;

} // verus!
