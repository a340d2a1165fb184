//! Return codes, type codes and handle levels of the native interface.

use vstd::prelude::*;

verus! {

/// Return code of a native call that completed without any diagnostic.
pub const SQL_SUCCESS: i32 = 0;

/// Return code of a native call that completed, with an informational
/// diagnostic record available.
pub const SQL_SUCCESS_WITH_INFO: i32 = 1;

/// Return code reporting that nothing is left: the end of a result set, or
/// the end of a row's columns.
pub const SQL_NO_DATA: i32 = 100;

/// Indicator value reporting that a fetched column holds a native NULL.
pub const SQL_NULL_DATA: i64 = -1;

/// Value-type code for a character buffer.
pub const SQL_C_CHAR: i16 = 1;

/// Value-type code for a fixed 4-byte signed integer.
pub const SQL_C_LONG: i16 = 4;

/// Parameter-type code for a variable-length character column.
pub const SQL_VARCHAR: i16 = 12;

/// Parameter-type code for an integer column.
pub const SQL_INTEGER: i16 = 4;

/// Value-type and parameter-type code for a calendar date.
pub const SQL_TYPE_DATE: i16 = 91;

/// Input-output type code for an input-only parameter.
pub const SQL_PARAM_INPUT: i16 = 1;

/// A native call succeeded exactly when it returned `SQL_SUCCESS` or
/// `SQL_SUCCESS_WITH_INFO`.
pub open spec fn spec_is_success(code: i32) -> bool {
    code == SQL_SUCCESS || code == SQL_SUCCESS_WITH_INFO
}

/// Classifies a native return code: success or not.
pub fn is_success(code: i32) -> (r: bool)
    ensures
        r == spec_is_success(code),
{
    code == SQL_SUCCESS || code == SQL_SUCCESS_WITH_INFO
}

/// The three levels of the native handle hierarchy.  A statement handle is
/// allocated under a connection handle, a connection handle under an
/// environment handle.
#[derive(Clone, Copy, Debug, PartialEq, Eq, Structural)]
pub enum HandleLevel {
    Environment,
    Connection,
    Statement,
}

impl HandleLevel {
    /// The numeric handle-type code that the native allocation, free and
    /// diagnostic calls take for this level.
    pub open spec fn spec_code(self) -> i16 {
        match self {
            HandleLevel::Environment => 1,
            HandleLevel::Connection => 2,
            HandleLevel::Statement => 3,
        }
    }

    /// Returns the numeric handle-type code of this level.
    pub fn code(self) -> (r: i16)
        ensures
            r == self.spec_code(),
    {
        match self {
            HandleLevel::Environment => 1,
            HandleLevel::Connection => 2,
            HandleLevel::Statement => 3,
        }
    }

    /// The level that owns this level's parent handle, if any: a statement
    /// lives under a connection, a connection under an environment.
    pub open spec fn spec_parent(self) -> Option<HandleLevel> {
        match self {
            HandleLevel::Environment => None,
            HandleLevel::Connection => Some(HandleLevel::Environment),
            HandleLevel::Statement => Some(HandleLevel::Connection),
        }
    }
}

} // verus!
