//! Connections and statements: the decision logic around each native call.
//!
//! Every native call is blocking and is performed by the unverified shell.
//! Each operation here is split in two: a `begin_` function checks what can
//! be checked before the call and prepares its plain arguments, and a
//! `finish_` (or `_outcome`) function classifies the call's return code and
//! produces the typed result.  The shell owns the raw handles; the types
//! here carry their opaque values and the connected flag.

use vstd::prelude::*;
use crate::codes::spec_is_success;
use crate::errors::InformixError;
use crate::handles::SendPtr;
use crate::params::spec_has_nul;
use crate::params::spec_text_bytes;
use crate::params::text_payload;
use crate::render::render_i64;
use crate::render::spec_idigits;

verus! {

/// A connection to the database: the opaque native connection handle and
/// the connected flag.  Created by two-step allocation (environment handle,
/// then connection handle under it).
pub struct Connection {
    pub handle: SendPtr,
    pub connected: bool,
}

impl Connection {
    /// Classifies the environment-handle allocation's return code: the
    /// allocation error on any non-zero code.
    pub fn check_env_alloc(code: i32) -> (r: Result<(), InformixError>)
        ensures
            r is Ok <==> code == 0,
            r matches Err(e) ==> e == InformixError::HandleAllocationError(code),
    {
        if code == 0 {
            Ok(())
        } else {
            Err(InformixError::HandleAllocationError(code))
        }
    }

    /// Builds the connection from the connection-handle allocation's
    /// outcome: the handle on success, the allocation error otherwise.  A
    /// fresh connection is not yet connected.
    pub fn from_conn_alloc(code: i32, handle: SendPtr) -> (r: Result<Connection, InformixError>)
        ensures
            r is Ok <==> code == 0,
            r matches Ok(c) ==> c.handle == handle && !c.connected,
            r matches Err(e) ==> e == InformixError::HandleAllocationError(code),
    {
        if code == 0 {
            Ok(Connection { handle, connected: false })
        } else {
            Err(InformixError::HandleAllocationError(code))
        }
    }

    /// Whether a connect already succeeded on this connection.
    pub fn is_connected(&self) -> (r: bool)
        ensures
            r == self.connected,
    {
        self.connected
    }

    /// Checks a driver-connect request and extracts the connection string's
    /// bytes for the native call.  Rejects a connection on an
    /// already-connected instance, and a connection string that cannot
    /// cross the native boundary.
    pub fn begin_connect_with_string(&self, conn_string: &str) -> (r: Result<
        Vec<u8>,
        InformixError,
    >)
        ensures
            r is Ok <==> (!self.connected && !spec_has_nul(spec_text_bytes(conn_string@))),
            r matches Ok(b) ==> b@ == spec_text_bytes(conn_string@),
            self.connected ==> (r matches Err(e) && e matches InformixError::ConnectionError(m)
                && m@ == "Already connected"@),
            !self.connected && spec_has_nul(spec_text_bytes(conn_string@)) ==> (r matches Err(e)
                && e matches InformixError::ConnectionError(m) && m@
                == "Invalid connection string: text holds a NUL byte"@),
    {
        if self.connected {
            return Err(InformixError::ConnectionError(String::from_str("Already connected")));
        }
        match text_payload(conn_string) {
            Some(bytes) => Ok(bytes),
            None => Err(
                InformixError::ConnectionError(
                    String::from_str("Invalid connection string: text holds a NUL byte"),
                ),
            ),
        }
    }

    /// Applies the driver-connect call's outcome: flips the connected flag
    /// exactly on a success code, and otherwise reports the connection
    /// error carrying the code and the diagnostic string.
    pub fn finish_connect(&mut self, code: i32, diag: &str) -> (r: Result<(), InformixError>)
        requires
            !old(self).connected,
        ensures
            final(self).handle == old(self).handle,
            r is Ok <==> spec_is_success(code),
            spec_is_success(code) ==> final(self).connected,
            !spec_is_success(code) ==> !final(self).connected,
            r matches Err(e) ==> e matches InformixError::ConnectionError(m) && m@
                == "Failed to connect: result = "@ + spec_idigits(code as int) + ", "@ + diag@,
    {
        if code == 0 || code == 1 {
            self.connected = true;
            Ok(())
        } else {
            let mut m = String::from_str("Failed to connect: result = ");
            let digits = render_i64(code as i64);
            m.append(digits.as_str());
            m.append(", ");
            m.append(diag);
            Err(InformixError::ConnectionError(m))
        }
    }

    /// Checks a three-field connect request (server, user, password) and
    /// extracts each field's bytes for the native call.  Rejects a connect
    /// on an already-connected instance, and any field that cannot cross
    /// the native boundary.
    pub fn begin_connect(&self, server: &str, user: &str, password: &str) -> (r: Result<
        (Vec<u8>, Vec<u8>, Vec<u8>),
        InformixError,
    >)
        ensures
            r is Ok <==> (!self.connected && !spec_has_nul(spec_text_bytes(server@))
                && !spec_has_nul(spec_text_bytes(user@)) && !spec_has_nul(
                spec_text_bytes(password@),
            )),
            r matches Ok(b) ==> b.0@ == spec_text_bytes(server@) && b.1@ == spec_text_bytes(user@)
                && b.2@ == spec_text_bytes(password@),
            r matches Err(e) ==> e matches InformixError::ConnectionError(_),
    {
        if self.connected {
            return Err(InformixError::ConnectionError(String::from_str("Already connected")));
        }
        let server_bytes = match text_payload(server) {
            Some(b) => b,
            None => {
                return Err(
                    InformixError::ConnectionError(
                        String::from_str("Invalid server name: text holds a NUL byte"),
                    ),
                );
            },
        };
        let user_bytes = match text_payload(user) {
            Some(b) => b,
            None => {
                return Err(
                    InformixError::ConnectionError(
                        String::from_str("Invalid user name: text holds a NUL byte"),
                    ),
                );
            },
        };
        let password_bytes = match text_payload(password) {
            Some(b) => b,
            None => {
                return Err(
                    InformixError::ConnectionError(
                        String::from_str("Invalid password: text holds a NUL byte"),
                    ),
                );
            },
        };
        Ok((server_bytes, user_bytes, password_bytes))
    }

    /// Applies the three-field connect call's outcome: the driver reports
    /// plain success by zero alone here; any other code carries the
    /// diagnostic string out as a connection error.
    pub fn finish_simple_connect(&mut self, code: i32, diag: String) -> (r: Result<
        (),
        InformixError,
    >)
        requires
            !old(self).connected,
        ensures
            final(self).handle == old(self).handle,
            r is Ok <==> code == 0,
            code == 0 ==> final(self).connected,
            code != 0 ==> !final(self).connected,
            r matches Err(e) ==> e matches InformixError::ConnectionError(m) && m@ == diag@,
    {
        if code == 0 {
            self.connected = true;
            Ok(())
        } else {
            Err(InformixError::ConnectionError(diag))
        }
    }

    /// Checks SQL text before a prepare: extracts its bytes for the native
    /// call, rejecting text that cannot cross the native boundary.  Runs
    /// before the statement handle is allocated, so a rejection leaks no
    /// half-built handle.
    pub fn begin_prepare(&self, sql: &str) -> (r: Result<Vec<u8>, InformixError>)
        ensures
            r is Ok <==> !spec_has_nul(spec_text_bytes(sql@)),
            r matches Ok(b) ==> b@ == spec_text_bytes(sql@),
            r matches Err(e) ==> e matches InformixError::PrepareStatementError(m) && m@
                == "Invalid SQL string: text holds a NUL byte"@,
    {
        match text_payload(sql) {
            Some(bytes) => Ok(bytes),
            None => Err(
                InformixError::PrepareStatementError(
                    String::from_str("Invalid SQL string: text holds a NUL byte"),
                ),
            ),
        }
    }

    /// Classifies the statement-handle allocation's return code.
    pub fn check_stmt_alloc(code: i32) -> (r: Result<(), InformixError>)
        ensures
            r is Ok <==> code == 0,
            r matches Err(e) ==> e == InformixError::HandleAllocationError(code),
    {
        if code == 0 {
            Ok(())
        } else {
            Err(InformixError::HandleAllocationError(code))
        }
    }

    /// Builds the statement from the native prepare call's outcome.  On a
    /// non-zero code the half-built statement handle must be freed by its
    /// owner before the error is surfaced; the error carries the code.
    pub fn finish_prepare(code: i32, handle: SendPtr, sql: &str) -> (r: Result<
        Statement,
        InformixError,
    >)
        ensures
            r is Ok <==> code == 0,
            r matches Ok(s) ==> s.handle == handle && s.query@ == sql@,
            r matches Err(e) ==> e matches InformixError::PrepareStatementError(m) && m@
                == "Failed to prepare SQL: "@ + spec_idigits(code as int),
    {
        if code == 0 {
            Ok(Statement::new(handle, sql))
        } else {
            let mut m = String::from_str("Failed to prepare SQL: ");
            let digits = render_i64(code as i64);
            m.append(digits.as_str());
            Err(InformixError::PrepareStatementError(m))
        }
    }

    /// Checks SQL text before a direct execute, as `begin_prepare` does for
    /// a prepare; a rejection is an execution error here.
    pub fn begin_execute_direct(&self, sql: &str) -> (r: Result<Vec<u8>, InformixError>)
        ensures
            r is Ok <==> !spec_has_nul(spec_text_bytes(sql@)),
            r matches Ok(b) ==> b@ == spec_text_bytes(sql@),
            r matches Err(e) ==> e matches InformixError::SQLExecutionError(m) && m@
                == "Invalid SQL string: text holds a NUL byte"@,
    {
        match text_payload(sql) {
            Some(bytes) => Ok(bytes),
            None => Err(
                InformixError::SQLExecutionError(
                    String::from_str("Invalid SQL string: text holds a NUL byte"),
                ),
            ),
        }
    }

    /// Builds the statement from the native direct-execute call's outcome.
    /// On a non-zero code the half-built statement handle must be freed by
    /// its owner before the error is surfaced.
    pub fn finish_execute_direct(code: i32, handle: SendPtr, sql: &str) -> (r: Result<
        Statement,
        InformixError,
    >)
        ensures
            r is Ok <==> code == 0,
            r matches Ok(s) ==> s.handle == handle && s.query@ == sql@,
            r matches Err(e) ==> e matches InformixError::SQLExecutionError(m) && m@
                == "Failed to execute SQL: "@ + spec_idigits(code as int),
    {
        if code == 0 {
            Ok(Statement::new(handle, sql))
        } else {
            let mut m = String::from_str("Failed to execute SQL: ");
            let digits = render_i64(code as i64);
            m.append(digits.as_str());
            Err(InformixError::SQLExecutionError(m))
        }
    }
}

/// A prepared or directly executed statement: the opaque native statement
/// handle and the originating SQL text.
pub struct Statement {
    pub handle: SendPtr,
    pub query: String,
}

impl Statement {
    /// Wraps a statement handle with its SQL text.
    pub fn new(handle: SendPtr, query: &str) -> (r: Statement)
        ensures
            r.handle == handle,
            r.query@ == query@,
    {
        Statement { handle, query: query.to_owned() }
    }

    /// Classifies the native execute call's return code: `Ok` exactly on a
    /// success code, otherwise the execution error carrying the diagnostic
    /// string.
    pub fn execute_outcome(&self, code: i32, diag: String) -> (r: Result<(), InformixError>)
        ensures
            r is Ok <==> spec_is_success(code),
            r matches Err(e) ==> e matches InformixError::SQLExecutionError(m) && m@ == diag@,
    {
        if code == 0 || code == 1 {
            Ok(())
        } else {
            Err(InformixError::SQLExecutionError(diag))
        }
    }

    /// Wraps a failing fetch call's diagnostic string as the fetch error.
    pub fn fetch_failure(diag: String) -> (r: InformixError)
        ensures
            r matches InformixError::DataFetchError(m) && m@ == diag@,
    {
        InformixError::DataFetchError(diag)
    }
}

} // verus!
