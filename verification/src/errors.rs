//! The error taxonomy of the layer.
//!
//! Every native call's return code is checked at the call site; a non-success
//! code becomes one of these typed errors, carrying either the failing code
//! or a descriptive diagnostic string.

use vstd::prelude::*;
use crate::render::render_i64;
use crate::render::spec_idigits;

verus! {

/// A typed error of the client layer.  String-carrying variants hold a
/// descriptive diagnostic; code-carrying variants hold the native return
/// code of the failing call.
#[derive(Debug, Clone)]
pub enum InformixError {
    /// A native allocate call returned a non-zero code.
    HandleAllocationError(i32),
    /// A malformed connection string, a connect on an already-connected
    /// instance, or a failing native connect call.
    ConnectionError(String),
    /// A failing native execute call.
    SQLExecutionError(String),
    /// Malformed SQL text or a failing native prepare call.
    PrepareStatementError(String),
    /// A failing native bind call, or a value that cannot be marshalled.
    ParameterBindingError(String),
    /// A failing native free-handle call.
    HandleFreeError(i32),
    /// A failing native disconnect call.
    DisconnectError(i32),
    /// A failing native fetch call.
    FetchError(String),
    /// A failing native get-data call.
    GetDataError(String),
    /// A failing fetch or get-data call outside the end-of-columns case.
    DataFetchError(String),
    /// A failing native describe-column or column-count call.
    DescribeColumnsError(String),
    /// Text that cannot cross the native boundary: an embedded NUL byte.
    NulError(String),
}

/// The descriptive text of an error: its kind's fixed prefix, then the
/// carried diagnostic string or native code.
pub open spec fn spec_error_message(e: InformixError) -> Seq<char> {
    match e {
        InformixError::HandleAllocationError(code) => "Failed to allocate handle: "@
            + spec_idigits(code as int),
        InformixError::ConnectionError(msg) => "Failed to connect: "@ + msg@,
        InformixError::SQLExecutionError(msg) => "SQL execution failed: "@ + msg@,
        InformixError::PrepareStatementError(msg) => "Failed to prepare statement: "@ + msg@,
        InformixError::ParameterBindingError(msg) => "Failed to bind parameter: "@ + msg@,
        InformixError::HandleFreeError(code) => "Handle free error: "@ + spec_idigits(code as int),
        InformixError::DisconnectError(code) => "Disconnect error: "@ + spec_idigits(code as int),
        InformixError::FetchError(msg) => "Fetch error: "@ + msg@,
        InformixError::GetDataError(msg) => "Get data error: "@ + msg@,
        InformixError::DataFetchError(msg) => "Failed to fetch data: "@ + msg@,
        InformixError::DescribeColumnsError(msg) => "Failed to describe columns: "@ + msg@,
        InformixError::NulError(msg) => "Null error: "@ + msg@,
    }
}

impl InformixError {
    /// Returns the descriptive text of this error.
    pub fn message(&self) -> (r: String)
        ensures
            r@ == spec_error_message(*self),
    {
        match self {
            InformixError::HandleAllocationError(code) => {
                let mut s = String::from_str("Failed to allocate handle: ");
                let d = render_i64(*code as i64);
                s.append(d.as_str());
                s
            },
            InformixError::ConnectionError(msg) => {
                let mut s = String::from_str("Failed to connect: ");
                s.append(msg.as_str());
                s
            },
            InformixError::SQLExecutionError(msg) => {
                let mut s = String::from_str("SQL execution failed: ");
                s.append(msg.as_str());
                s
            },
            InformixError::PrepareStatementError(msg) => {
                let mut s = String::from_str("Failed to prepare statement: ");
                s.append(msg.as_str());
                s
            },
            InformixError::ParameterBindingError(msg) => {
                let mut s = String::from_str("Failed to bind parameter: ");
                s.append(msg.as_str());
                s
            },
            InformixError::HandleFreeError(code) => {
                let mut s = String::from_str("Handle free error: ");
                let d = render_i64(*code as i64);
                s.append(d.as_str());
                s
            },
            InformixError::DisconnectError(code) => {
                let mut s = String::from_str("Disconnect error: ");
                let d = render_i64(*code as i64);
                s.append(d.as_str());
                s
            },
            InformixError::FetchError(msg) => {
                let mut s = String::from_str("Fetch error: ");
                s.append(msg.as_str());
                s
            },
            InformixError::GetDataError(msg) => {
                let mut s = String::from_str("Get data error: ");
                s.append(msg.as_str());
                s
            },
            InformixError::DataFetchError(msg) => {
                let mut s = String::from_str("Failed to fetch data: ");
                s.append(msg.as_str());
                s
            },
            InformixError::DescribeColumnsError(msg) => {
                let mut s = String::from_str("Failed to describe columns: ");
                s.append(msg.as_str());
                s
            },
            InformixError::NulError(msg) => {
                let mut s = String::from_str("Null error: ");
                s.append(msg.as_str());
                s
            },
        }
    }
}

} // verus!
