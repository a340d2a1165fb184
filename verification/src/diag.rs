//! The diagnostic translator: turns one native diagnostic record into a
//! human-readable string.
//!
//! After a failing native call, the driver's diagnostic-record query (record
//! index 1, on the failing call's own handle) fills a state-code buffer, a
//! native error number and a message-text buffer.  The unverified shell
//! performs that query and hands the raw outcome here.

use vstd::prelude::*;
use crate::codes::spec_is_success;
use crate::render::decode_buffer;
use crate::render::render_i64;
use crate::render::spec_decoded;
use crate::render::spec_idigits;

verus! {

/// The diagnostic string built from one retrieved diagnostic record.
pub open spec fn spec_record_text(state: Seq<char>, native_error: int, message: Seq<char>) -> Seq<
    char,
> {
    "SQLSTATE = "@ + state + ", Native Error = "@ + spec_idigits(native_error) + ", Message = "@
        + message
}

/// The fallback string used when the diagnostic query itself failed, naming
/// the failing return code.
pub open spec fn spec_fallback_text(diag_code: int) -> Seq<char> {
    "diagnostic record unavailable, return code = "@ + spec_idigits(diag_code)
}

/// The text produced for a diagnostic query's outcome: the record's three
/// fields when the query succeeded, the fallback otherwise.
pub open spec fn spec_diagnostic_text(
    diag_code: i32,
    state_buf: Seq<u8>,
    native_error: int,
    message_buf: Seq<u8>,
) -> Seq<char> {
    if spec_is_success(diag_code) {
        spec_record_text(spec_decoded(state_buf), native_error, spec_decoded(message_buf))
    } else {
        spec_fallback_text(diag_code as int)
    }
}

/// Builds the diagnostic string for one diagnostic-record query.
///
/// `diag_code` is the return code of the diagnostic query itself;
/// `state_buf` and `message_buf` are the NUL-terminated buffers it filled,
/// and `native_error` the error number it reported.
pub fn diagnostic_text(
    diag_code: i32,
    state_buf: &Vec<u8>,
    native_error: i32,
    message_buf: &Vec<u8>,
) -> (r: String)
    ensures
        r@ == spec_diagnostic_text(diag_code, state_buf@, native_error as int, message_buf@),
{
    if diag_code == 0 || diag_code == 1 {
        let mut s = String::from_str("SQLSTATE = ");
        let state = decode_buffer(state_buf);
        s.append(state.as_str());
        s.append(", Native Error = ");
        let num = render_i64(native_error as i64);
        s.append(num.as_str());
        s.append(", Message = ");
        let message = decode_buffer(message_buf);
        s.append(message.as_str());
        s
    } else {
        let mut s = String::from_str("diagnostic record unavailable, return code = ");
        let num = render_i64(diag_code as i64);
        s.append(num.as_str());
        s
    }
}

} // verus!
