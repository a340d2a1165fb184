//! The parameter binder: maps typed values onto the native binding protocol.
//!
//! A parameter is bound to a statement by a 1-based ordinal.  Each value
//! kind maps to one native value-type/parameter-type pair and one buffer
//! layout; marshalling computes those plain values, and the unverified
//! shell passes them to the native bind call verbatim.

use vstd::prelude::*;
use vstd::utf8::encode_utf8;
use vstd::utf8::is_ascii_chars;
use vstd::utf8::is_ascii_chars_encode_utf8;
use crate::codes::spec_is_success;
use crate::codes::SQL_C_CHAR;
use crate::codes::SQL_C_LONG;
use crate::codes::SQL_INTEGER;
use crate::codes::SQL_PARAM_INPUT;
use crate::codes::SQL_TYPE_DATE;
use crate::codes::SQL_VARCHAR;
use crate::date::spec_iso_date;
use crate::date::SqlDate;
use crate::errors::InformixError;
use crate::render::lemma_nul_len;
use crate::render::render_i64;
use crate::render::spec_decoded;
use crate::render::spec_idigits;

verus! {

/// A typed value bindable to a statement: integer, text or calendar date.
#[derive(Debug, Clone)]
pub enum SqlParam {
    Integer(i32),
    Str(String),
    Date(SqlDate),
}

/// The bytes a text value hands to the native boundary.
pub open spec fn spec_text_bytes(s: Seq<char>) -> Seq<u8> {
    encode_utf8(s)
}

/// Whether a byte sequence holds a NUL byte, which cannot cross the native
/// boundary inside a C string.
pub open spec fn spec_has_nul(bytes: Seq<u8>) -> bool {
    exists|i: int| 0 <= i < bytes.len() && bytes[i] == 0
}

/// Whether a value can be marshalled at all: text must be free of NUL bytes.
pub open spec fn spec_marshallable(p: SqlParam) -> bool {
    match p {
        SqlParam::Str(s) => !spec_has_nul(spec_text_bytes(s@)),
        _ => true,
    }
}

/// What a bind call carries besides the statement handle and the ordinal.
#[derive(Debug, Clone)]
pub enum BindPayload {
    /// A fixed 4-byte signed value.
    IntValue(i32),
    /// A variable-length text buffer, without a terminating NUL.
    TextValue(Vec<u8>),
    /// The fixed three-field date record: year, 2-byte month, 2-byte day.
    DateValue(SqlDate),
}

/// One fully marshalled native bind call: every plain argument of the call,
/// ready to be passed to the driver verbatim.
#[derive(Debug, Clone)]
pub struct BindRequest {
    /// 1-based position of the placeholder this value binds to.
    pub ordinal: u16,
    /// Input-output type code; always an input parameter here.
    pub input_output_type: i16,
    /// The native value-type code of the buffer handed over.
    pub value_type: i16,
    /// The native parameter-type code of the column bound to.
    pub parameter_type: i16,
    /// The declared column size.
    pub column_size: u64,
    /// The declared decimal digits.
    pub decimal_digits: i16,
    /// The byte length of the buffer handed over.
    pub buffer_length: i64,
    /// The indicator length, or `None` for a null indicator pointer.
    pub indicator: Option<i64>,
    /// The value itself.
    pub payload: BindPayload,
}

/// Extracts the bytes a text hands to the native boundary, where a C
/// string cannot hold a NUL byte: `None` exactly when one occurs.
pub fn text_payload(s: &str) -> (r: Option<Vec<u8>>)
    ensures
        r matches Some(b) ==> b@ == spec_text_bytes(s@) && !spec_has_nul(b@),
        r is None <==> spec_has_nul(spec_text_bytes(s@)),
{
    let bytes = s.as_bytes_vec();
    let n = bytes.len();
    let mut i: usize = 0;
    while i < n
        invariant
            i <= n,
            n == bytes@.len(),
            bytes@ == spec_text_bytes(s@),
            forall|j: int| 0 <= j < i ==> bytes@[j] != 0,
        decreases n - i,
    {
        if bytes[i] == 0 {
            proof {
                assert(spec_has_nul(bytes@)) by {
                    assert(0 <= i < bytes@.len() && bytes@[i as int] == 0);
                }
            }
            return None;
        }
        i = i + 1;
    }
    Some(bytes)
}

/// The one bind call a value marshals to, field by field.
///
/// An integer is a fixed 4-byte signed value with no indicator buffer.
/// Text passes its literal byte length as column size, buffer length and
/// indicator.  A date passes the fixed three-field record, whose size is
/// six bytes, under the calendar-date type code, with the ten-character
/// rendered size as column size.
pub open spec fn spec_marshalled(p: SqlParam, ordinal: u16, req: BindRequest) -> bool {
    &&& req.ordinal == ordinal
    &&& req.input_output_type == SQL_PARAM_INPUT
    &&& req.decimal_digits == 0
    &&& match p {
        SqlParam::Integer(v) => {
            &&& req.value_type == SQL_C_LONG
            &&& req.parameter_type == SQL_INTEGER
            &&& req.column_size == 0
            &&& req.buffer_length == 0
            &&& req.indicator is None
            &&& req.payload matches BindPayload::IntValue(w) && w == v
        },
        SqlParam::Str(s) => {
            &&& req.value_type == SQL_C_CHAR
            &&& req.parameter_type == SQL_VARCHAR
            &&& req.column_size == spec_text_bytes(s@).len()
            &&& req.buffer_length == spec_text_bytes(s@).len()
            &&& req.indicator == Some(spec_text_bytes(s@).len() as i64)
            &&& req.payload matches BindPayload::TextValue(b) && b@ == spec_text_bytes(s@)
        },
        SqlParam::Date(d) => {
            &&& req.value_type == SQL_TYPE_DATE
            &&& req.parameter_type == SQL_TYPE_DATE
            &&& req.column_size == 10
            &&& req.buffer_length == 6
            &&& req.indicator is None
            &&& req.payload matches BindPayload::DateValue(e) && e == d
        },
    }
}

/// Marshals one value for one placeholder: computes every plain argument of
/// the native bind call.  Fails exactly on text holding a NUL byte, which
/// cannot cross the native boundary.
pub fn marshal_param(param: &SqlParam, ordinal: u16) -> (r: Result<BindRequest, InformixError>)
    requires
        (param matches SqlParam::Str(s) ==> spec_text_bytes(s@).len() <= i64::MAX),
    ensures
        match r {
            Ok(req) => spec_marshallable(*param) && spec_marshalled(*param, ordinal, req),
            Err(e) => {
                &&& !spec_marshallable(*param)
                &&& e matches InformixError::ParameterBindingError(m)
                    && m@ == "Failed to create CString: text holds a NUL byte"@
            },
        },
{
    match param {
        SqlParam::Integer(v) => Ok(
            BindRequest {
                ordinal,
                input_output_type: SQL_PARAM_INPUT,
                value_type: SQL_C_LONG,
                parameter_type: SQL_INTEGER,
                column_size: 0,
                decimal_digits: 0,
                buffer_length: 0,
                indicator: None,
                payload: BindPayload::IntValue(*v),
            },
        ),
        SqlParam::Str(s) => {
            match text_payload(s.as_str()) {
                None => Err(
                    InformixError::ParameterBindingError(
                        String::from_str("Failed to create CString: text holds a NUL byte"),
                    ),
                ),
                Some(bytes) => {
                    let n = bytes.len();
                    Ok(
                        BindRequest {
                            ordinal,
                            input_output_type: SQL_PARAM_INPUT,
                            value_type: SQL_C_CHAR,
                            parameter_type: SQL_VARCHAR,
                            column_size: n as u64,
                            decimal_digits: 0,
                            buffer_length: n as i64,
                            indicator: Some(n as i64),
                            payload: BindPayload::TextValue(bytes),
                        },
                    )
                },
            }
        },
        SqlParam::Date(d) => Ok(
            BindRequest {
                ordinal,
                input_output_type: SQL_PARAM_INPUT,
                value_type: SQL_TYPE_DATE,
                parameter_type: SQL_TYPE_DATE,
                column_size: 10,
                decimal_digits: 0,
                buffer_length: 6,
                indicator: None,
                payload: BindPayload::DateValue(*d),
            },
        ),
    }
}

/// The message a failing native bind call is reported with, naming the
/// value kind and the failing return code.
pub open spec fn spec_bind_error_text(p: SqlParam, code: int) -> Seq<char> {
    match p {
        SqlParam::Integer(_) => "Failed to bind i32 parameter: "@ + spec_idigits(code),
        SqlParam::Str(_) => "Failed to bind string parameter: "@ + spec_idigits(code),
        SqlParam::Date(_) => "Failed to bind date parameter: SQLBindParameter returned "@
            + spec_idigits(code),
    }
}

/// Classifies the native bind call's return code: `Ok` exactly on success,
/// otherwise the binding error naming the value kind and the code.
pub fn bind_outcome(param: &SqlParam, code: i32) -> (r: Result<(), InformixError>)
    ensures
        r is Ok <==> spec_is_success(code),
        r matches Err(e) ==> e matches InformixError::ParameterBindingError(m) && m@
            == spec_bind_error_text(*param, code as int),
{
    if code == 0 || code == 1 {
        Ok(())
    } else {
        let digits = render_i64(code as i64);
        let mut m = match param {
            SqlParam::Integer(_) => String::from_str("Failed to bind i32 parameter: "),
            SqlParam::Str(_) => String::from_str("Failed to bind string parameter: "),
            SqlParam::Date(_) => String::from_str(
                "Failed to bind date parameter: SQLBindParameter returned ",
            ),
        };
        m.append(digits.as_str());
        Err(InformixError::ParameterBindingError(m))
    }
}

/// The canonical text of a value: the decimal rendering of an integer, the
/// text itself, the fixed year-month-day rendering of a date.
pub open spec fn spec_canonical(p: SqlParam) -> Seq<char> {
    match p {
        SqlParam::Integer(v) => spec_idigits(v as int),
        SqlParam::Str(s) => s@,
        SqlParam::Date(d) => spec_iso_date(d.year as nat, d.month as nat, d.day as nat),
    }
}

impl SqlParam {
    /// A well-formed parameter: a carried date is a valid calendar date.
    pub open spec fn wf(self) -> bool {
        match self {
            SqlParam::Date(d) => d.wf(),
            _ => true,
        }
    }

    /// Renders the canonical text of this value.
    pub fn canonical_text(&self) -> (r: String)
        requires
            self.wf(),
        ensures
            r@ == spec_canonical(*self),
    {
        match self {
            SqlParam::Integer(v) => render_i64(*v as i64),
            SqlParam::Str(s) => s.clone(),
            SqlParam::Date(d) => d.render_iso(),
        }
    }
}

/// The canonical text a marshalled payload still determines: what a perfect
/// echo of the bound value would come back as.
pub open spec fn spec_payload_canonical(pl: BindPayload) -> Seq<char> {
    match pl {
        BindPayload::IntValue(v) => spec_idigits(v as int),
        BindPayload::TextValue(b) => spec_decoded(b@),
        BindPayload::DateValue(d) => spec_iso_date(d.year as nat, d.month as nat, d.day as nat),
    }
}

/// Marshalling loses no information: the canonical text readable back out
/// of a marshalled bind request equals the canonical text of the value that
/// was bound.  For text this holds of values whose characters each fit one
/// byte at the native boundary.
pub proof fn lemma_marshal_preserves_value(p: SqlParam, ordinal: u16, req: BindRequest)
    requires
        spec_marshallable(p),
        spec_marshalled(p, ordinal, req),
        p matches SqlParam::Str(s) ==> is_ascii_chars(s@),
    ensures
        spec_payload_canonical(req.payload) == spec_canonical(p),
{
    match p {
        SqlParam::Integer(_) => {},
        SqlParam::Str(s) => {
            let bytes = spec_text_bytes(s@);
            is_ascii_chars_encode_utf8(s@);
            assert(forall|j: int| 0 <= j < bytes.len() ==> bytes[j] != 0);
            lemma_nul_len(bytes, bytes.len() as int);
            let pl = req.payload;
            if let BindPayload::TextValue(b) = pl {
                assert(spec_decoded(b@) =~= s@);
            }
        },
        SqlParam::Date(_) => {},
    }
}

/// The binds the native driver has observed after a sequence of bind calls:
/// for each ordinal, the last bind call made for it before execution.
pub open spec fn spec_applied_binds(reqs: Seq<BindRequest>) -> Map<u16, BindRequest>
    decreases reqs.len(),
{
    if reqs.len() == 0 {
        Map::empty()
    } else {
        spec_applied_binds(reqs.drop_last()).insert(reqs.last().ordinal, reqs.last())
    }
}

/// Binding two different values to the same ordinal before execution leaves
/// the native driver observing only the later bind: the layer passes every
/// bind through, and the driver's own bind semantics replace the earlier
/// value.
pub proof fn lemma_last_bind_wins(reqs: Seq<BindRequest>, earlier: BindRequest, later: BindRequest)
    requires
        earlier.ordinal == later.ordinal,
    ensures
        spec_applied_binds(reqs.push(earlier).push(later)) == spec_applied_binds(reqs.push(later)),
{
    let with_earlier = reqs.push(earlier);
    let with_both = with_earlier.push(later);
    let with_later = reqs.push(later);
    assert(with_both.drop_last() =~= with_earlier);
    assert(with_both.drop_last() == with_earlier);
    assert(with_both.last() == later);
    assert(with_earlier.drop_last() =~= reqs);
    assert(with_earlier.drop_last() == reqs);
    assert(with_earlier.last() == earlier);
    assert(with_later.drop_last() =~= reqs);
    assert(with_later.drop_last() == reqs);
    assert(with_later.last() == later);
    assert(spec_applied_binds(with_both) == spec_applied_binds(with_earlier).insert(
        later.ordinal,
        later,
    ));
    assert(spec_applied_binds(with_earlier) == spec_applied_binds(reqs).insert(
        earlier.ordinal,
        earlier,
    ));
    assert(spec_applied_binds(with_later) == spec_applied_binds(reqs).insert(
        later.ordinal,
        later,
    ));
    assert(spec_applied_binds(reqs).insert(earlier.ordinal, earlier).insert(later.ordinal, later)
        =~= spec_applied_binds(reqs).insert(later.ordinal, later));
}

} // verus!
