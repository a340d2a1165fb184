//! The result-fetch protocol: one fetch call starts a row, then a
//! character-typed get-data call retrieves each column by ordinal until the
//! driver reports the end of the columns.
//!
//! The native interface does not report a column count on every call path,
//! so the column loop walks ordinals upward to a generous fixed cap and
//! stops when a get-data call returns the no-data code, or when a failing
//! call's diagnostic text matches the driver's invalid-descriptor-index
//! class, which this layer reads as "ran past the last column".

use vstd::prelude::*;
use crate::codes::spec_is_success;
use crate::codes::SQL_NO_DATA;
use crate::codes::SQL_NULL_DATA;
use crate::errors::InformixError;
use crate::render::decode_buffer;
use crate::render::render_u64;
use crate::render::spec_contains;
use crate::render::spec_decoded;
use crate::render::spec_udigits;
use crate::render::str_contains;

verus! {

/// The column loop's upper bound on ordinals, standing in for "until the
/// driver says there are no more columns".
pub const FETCH_COLUMN_CAP: u16 = 1000;

/// The byte size of the buffer each character-typed get-data call fills.
pub const GET_DATA_BUFFER_LEN: usize = 2048;

/// The fixed token standing for a native NULL value in a fetched row.
pub open spec fn spec_null_token() -> Seq<char> {
    "NULL"@
}

/// The marker that identifies the driver's invalid-descriptor-index
/// diagnostic class: its native error number.
pub open spec fn spec_end_of_columns_mark() -> Seq<char> {
    "-11103"@
}

/// What a fetch call's return code starts: a row to be read column by
/// column, the end of the result set, or a failure.
#[derive(Clone, Copy, Debug, PartialEq, Eq, Structural)]
pub enum FetchStart {
    /// A row is available; its columns can now be retrieved.
    Row,
    /// The terminal no-data code: the result set is exhausted.  Not an
    /// error; repeated fetch calls keep answering this.
    End,
    /// Any other non-success code: a genuine fetch failure.
    Failed,
}

/// Classifies the return code of a native fetch call.
pub fn classify_fetch(code: i32) -> (r: FetchStart)
    ensures
        code == SQL_NO_DATA ==> r == FetchStart::Row || r == FetchStart::End,
        r == FetchStart::End <==> code == SQL_NO_DATA,
        r == FetchStart::Row <==> spec_is_success(code),
        r == FetchStart::Failed <==> (!spec_is_success(code) && code != SQL_NO_DATA),
{
    if code == SQL_NO_DATA {
        FetchStart::End
    } else if code == 0 || code == 1 {
        FetchStart::Row
    } else {
        FetchStart::Failed
    }
}

/// What one get-data outcome asks of the column loop.
#[derive(Clone, Copy, Debug, PartialEq, Eq, Structural)]
pub enum ColumnStep {
    /// The column was read; move to the next ordinal.
    Continue,
    /// The no-data code: all columns of this row are consumed.
    Finished,
    /// A non-success code: the diagnostic text must decide between the
    /// end-of-columns case and a genuine error.
    Diagnose,
}

/// Assembles one row from the outcome of each per-ordinal get-data call.
pub struct RowAssembler {
    /// The column values read so far, in ordinal order.
    pub columns: Vec<String>,
    /// The 1-based ordinal the next get-data call should ask for.
    pub next_ordinal: u16,
    /// Whether the end of the columns was reached.
    pub complete: bool,
}

impl RowAssembler {
    /// The columns read so far, as text.
    pub open spec fn spec_columns(self) -> Seq<Seq<char>> {
        self.columns.deep_view()
    }

    /// Ordinals are 1-based and contiguous: the next ordinal always sits
    /// one past the columns already read.
    pub open spec fn wf(self) -> bool {
        self.next_ordinal == self.columns@.len() + 1
    }

    /// Starts an empty row at ordinal 1.
    pub fn new() -> (r: RowAssembler)
        ensures
            r.wf(),
            r.spec_columns() == Seq::<Seq<char>>::empty(),
            r.next_ordinal == 1,
            !r.complete,
    {
        let r = RowAssembler { columns: Vec::new(), next_ordinal: 1, complete: false };
        proof {
            assert(r.spec_columns() =~= Seq::<Seq<char>>::empty());
        }
        r
    }

    /// Applies the outcome of the get-data call for the current ordinal:
    /// the return code, the indicator value and the filled buffer.
    ///
    /// The no-data code ends the row.  On success the column's text is
    /// appended: the NULL token when the indicator reports a native NULL,
    /// otherwise the buffer's NUL-terminated contents.  Any other code
    /// defers to the diagnostic text.
    pub fn apply(&mut self, code: i32, indicator: i64, buffer: &Vec<u8>) -> (r: ColumnStep)
        requires
            old(self).wf(),
            !old(self).complete,
            old(self).next_ordinal < FETCH_COLUMN_CAP + 1,
        ensures
            final(self).wf(),
            r == ColumnStep::Finished <==> code == SQL_NO_DATA,
            r == ColumnStep::Continue <==> spec_is_success(code),
            r == ColumnStep::Diagnose <==> (!spec_is_success(code) && code != SQL_NO_DATA),
            code == SQL_NO_DATA ==> final(self).spec_columns() == old(self).spec_columns()
                && final(self).complete && final(self).next_ordinal == old(self).next_ordinal,
            spec_is_success(code) && indicator == SQL_NULL_DATA ==> final(self).spec_columns()
                == old(self).spec_columns().push(spec_null_token()) && !final(self).complete
                && final(self).next_ordinal == old(self).next_ordinal + 1,
            spec_is_success(code) && indicator != SQL_NULL_DATA ==> final(self).spec_columns()
                == old(self).spec_columns().push(spec_decoded(buffer@)) && !final(self).complete
                && final(self).next_ordinal == old(self).next_ordinal + 1,
            !spec_is_success(code) && code != SQL_NO_DATA ==> *final(self) == *old(self),
    {
        if code == SQL_NO_DATA {
            self.complete = true;
            ColumnStep::Finished
        } else if code == 0 || code == 1 {
            let value = if indicator == SQL_NULL_DATA {
                String::from_str("NULL")
            } else {
                decode_buffer(buffer)
            };
            let ghost before = self.columns.deep_view();
            let ghost pushed = value@;
            self.columns.push(value);
            self.next_ordinal = self.next_ordinal + 1;
            proof {
                assert(self.columns.deep_view() =~= before.push(pushed));
            }
            ColumnStep::Continue
        } else {
            ColumnStep::Diagnose
        }
    }

    /// Decides a failing get-data call from its diagnostic text: the
    /// invalid-descriptor-index class means the row simply has no column at
    /// this ordinal (the row ends, no error); anything else is a genuine
    /// fetch error naming the failing ordinal.
    pub fn resolve_diagnostic(&mut self, diag: &str) -> (r: Option<InformixError>)
        requires
            old(self).wf(),
            !old(self).complete,
        ensures
            final(self).wf(),
            r is None <==> spec_contains(diag@, spec_end_of_columns_mark()),
            r is None ==> final(self).spec_columns() == old(self).spec_columns()
                && final(self).complete,
            r matches Some(e) ==> *final(self) == *old(self) && (e matches
                InformixError::DataFetchError(m) && m@ == "GetData failed for column "@
                + spec_udigits(old(self).next_ordinal as nat) + ": "@ + diag@),
    {
        if str_contains(diag, "-11103") {
            self.complete = true;
            None
        } else {
            let mut m = String::from_str("GetData failed for column ");
            let digits = render_u64(self.next_ordinal as u64);
            m.append(digits.as_str());
            m.append(": ");
            m.append(diag);
            Some(InformixError::DataFetchError(m))
        }
    }

    /// Whether the end of the columns was reached.
    pub fn is_complete(&self) -> (r: bool)
        ensures
            r == self.complete,
    {
        self.complete
    }

    /// The ordinal the next get-data call should ask for.
    pub fn ordinal(&self) -> (r: u16)
        ensures
            r == self.next_ordinal,
    {
        self.next_ordinal
    }

    /// Hands the assembled row out.
    pub fn into_row(self) -> (r: Vec<String>)
        requires
            self.complete,
        ensures
            r.deep_view() == self.spec_columns(),
    {
        self.columns
    }
}

} // verus!
