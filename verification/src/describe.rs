//! Column metadata: the per-statement description of a result set.
//!
//! After execution, the driver reports a column count, then describes each
//! column by 1-based ordinal: name, native type code, declared size,
//! decimal digits, nullability.

use vstd::prelude::*;
use crate::codes::spec_is_success;
use crate::errors::InformixError;
use crate::render::decode_buffer;
use crate::render::render_u64;
use crate::render::spec_decoded;
use crate::render::spec_udigits;

verus! {

/// The description of one result column.
#[derive(Debug, Clone)]
pub struct ColumnMetadata {
    pub name: String,
    pub data_type: i16,
    pub column_size: u32,
    pub decimal_digits: i16,
    pub nullable: bool,
}

/// Classifies the column-count query's outcome: the count on success
/// (clamped at zero, as the driver's count is signed), the describe error
/// otherwise.
pub fn column_count_outcome(code: i32, count: i16) -> (r: Result<u16, InformixError>)
    ensures
        r is Ok <==> spec_is_success(code),
        r matches Ok(c) ==> c == (if count < 0 {
            0
        } else {
            count as int
        }),
        r matches Err(e) ==> e matches InformixError::DescribeColumnsError(m) && m@
            == "Failed to get column count"@,
{
    if code == 0 || code == 1 {
        if count < 0 {
            Ok(0)
        } else {
            Ok(count as u16)
        }
    } else {
        Err(InformixError::DescribeColumnsError(String::from_str("Failed to get column count")))
    }
}

/// Builds one column's metadata from the describe call's outcome: the
/// NUL-terminated name buffer and the plain describe fields on success, the
/// describe error naming the ordinal otherwise.  The driver's declared size
/// is kept modulo the 32-bit range it is stored in.
pub fn column_from_describe(
    ordinal: u16,
    code: i32,
    name_buf: &Vec<u8>,
    data_type: i16,
    column_size: u64,
    decimal_digits: i16,
    nullable: i16,
) -> (r: Result<ColumnMetadata, InformixError>)
    ensures
        r is Ok <==> spec_is_success(code),
        r matches Ok(c) ==> {
            &&& c.name@ == spec_decoded(name_buf@)
            &&& c.data_type == data_type
            &&& c.column_size == column_size as u32
            &&& c.decimal_digits == decimal_digits
            &&& c.nullable == (nullable != 0)
        },
        r matches Err(e) ==> e matches InformixError::DescribeColumnsError(m) && m@
            == "Failed to describe column "@ + spec_udigits(ordinal as nat),
{
    if code == 0 || code == 1 {
        Ok(
            ColumnMetadata {
                name: decode_buffer(name_buf),
                data_type,
                column_size: #[verifier::truncate] (column_size as u32),
                decimal_digits,
                nullable: nullable != 0,
            },
        )
    } else {
        let mut m = String::from_str("Failed to describe column ");
        let digits = render_u64(ordinal as u64);
        m.append(digits.as_str());
        Err(InformixError::DescribeColumnsError(m))
    }
}

/// A described column's name is non-empty exactly when the driver put a
/// non-empty NUL-terminated name in the buffer: the layer neither invents
/// nor drops name characters.
pub proof fn lemma_described_name_nonempty(name_buf: Seq<u8>)
    ensures
        spec_decoded(name_buf).len() > 0 <==> (name_buf.len() > 0 && name_buf[0] != 0),
{
}

/// Collects the description of a result set with a known column count: one
/// entry per ordinal, 1-based and contiguous, and exactly as many entries
/// as the driver's count when finished.
pub struct DescribeBuilder {
    /// The driver's column count.
    pub expected: u16,
    /// The columns described so far, in ordinal order.
    pub columns: Vec<ColumnMetadata>,
}

impl DescribeBuilder {
    /// No more columns are collected than the count.
    pub open spec fn wf(self) -> bool {
        self.columns@.len() <= self.expected
    }

    /// Starts collecting for a reported column count.
    pub fn new(expected: u16) -> (r: DescribeBuilder)
        ensures
            r.wf(),
            r.expected == expected,
            r.columns@.len() == 0,
    {
        DescribeBuilder { expected, columns: Vec::new() }
    }

    /// The 1-based ordinal the next describe call should ask for: one past
    /// the columns already collected.
    pub fn next_ordinal(&self) -> (r: u16)
        requires
            self.wf(),
            self.columns@.len() < self.expected,
        ensures
            r == self.columns@.len() + 1,
    {
        self.columns.len() as u16 + 1
    }

    /// Whether every ordinal up to the count was described.
    pub fn is_done(&self) -> (r: bool)
        requires
            self.wf(),
        ensures
            r == (self.columns@.len() == self.expected),
    {
        self.columns.len() == self.expected as usize
    }

    /// Appends the description of the next ordinal.
    pub fn add(&mut self, column: ColumnMetadata)
        requires
            old(self).wf(),
            old(self).columns@.len() < old(self).expected,
        ensures
            final(self).wf(),
            final(self).expected == old(self).expected,
            final(self).columns@ == old(self).columns@.push(column),
    {
        self.columns.push(column);
    }

    /// Hands the collected descriptions out: exactly as many entries as the
    /// driver's column count, in ordinal order.
    pub fn finish(self) -> (r: Vec<ColumnMetadata>)
        requires
            self.wf(),
            self.columns@.len() == self.expected,
        ensures
            r@.len() == self.expected,
            r@ == self.columns@,
    {
        self.columns
    }
}

} // verus!
