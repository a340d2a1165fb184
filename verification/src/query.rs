//! The query protocol: prepare, bind each parameter by 1-based position,
//! execute, then drain the fetch loop into a sequence of rows.
//!
//! `QueryMachine` holds the decisions of that protocol; the unverified
//! shell performs each native call it asks for and feeds the outcome back.
//! The machine binds parameters in caller order at contiguous 1-based
//! ordinals, never drops or reorders a bind, accumulates fetched rows in
//! order, and finally splits the outcome: `None` for an empty result set,
//! `Some(rows)` otherwise.

use vstd::prelude::*;
use crate::codes::spec_is_success;
use crate::errors::InformixError;
use crate::params::bind_outcome;
use crate::params::marshal_param;
use crate::params::spec_bind_error_text;
use crate::params::spec_marshallable;
use crate::params::spec_marshalled;
use crate::params::spec_text_bytes;
use crate::params::BindRequest;
use crate::params::SqlParam;

verus! {

/// Where the query protocol stands.
#[derive(Clone, Copy, Debug, PartialEq, Eq, Structural)]
pub enum QueryPhase {
    /// The native prepare call is in flight.
    Preparing,
    /// A bind call for the current parameter is in flight.
    Binding,
    /// The native execute call is in flight.
    Executing,
    /// A row fetch is in flight.
    Fetching,
    /// The result set was drained; the outcome is ready.
    Finished,
    /// A step failed; the error is ready.
    Failed,
}

/// What the machine asks the shell to do next.
pub enum QueryStep {
    /// Perform the native bind call this request describes.
    DoBind(BindRequest),
    /// Perform the native execute call.
    DoExecute,
    /// Perform one native row fetch.
    DoFetch,
    /// The query is decided; take the outcome.
    Done,
}

/// The query protocol's state: the parameters to bind, the phase, the index
/// of the parameter whose bind is in flight, the rows fetched so far, and
/// the failure when one occurred.
pub struct QueryMachine {
    pub params: Vec<SqlParam>,
    pub phase: QueryPhase,
    pub next_param: usize,
    pub rows: Vec<Vec<String>>,
    pub failure: Option<InformixError>,
}

impl QueryMachine {
    /// The machine's invariant: a bind in flight points at a real
    /// parameter, a failure is recorded when and only when the phase says
    /// so, ordinals fit the native 2-byte ordinal, and text parameters fit
    /// the native length argument.
    pub open spec fn wf(self) -> bool {
        &&& self.params@.len() <= 0xFFFE
        &&& self.next_param <= self.params@.len()
        &&& (self.phase == QueryPhase::Preparing ==> self.next_param == 0)
        &&& (self.phase == QueryPhase::Binding ==> self.next_param < self.params@.len())
        &&& (self.failure is Some <==> self.phase == QueryPhase::Failed)
        &&& forall|i: int|
            0 <= i < self.params@.len() ==> (#[trigger] self.params@[i] matches SqlParam::Str(s)
                ==> spec_text_bytes(s@).len() <= i64::MAX)
    }

    /// Starts the protocol for a parameter list, with the prepare call in
    /// flight.
    pub fn start(params: Vec<SqlParam>) -> (m: QueryMachine)
        requires
            params@.len() <= 0xFFFE,
            forall|i: int|
                0 <= i < params@.len() ==> (#[trigger] params@[i] matches SqlParam::Str(s)
                    ==> spec_text_bytes(s@).len() <= i64::MAX),
        ensures
            m.wf(),
            m.phase == QueryPhase::Preparing,
            m.params == params,
            m.next_param == 0,
            m.rows@.len() == 0,
    {
        QueryMachine {
            params,
            phase: QueryPhase::Preparing,
            next_param: 0,
            rows: Vec::new(),
            failure: None,
        }
    }

    /// Marshals the parameter at `self.next_param` and moves to Binding, or
    /// fails.  Shared by the prepare and bind transitions.
    fn bind_or_fail(&mut self) -> (r: QueryStep)
        requires
            old(self).wf(),
            old(self).phase != QueryPhase::Failed,
            old(self).next_param < old(self).params@.len(),
        ensures
            final(self).wf(),
            final(self).params == old(self).params,
            final(self).rows == old(self).rows,
            final(self).next_param == old(self).next_param,
            spec_marshallable(old(self).params@[old(self).next_param as int]) ==> final(self).phase
                == QueryPhase::Binding && (r matches QueryStep::DoBind(req) && spec_marshalled(
                old(self).params@[old(self).next_param as int],
                (old(self).next_param + 1) as u16,
                req,
            )),
            !spec_marshallable(old(self).params@[old(self).next_param as int]) ==> final(self).phase
                == QueryPhase::Failed && r is Done && (final(self).failure matches Some(e)
                && e matches InformixError::ParameterBindingError(_)),
    {
        let ordinal = self.next_param as u16 + 1;
        match marshal_param(&self.params[self.next_param], ordinal) {
            Ok(req) => {
                self.phase = QueryPhase::Binding;
                QueryStep::DoBind(req)
            },
            Err(e) => {
                self.phase = QueryPhase::Failed;
                self.failure = Some(e);
                QueryStep::Done
            },
        }
    }

    /// Applies the prepare call's outcome: a failure decides the query; on
    /// success the first parameter's bind is emitted, or, with no
    /// parameters, the execute call.
    pub fn on_prepared(&mut self, outcome: Result<(), InformixError>) -> (r: QueryStep)
        requires
            old(self).wf(),
            old(self).phase == QueryPhase::Preparing,
        ensures
            final(self).wf(),
            final(self).params == old(self).params,
            final(self).rows == old(self).rows,
            outcome matches Err(e) ==> final(self).phase == QueryPhase::Failed
                && final(self).failure == Some(e) && r is Done,
            outcome is Ok && old(self).params@.len() == 0 ==> final(self).phase
                == QueryPhase::Executing && r is DoExecute,
            outcome is Ok && old(self).params@.len() > 0 ==> {
                &&& final(self).next_param == 0
                &&& spec_marshallable(old(self).params@[0]) ==> final(self).phase
                    == QueryPhase::Binding && (r matches QueryStep::DoBind(req)
                    && spec_marshalled(old(self).params@[0], 1, req))
                &&& !spec_marshallable(old(self).params@[0]) ==> final(self).phase
                    == QueryPhase::Failed && r is Done && (final(self).failure matches Some(e)
                    && e matches InformixError::ParameterBindingError(_))
            },
    {
        match outcome {
            Err(e) => {
                self.phase = QueryPhase::Failed;
                self.failure = Some(e);
                QueryStep::Done
            },
            Ok(()) => {
                if self.params.len() == 0 {
                    self.phase = QueryPhase::Executing;
                    QueryStep::DoExecute
                } else {
                    self.bind_or_fail()
                }
            },
        }
    }

    /// Applies a bind call's return code: a failure decides the query; on
    /// success the next parameter's bind is emitted, or, after the last
    /// one, the execute call.
    pub fn on_bound(&mut self, code: i32) -> (r: QueryStep)
        requires
            old(self).wf(),
            old(self).phase == QueryPhase::Binding,
        ensures
            final(self).wf(),
            final(self).params == old(self).params,
            final(self).rows == old(self).rows,
            !spec_is_success(code) ==> final(self).phase == QueryPhase::Failed && r is Done && (
            final(self).failure matches Some(e) && e matches InformixError::ParameterBindingError(m)
                && m@ == spec_bind_error_text(
                old(self).params@[old(self).next_param as int],
                code as int,
            )),
            spec_is_success(code) && old(self).next_param + 1 == old(self).params@.len() ==> final(self).phase == QueryPhase::Executing && r is DoExecute && final(self).next_param == old(self).next_param + 1,
            spec_is_success(code) && old(self).next_param + 1 < old(self).params@.len() ==> {
                &&& final(self).next_param == old(self).next_param + 1
                &&& spec_marshallable(old(self).params@[old(self).next_param + 1]) ==> final(self).phase == QueryPhase::Binding && (r matches QueryStep::DoBind(req)
                    && spec_marshalled(
                    old(self).params@[old(self).next_param + 1],
                    (old(self).next_param + 2) as u16,
                    req,
                ))
                &&& !spec_marshallable(old(self).params@[old(self).next_param + 1]) ==> final(self).phase == QueryPhase::Failed && r is Done
            },
    {
        match bind_outcome(&self.params[self.next_param], code) {
            Err(e) => {
                self.phase = QueryPhase::Failed;
                self.failure = Some(e);
                QueryStep::Done
            },
            Ok(()) => {
                self.next_param = self.next_param + 1;
                if self.next_param == self.params.len() {
                    self.phase = QueryPhase::Executing;
                    QueryStep::DoExecute
                } else {
                    self.bind_or_fail()
                }
            },
        }
    }

    /// Applies the execute call's outcome: fetching starts on a success
    /// code; any other decides the query with the execution error carrying
    /// the diagnostic string.
    pub fn on_executed(&mut self, code: i32, diag: String) -> (r: QueryStep)
        requires
            old(self).wf(),
            old(self).phase == QueryPhase::Executing,
        ensures
            final(self).wf(),
            final(self).params == old(self).params,
            final(self).rows == old(self).rows,
            spec_is_success(code) ==> final(self).phase == QueryPhase::Fetching && r is DoFetch,
            !spec_is_success(code) ==> final(self).phase == QueryPhase::Failed && r is Done && (
            final(self).failure matches Some(e) && e matches InformixError::SQLExecutionError(m)
                && m@ == diag@),
    {
        if code == 0 || code == 1 {
            self.phase = QueryPhase::Fetching;
            QueryStep::DoFetch
        } else {
            self.phase = QueryPhase::Failed;
            self.failure = Some(InformixError::SQLExecutionError(diag));
            QueryStep::Done
        }
    }

    /// Takes one fetched row and asks for the next: rows accumulate in
    /// fetch order, one per fetch, none dropped.
    pub fn on_row(&mut self, row: Vec<String>) -> (r: QueryStep)
        requires
            old(self).wf(),
            old(self).phase == QueryPhase::Fetching,
        ensures
            final(self).wf(),
            final(self).params == old(self).params,
            final(self).phase == QueryPhase::Fetching,
            final(self).rows@ == old(self).rows@.push(row),
            r is DoFetch,
    {
        self.rows.push(row);
        QueryStep::DoFetch
    }

    /// Takes the terminal no-more-rows answer: the query is decided with
    /// exactly the rows fetched so far.
    pub fn on_rows_end(&mut self) -> (r: QueryStep)
        requires
            old(self).wf(),
            old(self).phase == QueryPhase::Fetching,
        ensures
            final(self).wf(),
            final(self).params == old(self).params,
            final(self).rows == old(self).rows,
            final(self).phase == QueryPhase::Finished,
            r is Done,
    {
        self.phase = QueryPhase::Finished;
        QueryStep::Done
    }

    /// Takes a fetch failure: the query is decided with that error.
    pub fn on_fetch_failed(&mut self, e: InformixError) -> (r: QueryStep)
        requires
            old(self).wf(),
            old(self).phase == QueryPhase::Fetching,
        ensures
            final(self).wf(),
            final(self).params == old(self).params,
            final(self).rows == old(self).rows,
            final(self).phase == QueryPhase::Failed,
            final(self).failure == Some(e),
            r is Done,
    {
        self.phase = QueryPhase::Failed;
        self.failure = Some(e);
        QueryStep::Done
    }

    /// Hands the decided query out.  An empty result set is `Ok(None)`; a
    /// non-empty one is `Ok(Some(rows))` with exactly the fetched rows, in
    /// order; a failed step is its error.
    pub fn into_result(self) -> (r: Result<Option<Vec<Vec<String>>>, InformixError>)
        requires
            self.wf(),
            self.phase == QueryPhase::Finished || self.phase == QueryPhase::Failed,
        ensures
            self.phase == QueryPhase::Finished ==> (match r {
                Ok(None) => self.rows@.len() == 0,
                Ok(Some(rows)) => self.rows@.len() > 0 && rows@ == self.rows@,
                Err(_) => false,
            }),
            self.phase == QueryPhase::Failed ==> (r matches Err(e) && Some(e) == self.failure),
    {
        if let QueryPhase::Failed = self.phase {
            match self.failure {
                Some(e) => Err(e),
                None => {
                    assert(false);
                    Ok(None)
                },
            }
        } else {
            if self.rows.len() == 0 {
                Ok(None)
            } else {
                Ok(Some(self.rows))
            }
        }
    }
}

} // verus!
