//! The scan orchestrator: dispatches one worker per input path under a
//! concurrency bound, collects each worker's single outcome, and builds
//! the finalized session. The scheduling itself (tasks, await points)
//! runs outside the library; every decision it follows — whether another
//! worker may start, how an outcome is recorded, when the session may be
//! finalized — is taken here and verified.
//!
//! A batch goes `Pending` (created, nothing dispatched) to `Running`
//! (start time set, workers in flight) to `Finalized` (the built
//! `ScanSession`, terminal and immutable).

use vstd::prelude::*;
use crate::aggregate::aggregate_counts;
use crate::clock::current_time_string;
use crate::errors::{BatchError, FileScanError, FileScanErrorView};
use crate::ids::fresh_id;
use crate::model::{ScanResult, ScanResultView};
use crate::session::ScanSession;
use crate::worker::clone_string;

verus! {

/// Bookkeeping for one batch scan in progress.
pub struct Orchestrator {
    id: String,
    scan_type: String,
    bound: usize,
    paths: Vec<String>,
    dispatched: usize,
    in_flight: usize,
    results: Vec<ScanResult>,
    errors: Vec<FileScanError>,
    start_time: Option<String>,
    cancelled: bool,
}

impl Orchestrator {
    /// The session identifier, fixed at creation.
    pub closed spec fn spec_id(&self) -> Seq<char> {
        self.id@
    }

    /// The label describing what kind of scan this batch is.
    pub closed spec fn spec_scan_type(&self) -> Seq<char> {
        self.scan_type@
    }

    /// The concurrency bound the batch was created with.
    pub closed spec fn spec_bound(&self) -> nat {
        self.bound as nat
    }

    /// The input paths, in submission order.
    pub closed spec fn spec_paths(&self) -> Seq<Seq<char>> {
        self.paths.deep_view()
    }

    /// How many paths have been handed to workers so far.
    pub closed spec fn spec_dispatched(&self) -> nat {
        self.dispatched as nat
    }

    /// How many workers are in flight right now.
    pub closed spec fn spec_in_flight(&self) -> nat {
        self.in_flight as nat
    }

    /// The results recorded so far, in completion order.
    pub closed spec fn spec_results(&self) -> Seq<ScanResultView> {
        self.results.deep_view()
    }

    /// The per-file errors recorded so far, in completion order.
    pub closed spec fn spec_errors(&self) -> Seq<FileScanErrorView> {
        self.errors.deep_view()
    }

    /// The session start time, present once the batch is running.
    pub closed spec fn spec_start_time(&self) -> Option<Seq<char>> {
        match self.start_time {
            Some(t) => Some(t@),
            None => None,
        }
    }

    /// Whether the batch is running (dispatch has been opened).
    pub closed spec fn spec_running(&self) -> bool {
        self.start_time is Some
    }

    /// Whether cancellation has been requested.
    pub closed spec fn spec_cancelled(&self) -> bool {
        self.cancelled
    }

    /// The orchestrator invariant, preserved by every step:
    /// the bound is positive and never exceeded by the workers in
    /// flight; every dispatched path is accounted for by exactly one of
    /// a recorded result, a recorded error, or a worker still in
    /// flight; nothing is dispatched before the batch starts or past
    /// the input list; and every recorded result is well formed.
    pub closed spec fn wf(&self) -> bool {
        &&& self.bound >= 1
        &&& self.in_flight <= self.bound
        &&& self.dispatched <= self.paths@.len()
        &&& self.results@.len() + self.errors@.len() + self.in_flight == self.dispatched
        &&& (!self.spec_running() ==> self.dispatched == 0)
        &&& forall|i: int|
            0 <= i < self.results.deep_view().len() ==> self.results.deep_view()[i].wf()
    }

    /// Every outstanding worker has finished and no path remains to
    /// dispatch (or the batch was cancelled): the session may be
    /// finalized.
    pub open spec fn spec_complete(&self) -> bool {
        &&& self.spec_in_flight() == 0
        &&& (self.spec_dispatched() == self.spec_paths().len() || self.spec_cancelled())
    }

    /// Creates the batch in its pending state: nothing dispatched, a
    /// fresh session id. A concurrency bound of zero could never
    /// dispatch any worker, so it is rejected before any work starts.
    pub fn new(paths: Vec<String>, scan_type: String, bound: usize) -> (r: Result<
        Orchestrator,
        BatchError,
    >)
        ensures
            r is Err <==> bound == 0,
            r is Err ==> r->Err_0 == BatchError::InvalidConcurrencyBound,
            r is Ok ==> ({
                let o = r->Ok_0;
                &&& o.wf()
                &&& !o.spec_running()
                &&& !o.spec_cancelled()
                &&& o.spec_paths() == paths.deep_view()
                &&& o.spec_scan_type() == scan_type@
                &&& o.spec_bound() == bound as nat
                &&& o.spec_dispatched() == 0
                &&& o.spec_in_flight() == 0
                &&& o.spec_results() == Seq::<ScanResultView>::empty()
                &&& o.spec_errors() == Seq::<FileScanErrorView>::empty()
                &&& o.spec_id().len() == 36
            }),
    {
        if bound == 0 {
            return Err(BatchError::InvalidConcurrencyBound);
        }
        let o = Orchestrator {
            id: fresh_id(),
            scan_type,
            bound,
            paths,
            dispatched: 0,
            in_flight: 0,
            results: Vec::new(),
            errors: Vec::new(),
            start_time: None,
            cancelled: false,
        };
        proof {
            assert(o.results.deep_view() =~= Seq::<ScanResultView>::empty());
            assert(o.errors.deep_view() =~= Seq::<FileScanErrorView>::empty());
        }
        Ok(o)
    }

    /// Opens dispatch: records the start time. Workers may only be
    /// dispatched after this, so the start time precedes every result.
    pub fn start(&mut self)
        requires
            old(self).wf(),
            !old(self).spec_running(),
        ensures
            final(self).wf(),
            final(self).spec_running(),
            final(self).spec_cancelled() == old(self).spec_cancelled(),
            final(self).spec_paths() == old(self).spec_paths(),
            final(self).spec_scan_type() == old(self).spec_scan_type(),
            final(self).spec_id() == old(self).spec_id(),
            final(self).spec_bound() == old(self).spec_bound(),
            final(self).spec_dispatched() == 0,
            final(self).spec_in_flight() == 0,
            final(self).spec_results() == old(self).spec_results(),
            final(self).spec_errors() == old(self).spec_errors(),
    {
        self.start_time = Some(current_time_string());
    }

    /// Hands out the next path when a worker slot is free: exactly when
    /// the batch is not cancelled, fewer than `bound` workers are in
    /// flight, and an undispatched path remains. Otherwise nothing
    /// changes and `None` says so. The bound is never exceeded.
    pub fn try_dispatch(&mut self) -> (r: Option<String>)
        requires
            old(self).wf(),
            old(self).spec_running(),
        ensures
            final(self).wf(),
            final(self).spec_in_flight() <= final(self).spec_bound(),
            r is Some <==> (!old(self).spec_cancelled() && old(self).spec_in_flight() < old(
                self,
            ).spec_bound() && old(self).spec_dispatched() < old(self).spec_paths().len()),
            r is Some ==> ({
                &&& r->0@ == old(self).spec_paths()[old(self).spec_dispatched() as int]
                &&& final(self).spec_dispatched() == old(self).spec_dispatched() + 1
                &&& final(self).spec_in_flight() == old(self).spec_in_flight() + 1
            }),
            r is None ==> final(self).spec_dispatched() == old(self).spec_dispatched()
                && final(self).spec_in_flight() == old(self).spec_in_flight(),
            final(self).spec_running(),
            final(self).spec_cancelled() == old(self).spec_cancelled(),
            final(self).spec_paths() == old(self).spec_paths(),
            final(self).spec_scan_type() == old(self).spec_scan_type(),
            final(self).spec_id() == old(self).spec_id(),
            final(self).spec_bound() == old(self).spec_bound(),
            final(self).spec_start_time() == old(self).spec_start_time(),
            final(self).spec_results() == old(self).spec_results(),
            final(self).spec_errors() == old(self).spec_errors(),
    {
        if self.cancelled || self.in_flight >= self.bound || self.dispatched >= self.paths.len() {
            return None;
        }
        let path = clone_string(&self.paths[self.dispatched]);
        proof {
            assert(path@ == self.paths.deep_view()[self.dispatched as int]);
        }
        self.dispatched = self.dispatched + 1;
        self.in_flight = self.in_flight + 1;
        Some(path)
    }

    /// Records the one successful outcome of a worker. Only the
    /// orchestrator mutates shared session state, one outcome at a
    /// time; workers own their own result until it is handed over here.
    pub fn record_result(&mut self, result: ScanResult)
        requires
            old(self).wf(),
            old(self).spec_running(),
            old(self).spec_in_flight() >= 1,
            result@.wf(),
        ensures
            final(self).wf(),
            final(self).spec_results() == old(self).spec_results().push(result@),
            final(self).spec_errors() == old(self).spec_errors(),
            final(self).spec_in_flight() == old(self).spec_in_flight() - 1,
            final(self).spec_dispatched() == old(self).spec_dispatched(),
            final(self).spec_running(),
            final(self).spec_cancelled() == old(self).spec_cancelled(),
            final(self).spec_paths() == old(self).spec_paths(),
            final(self).spec_scan_type() == old(self).spec_scan_type(),
            final(self).spec_id() == old(self).spec_id(),
            final(self).spec_bound() == old(self).spec_bound(),
            final(self).spec_start_time() == old(self).spec_start_time(),
    {
        self.results.push(result);
        self.in_flight = self.in_flight - 1;
        proof {
            assert(self.results.deep_view() =~= old(self).results.deep_view().push(
                self.results@.last()@,
            ));
        }
    }

    /// Records the one failure of a worker: the file is excluded from
    /// the session's results and counts, but stays reported here — a
    /// file that could not be scanned is never reported clean by
    /// omission.
    pub fn record_error(&mut self, error: FileScanError)
        requires
            old(self).wf(),
            old(self).spec_running(),
            old(self).spec_in_flight() >= 1,
        ensures
            final(self).wf(),
            final(self).spec_errors() == old(self).spec_errors().push(error@),
            final(self).spec_results() == old(self).spec_results(),
            final(self).spec_in_flight() == old(self).spec_in_flight() - 1,
            final(self).spec_dispatched() == old(self).spec_dispatched(),
            final(self).spec_running(),
            final(self).spec_cancelled() == old(self).spec_cancelled(),
            final(self).spec_paths() == old(self).spec_paths(),
            final(self).spec_scan_type() == old(self).spec_scan_type(),
            final(self).spec_id() == old(self).spec_id(),
            final(self).spec_bound() == old(self).spec_bound(),
            final(self).spec_start_time() == old(self).spec_start_time(),
    {
        self.errors.push(error);
        self.in_flight = self.in_flight - 1;
        proof {
            assert(self.errors.deep_view() =~= old(self).errors.deep_view().push(
                self.errors@.last()@,
            ));
        }
    }

    /// Requests cooperative cancellation: no further path is dispatched;
    /// workers already in flight finish and their outcomes remain valid.
    pub fn cancel(&mut self)
        requires
            old(self).wf(),
        ensures
            final(self).wf(),
            final(self).spec_cancelled(),
            final(self).spec_running() == old(self).spec_running(),
            final(self).spec_paths() == old(self).spec_paths(),
            final(self).spec_scan_type() == old(self).spec_scan_type(),
            final(self).spec_id() == old(self).spec_id(),
            final(self).spec_bound() == old(self).spec_bound(),
            final(self).spec_dispatched() == old(self).spec_dispatched(),
            final(self).spec_in_flight() == old(self).spec_in_flight(),
            final(self).spec_start_time() == old(self).spec_start_time(),
            final(self).spec_results() == old(self).spec_results(),
            final(self).spec_errors() == old(self).spec_errors(),
    {
        self.cancelled = true;
    }

    /// How many workers are in flight right now.
    pub fn in_flight_count(&self) -> (n: usize)
        ensures
            n as nat == self.spec_in_flight(),
    {
        self.in_flight
    }

    /// The concurrency bound the batch was created with.
    pub fn concurrency_bound(&self) -> (n: usize)
        ensures
            n as nat == self.spec_bound(),
    {
        self.bound
    }

    /// How many paths have been handed to workers so far.
    pub fn dispatched_count(&self) -> (n: usize)
        ensures
            n as nat == self.spec_dispatched(),
    {
        self.dispatched
    }

    /// Whether the batch may be finalized now.
    pub fn is_complete(&self) -> (b: bool)
        requires
            self.wf(),
        ensures
            b == self.spec_complete(),
    {
        self.in_flight == 0 && (self.dispatched == self.paths.len() || self.cancelled)
    }

    /// Builds the finalized session once every worker has completed: the
    /// end time is set exactly here, never while work is outstanding.
    /// The counts come from the pure aggregation fold, so the returned
    /// session satisfies the session invariant; the per-file errors are
    /// handed back alongside it.
    pub fn finalize(self) -> (out: (ScanSession, Vec<FileScanError>))
        requires
            self.wf(),
            self.spec_running(),
            self.spec_complete(),
        ensures
            out.0@.wf(),
            out.0@.is_finalized(),
            out.0@.files == self.spec_results(),
            out.0@.total_files == self.spec_results().len(),
            out.0@.id == self.spec_id(),
            out.0@.scan_type == self.spec_scan_type(),
            Some(out.0@.start_time) == self.spec_start_time(),
            out.1.deep_view() == self.spec_errors(),
    {
        let (clean, suspicious, threats) = aggregate_counts(&self.results);
        let start_time = match self.start_time {
            Some(t) => t,
            None => String::new(),  // unreachable: the batch is running
        };
        let session = ScanSession {
            id: self.id,
            total_files: self.results.len(),
            files: self.results,
            scan_type: self.scan_type,
            start_time,
            end_time: Some(current_time_string()),
            threats_found: threats,
            suspicious_files: suspicious,
            clean_files: clean,
        };
        (session, self.errors)
    }
}

/// Concurrency bound respected: in every reachable orchestrator state —
/// the invariant is established at creation and preserved by every
/// operation — the number of workers in flight never exceeds the bound
/// the batch was configured with.
pub proof fn lemma_concurrency_bounded(o: &Orchestrator)
    requires
        o.wf(),
    ensures
        o.spec_in_flight() <= o.spec_bound(),
{
}

} // verus!
