//! One job's run as a state machine: the caller probes the check that the run
//! asks for, hands the outcome back, and the run decides whether to go on.
use vstd::prelude::*;
use crate::classify::{Severity, AlertRecord, Classification, classify, severity_of};
use crate::config::Job;
use crate::log::{log_line, log_record};
use crate::outcome::ProbeOutcome;

verus! {

/// Where a job's run stands.
#[derive(Clone, Copy, Debug, PartialEq, Eq, Structural)]
pub enum RunState {
    Idle,
    Running,
    Completed,
    Failed,
}

/// The abstract state of a run: its state, the index of the next check, and
/// how many checks the job has.
pub struct RunModel {
    pub state: RunState,
    pub next: nat,
    pub total: nat,
}

impl RunModel {
    pub open spec fn wf(self) -> bool {
        &&& self.next <= self.total
        &&& self.state == RunState::Idle ==> self.next == 0
        &&& self.state == RunState::Running ==> self.next < self.total
        &&& self.state == RunState::Completed ==> self.next == self.total
        &&& self.state == RunState::Failed ==> self.next < self.total || self.next == 0
    }
}

/// Leaving `Idle`: a setup error fails the run before any check; a job
/// without checks completes at once.
pub open spec fn start_step(m: RunModel, setup_ok: bool) -> RunModel {
    if !setup_ok {
        RunModel { state: RunState::Failed, next: 0, total: m.total }
    } else if m.total == 0 {
        RunModel { state: RunState::Completed, next: 0, total: m.total }
    } else {
        RunModel { state: RunState::Running, next: 0, total: m.total }
    }
}

/// The check at `m.next` was classified `sev`: an Error fails the run at that
/// check; anything else moves on, completing after the last check.
pub open spec fn step(m: RunModel, sev: Severity) -> RunModel {
    if sev == Severity::Error {
        RunModel { state: RunState::Failed, next: m.next, total: m.total }
    } else if m.next + 1 == m.total {
        RunModel { state: RunState::Completed, next: m.next + 1, total: m.total }
    } else {
        RunModel { state: RunState::Running, next: m.next + 1, total: m.total }
    }
}

/// Feeds a running run the severity of each check it asks for, `sevs[i]`
/// being that of check `i`, until it stops or `sevs` runs out.
pub open spec fn run_through(m: RunModel, sevs: Seq<Severity>) -> RunModel
    decreases m.total - m.next + (if m.state == RunState::Running { 1int } else { 0int }),
{
    if m.state == RunState::Running && m.next < m.total && m.next < sevs.len() {
        run_through(step(m, sevs[m.next as int]), sevs)
    } else {
        m
    }
}

/// A run that is never handed an outcome after an Error: feeding checks
/// `0..` of a started run, where check `k` is the first Error, fails the run
/// at `k`, so no check after `k` is ever asked for.
pub proof fn lemma_stops_at_first_error(total: nat, sevs: Seq<Severity>, k: nat)
    requires
        k < total,
        k < sevs.len(),
        sevs[k as int] == Severity::Error,
        forall|j: int| 0 <= j < k ==> sevs[j] != Severity::Error,
    ensures
        run_through(RunModel { state: RunState::Running, next: 0, total }, sevs)
            == (RunModel { state: RunState::Failed, next: k, total }),
{
    lemma_stops_at_first_error_from(total, sevs, k, 0);
}

proof fn lemma_stops_at_first_error_from(total: nat, sevs: Seq<Severity>, k: nat, i: nat)
    requires
        i <= k < total,
        k < sevs.len(),
        sevs[k as int] == Severity::Error,
        forall|j: int| 0 <= j < k ==> sevs[j] != Severity::Error,
    ensures
        run_through(RunModel { state: RunState::Running, next: i, total }, sevs)
            == (RunModel { state: RunState::Failed, next: k, total }),
    decreases k - i,
{
    let m = RunModel { state: RunState::Running, next: i, total };
    if i < k {
        assert(sevs[i as int] != Severity::Error);
        assert(step(m, sevs[i as int]) == (RunModel { state: RunState::Running, next: i + 1, total }));
        lemma_stops_at_first_error_from(total, sevs, k, i + 1);
    } else {
        let f = RunModel { state: RunState::Failed, next: k, total };
        assert(step(m, sevs[i as int]) == f);
        assert(run_through(f, sevs) == f);
    }
}

/// A started run that is handed no Error among its checks completes after
/// asking for every one of them.
pub proof fn lemma_completes_without_error(total: nat, sevs: Seq<Severity>)
    requires
        0 < total <= sevs.len(),
        forall|j: int| 0 <= j < total ==> sevs[j] != Severity::Error,
    ensures
        run_through(RunModel { state: RunState::Running, next: 0, total }, sevs)
            == (RunModel { state: RunState::Completed, next: total, total }),
{
    lemma_completes_from(total, sevs, 0);
}

proof fn lemma_completes_from(total: nat, sevs: Seq<Severity>, i: nat)
    requires
        i < total <= sevs.len(),
        forall|j: int| 0 <= j < total ==> sevs[j] != Severity::Error,
    ensures
        run_through(RunModel { state: RunState::Running, next: i, total }, sevs)
            == (RunModel { state: RunState::Completed, next: total, total }),
    decreases total - i,
{
    let m = RunModel { state: RunState::Running, next: i, total };
    assert(sevs[i as int] != Severity::Error);
    if i + 1 < total {
        lemma_completes_from(total, sevs, i + 1);
    } else {
        let c = RunModel { state: RunState::Completed, next: total, total };
        assert(step(m, sevs[i as int]) == c);
        assert(run_through(c, sevs) == c);
    }
}

/// The run of one job.
pub struct JobRun {
    state: RunState,
    next: usize,
    total: usize,
}

impl View for JobRun {
    type V = RunModel;

    closed spec fn view(&self) -> RunModel {
        RunModel { state: self.state, next: self.next as nat, total: self.total as nat }
    }
}

/// What processing one check produced: the log record, the severity, and the
/// alert to render, if any.
pub struct CheckReport {
    pub log_line: String,
    pub severity: Severity,
    pub alert: Option<AlertRecord>,
}

impl JobRun {
    /// A run, not yet started, of a job with `total` checks.
    pub fn new(total: usize) -> (r: JobRun)
        ensures
            r@ == (RunModel { state: RunState::Idle, next: 0, total: total as nat }),
            r@.wf(),
    {
        JobRun { state: RunState::Idle, next: 0, total }
    }

    pub fn state(&self) -> (r: RunState)
        ensures
            r == self@.state,
    {
        self.state
    }

    /// Starts the run; `setup_ok` is false where the job's HTTP client could
    /// not be built.
    pub fn start(&mut self, setup_ok: bool)
        requires
            old(self)@.wf(),
            old(self)@.state == RunState::Idle,
        ensures
            final(self)@ == start_step(old(self)@, setup_ok),
            final(self)@.wf(),
    {
        if !setup_ok {
            self.state = RunState::Failed;
        } else if self.total == 0 {
            self.state = RunState::Completed;
        } else {
            self.state = RunState::Running;
        }
        self.next = 0;
    }

    /// The index of the check to probe now, while the run is running.
    pub fn pending_check(&self) -> (r: Option<usize>)
        requires
            self@.wf(),
        ensures
            self@.state == RunState::Running <==> r is Some,
            r is Some ==> r.unwrap() as nat == self@.next && self@.next < self@.total,
    {
        if self.state == RunState::Running {
            Some(self.next)
        } else {
            None
        }
    }

    /// Records the severity of the pending check.
    pub fn record(&mut self, severity: Severity)
        requires
            old(self)@.wf(),
            old(self)@.state == RunState::Running,
        ensures
            final(self)@ == step(old(self)@, severity),
            final(self)@.wf(),
    {
        if severity == Severity::Error {
            self.state = RunState::Failed;
        } else {
            self.next = self.next + 1;
            if self.next == self.total {
                self.state = RunState::Completed;
            } else {
                self.state = RunState::Running;
            }
        }
    }

    /// Whether the run has finished, and if so whether it succeeded.
    pub fn succeeded(&self) -> (r: Option<bool>)
        ensures
            r == match self@.state {
                RunState::Completed => Some(true),
                RunState::Failed => Some(false),
                _ => None,
            },
    {
        match self.state {
            RunState::Completed => Some(true),
            RunState::Failed => Some(false),
            _ => None,
        }
    }

    /// Processes the outcome of the pending check of `job`: classifies it,
    /// formats its log record, and moves the run on.
    pub fn handle_outcome(&mut self, job: &Job, outcome: &ProbeOutcome, slow_threshold_ns: u64) -> (r:
        CheckReport)
        requires
            old(self)@.wf(),
            old(self)@.state == RunState::Running,
            old(self)@.total == job.checks.len(),
        ensures
            ({
                let check = job.checks[old(self)@.next as int];
                &&& r.log_line@ == log_record(*outcome, check.url@)
                &&& (Classification { severity: r.severity, alert: r.alert }).describes(
                    *outcome,
                    job.project@,
                    check.component@,
                    check.url@,
                    slow_threshold_ns,
                )
            }),
            r.severity == severity_of(*outcome, slow_threshold_ns),
            final(self)@ == step(old(self)@, r.severity),
            final(self)@.wf(),
    {
        let check = &job.checks[self.next];
        let line = log_line(outcome, check.url.as_str());
        let c = classify(outcome, job.project.as_str(), check.component.as_str(), check.url.as_str(), slow_threshold_ns);
        self.record(c.severity);
        CheckReport { log_line: line, severity: c.severity, alert: c.alert }
    }
}

} // verus!
