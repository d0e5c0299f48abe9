use watcher::classify::Severity;
use watcher::config::{jobs, user_agent, Check, Job};
use watcher::outcome::{ProbeOutcome, Status};
use watcher::runner::{JobRun, RunState};
use watcher::schedule::{all_jobs_succeeded, exit_code};

const MS: u64 = 1_000_000;

fn job(urls: &[&str]) -> Job {
    let checks = urls.iter().map(|u| Check::new(u, "Comp")).collect();
    Job::new("proj", 0, checks)
}

/// Runs `job` against `probe`, returning the indices probed, the log lines,
/// the alerts' severities and the final state.
fn drive(job: &Job, threshold_ns: u64, probe: impl Fn(usize) -> ProbeOutcome) -> (Vec<usize>, Vec<String>, Vec<Severity>, RunState) {
    let mut run = JobRun::new(job.checks.len());
    run.start(true);
    let (mut probed, mut logs, mut alerts) = (Vec::new(), Vec::new(), Vec::new());
    while let Some(i) = run.pending_check() {
        probed.push(i);
        let report = run.handle_outcome(job, &probe(i), threshold_ns);
        logs.push(report.log_line);
        if let Some(a) = report.alert {
            alerts.push(a.severity);
        }
    }
    (probed, logs, alerts, run.state())
}

#[test]
fn single_fast_check_completes_silently() {
    let j = Job::new("proj", 0, vec![Check::new("https://a.test/ok", "Ok")]);
    let (probed, logs, alerts, state) = drive(&j, 500 * MS, |_| ProbeOutcome::new(1, 50 * MS, Status::Http(200)));
    assert_eq!(probed, vec![0]);
    assert_eq!(logs.len(), 1);
    assert!(alerts.is_empty());
    assert_eq!(state, RunState::Completed);
}

#[test]
fn timeout_on_second_check_fails_job() {
    let j = job(&["https://a.test/ok", "https://a.test/down"]);
    let (probed, logs, alerts, state) = drive(&j, 500 * MS, |i| {
        if i == 0 {
            ProbeOutcome::new(1, 50 * MS, Status::Http(200))
        } else {
            ProbeOutcome::new(2, 10_000 * MS, Status::TransportFailure)
        }
    });
    assert_eq!(probed, vec![0, 1]);
    assert_eq!(logs.len(), 2);
    assert!(logs[1].contains("https://a.test/down"));
    assert_eq!(alerts, vec![Severity::Error]);
    assert_eq!(state, RunState::Failed);
}

#[test]
fn error_truncates_remaining_checks() {
    let j = job(&["https://a.test/1", "https://a.test/2", "https://a.test/3"]);
    let (probed, logs, _, state) = drive(&j, 500 * MS, |i| {
        let status = if i == 1 { Status::Http(500) } else { Status::Http(200) };
        ProbeOutcome::new(1, 5 * MS, status)
    });
    assert_eq!(probed, vec![0, 1]);
    assert_eq!(logs.len(), 2);
    assert_eq!(state, RunState::Failed);
}

#[test]
fn warnings_do_not_stop_a_job() {
    let j = job(&["https://a.test/1", "https://a.test/2", "https://a.test/3"]);
    let (probed, _, alerts, state) = drive(&j, 500 * MS, |i| {
        if i == 0 {
            ProbeOutcome::new(1, 900 * MS, Status::Http(200))
        } else {
            ProbeOutcome::new(1, 5 * MS, Status::Http(202))
        }
    });
    assert_eq!(probed, vec![0, 1, 2]);
    assert_eq!(alerts, vec![Severity::Warn, Severity::Warn, Severity::Warn]);
    assert_eq!(state, RunState::Completed);
}

#[test]
fn setup_error_fails_before_any_check() {
    let j = job(&["http://a.test/plain"]);
    let mut run = JobRun::new(j.checks.len());
    assert_eq!(run.state(), RunState::Idle);
    assert_eq!(run.succeeded(), None);
    run.start(false);
    assert_eq!(run.pending_check(), None);
    assert_eq!(run.state(), RunState::Failed);
    assert_eq!(run.succeeded(), Some(false));
}

#[test]
fn empty_job_completes() {
    let mut run = JobRun::new(0);
    run.start(true);
    assert_eq!(run.pending_check(), None);
    assert_eq!(run.succeeded(), Some(true));
}

#[test]
fn record_moves_through_checks() {
    let mut run = JobRun::new(2);
    run.start(true);
    assert_eq!(run.pending_check(), Some(0));
    run.record(Severity::Warn);
    assert_eq!(run.pending_check(), Some(1));
    run.record(Severity::Silent);
    assert_eq!(run.pending_check(), None);
    assert_eq!(run.succeeded(), Some(true));
}

#[test]
fn aggregate_fails_iff_some_job_failed() {
    assert!(!all_jobs_succeeded(&vec![RunState::Completed, RunState::Failed]));
    assert!(all_jobs_succeeded(&vec![RunState::Completed, RunState::Completed]));
    assert!(all_jobs_succeeded(&vec![]));
    assert!(!all_jobs_succeeded(&vec![RunState::Failed]));
    assert_eq!(exit_code(true), 0);
    assert_eq!(exit_code(false), 1);
}

#[test]
fn all_ok_and_all_warn_jobs_succeed_together() {
    let a = job(&["https://a.test/1", "https://a.test/2"]);
    let b = job(&["https://b.test/1"]);
    let (_, _, _, sa) = drive(&a, 500 * MS, |_| ProbeOutcome::new(1, 5 * MS, Status::Http(200)));
    let (_, _, _, sb) = drive(&b, 500 * MS, |_| ProbeOutcome::new(1, 5 * MS, Status::Http(203)));
    assert!(all_jobs_succeeded(&vec![sa, sb]));
    let (_, _, _, sc) = drive(&b, 500 * MS, |_| ProbeOutcome::new(1, 5 * MS, Status::Http(502)));
    assert!(!all_jobs_succeeded(&vec![sa, sc]));
}

#[test]
fn configured_jobs() {
    let js = jobs();
    assert_eq!(js.len(), 2);
    assert_eq!(js[0].project, "ddr0.ca");
    assert_eq!(js[0].redirects, 0);
    assert_eq!(js[0].checks.len(), 3);
    assert_eq!(js[0].checks[1].url, "https://ddr0.ca/\u{2682}/");
    assert_eq!(js[1].project, "ravelights.ca");
    assert_eq!(js[1].redirects, 2);
    assert_eq!(js[1].checks[1].component, "Redirect");
    assert_eq!(user_agent(), "DDR's Watcher 0.2.1");
}
