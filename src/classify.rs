//! Turning a probe outcome into an alert severity and, where one is due, an
//! alert record.
use vstd::prelude::*;
use crate::outcome::{Status, ProbeOutcome, millis, status_code};
use crate::text::{dec, decimal, push_decimal};

verus! {

/// How serious a probe's result is, ordered `Silent < Warn < Error`.
#[derive(Clone, Copy, Debug, PartialEq, Eq, Structural)]
pub enum Severity {
    Silent,
    Warn,
    Error,
}

pub open spec fn rank(s: Severity) -> nat {
    match s {
        Severity::Silent => 0,
        Severity::Warn => 1,
        Severity::Error => 2,
    }
}

/// The greater of two severities.
pub open spec fn join(a: Severity, b: Severity) -> Severity {
    if rank(a) >= rank(b) {
        a
    } else {
        b
    }
}

impl Severity {
    pub fn rank(&self) -> (r: u8)
        ensures
            r as nat == rank(*self),
    {
        match self {
            Severity::Silent => 0,
            Severity::Warn => 1,
            Severity::Error => 2,
        }
    }

    /// The greater of `self` and `other`.
    pub fn join(self, other: Severity) -> (r: Severity)
        ensures
            r == join(self, other),
    {
        if self.rank() >= other.rank() {
            self
        } else {
            other
        }
    }
}

/// A fully formed alert, handed to whatever renders notifications.
/// `persistent` asks that it stay until the user dismisses it.
#[derive(Clone, Debug)]
pub struct AlertRecord {
    pub project: String,
    pub component: String,
    pub severity: Severity,
    pub summary: String,
    pub body: String,
    pub persistent: bool,
}

/// The content an alert must carry.
pub struct AlertSpec {
    pub severity: Severity,
    pub summary: Seq<char>,
    pub body: Seq<char>,
    pub persistent: bool,
}

impl AlertRecord {
    pub open spec fn carries(&self, project: Seq<char>, component: Seq<char>, a: AlertSpec) -> bool {
        &&& self.project@ == project
        &&& self.component@ == component
        &&& self.severity == a.severity
        &&& self.summary@ == a.summary
        &&& self.body@ == a.body
        &&& self.persistent == a.persistent
    }
}

/// A 200 that took longer than the threshold.
pub open spec fn is_slow(o: ProbeOutcome, slow_threshold_ns: u64) -> bool {
    o.status == Status::Http(200) && o.elapsed_ns > slow_threshold_ns
}

/// A success status other than 200.
pub open spec fn is_unexpected(s: Status) -> bool {
    match s {
        Status::Http(c) => 201 <= c <= 299,
        Status::TransportFailure => false,
    }
}

/// Anything that is neither 200 nor in [201, 299]: the endpoint counts as down.
pub open spec fn is_down(s: Status) -> bool {
    match s {
        Status::Http(c) => !(200 <= c <= 299),
        Status::TransportFailure => true,
    }
}

/// The severity that the status alone gives.
pub open spec fn status_severity(s: Status) -> Severity {
    if is_down(s) {
        Severity::Error
    } else if is_unexpected(s) {
        Severity::Warn
    } else {
        Severity::Silent
    }
}

/// The severity of an outcome: the greater of what slowness and what the
/// status give.
pub open spec fn severity_of(o: ProbeOutcome, slow_threshold_ns: u64) -> Severity {
    join(if is_slow(o, slow_threshold_ns) { Severity::Warn } else { Severity::Silent }, status_severity(o.status))
}

/// The alert that an outcome calls for, if any.
pub open spec fn alert_for(
    o: ProbeOutcome,
    project: Seq<char>,
    component: Seq<char>,
    url: Seq<char>,
    slow_threshold_ns: u64,
) -> Option<AlertSpec> {
    if is_slow(o, slow_threshold_ns) {
        Some(AlertSpec {
            severity: Severity::Warn,
            summary: project + " Slow "@ + component,
            body: dec(millis(o.elapsed_ns)) + " > "@ + dec(millis(slow_threshold_ns)) + " for "@ + url + "."@,
            persistent: false,
        })
    } else {
        match o.status {
            Status::Http(c) => if c == 200 {
                None
            } else if is_unexpected(o.status) {
                Some(AlertSpec {
                    severity: Severity::Warn,
                    summary: project + " "@ + component + " Unexpected HTTP "@ + dec(c as nat),
                    body: url + " returned HTTP "@ + dec(c as nat) + ", not HTTP 200 OK as expected."@,
                    persistent: false,
                })
            } else {
                Some(AlertSpec {
                    severity: Severity::Error,
                    summary: project + " "@ + component + " Down"@,
                    body: url + " returned HTTP "@ + dec(c as nat) + "."@,
                    persistent: true,
                })
            },
            Status::TransportFailure => Some(AlertSpec {
                severity: Severity::Error,
                summary: project + " "@ + component + " Down"@,
                body: "The HTTP request to "@ + url + " could not be completed."@,
                persistent: true,
            }),
        }
    }
}

/// The severity of one probe and the alert it raises, if any.
pub struct Classification {
    pub severity: Severity,
    pub alert: Option<AlertRecord>,
}

impl Classification {
    pub open spec fn describes(
        &self,
        o: ProbeOutcome,
        project: Seq<char>,
        component: Seq<char>,
        url: Seq<char>,
        slow_threshold_ns: u64,
    ) -> bool {
        &&& self.severity == severity_of(o, slow_threshold_ns)
        &&& match alert_for(o, project, component, url, slow_threshold_ns) {
            Some(a) => self.alert is Some && self.alert.unwrap().carries(project, component, a),
            None => self.alert is None,
        }
    }
}

fn concat3(a: &str, b: &str, c: &str) -> (r: String)
    ensures
        r@ == a@ + b@ + c@,
{
    let mut s = String::from_str(a);
    s.append(b);
    s.append(c);
    s
}

fn record(
    project: &str,
    component: &str,
    severity: Severity,
    summary: String,
    body: String,
    persistent: bool,
) -> (r: AlertRecord)
    ensures
        r.project@ == project@,
        r.component@ == component@,
        r.severity == severity,
        r.summary@ == summary@,
        r.body@ == body@,
        r.persistent == persistent,
{
    AlertRecord {
        project: String::from_str(project),
        component: String::from_str(component),
        severity,
        summary,
        body,
        persistent,
    }
}

/// Classifies one probe outcome of the check `component` of job `project`,
/// against the slow threshold (nanoseconds).
pub fn classify(
    outcome: &ProbeOutcome,
    project: &str,
    component: &str,
    url: &str,
    slow_threshold_ns: u64,
) -> (r: Classification)
    ensures
        r.describes(*outcome, project@, component@, url@, slow_threshold_ns),
{
    let slow = outcome.status == Status::Http(200) && outcome.elapsed_ns > slow_threshold_ns;
    if slow {
        let summary = concat3(project, " Slow ", component);
        let mut body = decimal(outcome.elapsed_ms());
        body.append(" > ");
        push_decimal(&mut body, slow_threshold_ns / 1_000_000);
        body.append(" for ");
        body.append(url);
        body.append(".");
        let ghost a = alert_for(*outcome, project@, component@, url@, slow_threshold_ns).unwrap();
        assert(summary@ =~= a.summary);
        assert(body@ =~= a.body);
        return Classification {
            severity: Severity::Warn,
            alert: Some(record(project, component, Severity::Warn, summary, body, false)),
        };
    }
    match outcome.status {
        Status::Http(c) => {
            if c == 200 {
                Classification { severity: Severity::Silent, alert: None }
            } else if 201 <= c && c <= 299 {
                let mut summary = concat3(project, " ", component);
                summary.append(" Unexpected HTTP ");
                push_decimal(&mut summary, c as u64);
                let mut body = String::from_str(url);
                body.append(" returned HTTP ");
                push_decimal(&mut body, c as u64);
                body.append(", not HTTP 200 OK as expected.");
                let ghost a = alert_for(*outcome, project@, component@, url@, slow_threshold_ns).unwrap();
                assert(summary@ =~= a.summary);
                assert(body@ =~= a.body);
                Classification {
                    severity: Severity::Warn,
                    alert: Some(record(project, component, Severity::Warn, summary, body, false)),
                }
            } else {
                let mut summary = concat3(project, " ", component);
                summary.append(" Down");
                let mut body = String::from_str(url);
                body.append(" returned HTTP ");
                push_decimal(&mut body, c as u64);
                body.append(".");
                let ghost a = alert_for(*outcome, project@, component@, url@, slow_threshold_ns).unwrap();
                assert(summary@ =~= a.summary);
                assert(body@ =~= a.body);
                Classification {
                    severity: Severity::Error,
                    alert: Some(record(project, component, Severity::Error, summary, body, true)),
                }
            }
        },
        Status::TransportFailure => {
            let mut summary = concat3(project, " ", component);
            summary.append(" Down");
            let mut body = String::from_str("The HTTP request to ");
            body.append(url);
            body.append(" could not be completed.");
            let ghost a = alert_for(*outcome, project@, component@, url@, slow_threshold_ns).unwrap();
            assert(summary@ =~= a.summary);
            assert(body@ =~= a.body);
            Classification {
                severity: Severity::Error,
                alert: Some(record(project, component, Severity::Error, summary, body, true)),
            }
        },
    }
}

/// `t` occurs in `s` as a contiguous run of characters.
pub open spec fn contains(s: Seq<char>, t: Seq<char>) -> bool {
    exists|i: int| 0 <= i && i + t.len() <= s.len() && #[trigger] s.subrange(i, i + t.len()) == t
}

/// A 200 within the slow threshold is silent and raises no alert.
pub proof fn lemma_fast_ok_is_silent(
    o: ProbeOutcome,
    project: Seq<char>,
    component: Seq<char>,
    url: Seq<char>,
    slow_threshold_ns: u64,
)
    requires
        o.status == Status::Http(200),
        o.elapsed_ns <= slow_threshold_ns,
    ensures
        severity_of(o, slow_threshold_ns) == Severity::Silent,
        alert_for(o, project, component, url, slow_threshold_ns) is None,
{
}

/// A 200 beyond the slow threshold raises exactly one alert, a Warn, whose body
/// holds both the measured duration and the threshold in milliseconds.
pub proof fn lemma_slow_ok_warns(
    o: ProbeOutcome,
    project: Seq<char>,
    component: Seq<char>,
    url: Seq<char>,
    slow_threshold_ns: u64,
)
    requires
        o.status == Status::Http(200),
        o.elapsed_ns > slow_threshold_ns,
    ensures
        severity_of(o, slow_threshold_ns) == Severity::Warn,
        alert_for(o, project, component, url, slow_threshold_ns) is Some,
        ({
            let a = alert_for(o, project, component, url, slow_threshold_ns).unwrap();
            &&& a.severity == Severity::Warn
            &&& !a.persistent
            &&& contains(a.body, dec(millis(o.elapsed_ns)))
            &&& contains(a.body, dec(millis(slow_threshold_ns)))
        }),
{
    reveal_strlit(" > ");
    reveal_strlit(" for ");
    let a = alert_for(o, project, component, url, slow_threshold_ns).unwrap();
    let d = dec(millis(o.elapsed_ns));
    let t = dec(millis(slow_threshold_ns));
    assert(a.body.subrange(0, 0int + d.len()) =~= d);
    assert(contains(a.body, d));
    let k: int = d.len() as int + 3;
    assert(a.body.subrange(k, k + t.len()) =~= t);
    assert(contains(a.body, t));
}

/// A success status other than 200 warns, naming the status that arrived in
/// both the summary and the body.
pub proof fn lemma_unexpected_status_warns(
    o: ProbeOutcome,
    project: Seq<char>,
    component: Seq<char>,
    url: Seq<char>,
    slow_threshold_ns: u64,
)
    requires
        is_unexpected(o.status),
    ensures
        severity_of(o, slow_threshold_ns) == Severity::Warn,
        alert_for(o, project, component, url, slow_threshold_ns) is Some,
        ({
            let a = alert_for(o, project, component, url, slow_threshold_ns).unwrap();
            let c = status_code(o.status);
            &&& a.severity == Severity::Warn
            &&& !a.persistent
            &&& contains(a.summary, dec(c as nat))
            &&& contains(a.body, dec(c as nat))
        }),
{
    reveal_strlit(" returned HTTP ");
    reveal_strlit(", not HTTP 200 OK as expected.");
    let a = alert_for(o, project, component, url, slow_threshold_ns).unwrap();
    let d = dec(status_code(o.status) as nat);
    let k1: int = a.summary.len() - d.len();
    assert(a.summary.subrange(k1, k1 + d.len()) =~= d);
    let k2: int = url.len() as int + 15;
    assert(a.body.subrange(k2, k2 + d.len()) =~= d);
}

/// A transport failure, or any status outside [200, 299], is an Error whose
/// alert persists until dismissed.
pub proof fn lemma_down_is_error(
    o: ProbeOutcome,
    project: Seq<char>,
    component: Seq<char>,
    url: Seq<char>,
    slow_threshold_ns: u64,
)
    requires
        is_down(o.status),
    ensures
        severity_of(o, slow_threshold_ns) == Severity::Error,
        alert_for(o, project, component, url, slow_threshold_ns) is Some,
        alert_for(o, project, component, url, slow_threshold_ns).unwrap().severity == Severity::Error,
        alert_for(o, project, component, url, slow_threshold_ns).unwrap().persistent,
{
}

} // verus!
