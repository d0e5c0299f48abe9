//! The jobs to watch and the settings every probe runs under.
use vstd::prelude::*;

verus! {

pub const VERSION: &'static str = "0.2.1";

/// A 200 that takes longer than this (nanoseconds) is reported as slow.
pub const SLOW_THRESHOLD_NS: u64 = 1_000_000_000;

/// How long one request may take before it counts as a transport failure.
pub const REQUEST_TIMEOUT_SECS: u64 = 10;

/// How long an idle pooled connection is kept.
pub const POOL_IDLE_TIMEOUT_SECS: u64 = 1;

/// The pause between two checks of one job.
pub const CHECK_DELAY_SECS: u64 = 1;

/// One probe target of a job.
#[derive(Clone, Debug)]
pub struct Check {
    pub url: String,
    pub component: String,
}

/// An ordered group of checks, run in order, sharing one redirect limit.
#[derive(Clone, Debug)]
pub struct Job {
    pub project: String,
    pub redirects: usize,
    pub checks: Vec<Check>,
}

impl Check {
    pub fn new(url: &str, component: &str) -> (r: Check)
        ensures
            r.url@ == url@,
            r.component@ == component@,
    {
        Check { url: String::from_str(url), component: String::from_str(component) }
    }
}

impl Job {
    pub fn new(project: &str, redirects: usize, checks: Vec<Check>) -> (r: Job)
        ensures
            r.project@ == project@,
            r.redirects == redirects,
            r.checks == checks,
    {
        Job { project: String::from_str(project), redirects, checks }
    }
}

/// The user agent that every request sends.
pub fn user_agent() -> (r: String)
    ensures
        r@ == "DDR's Watcher "@ + VERSION@,
{
    let mut s = String::from_str("DDR's Watcher ");
    s.append(VERSION);
    s
}

/// The jobs this watcher runs.
pub fn jobs() -> (r: Vec<Job>)
    ensures
        r.len() == 2,
        r[0].project@ == "ddr0.ca"@,
        r[0].redirects == 0,
        r[0].checks.len() == 3,
        r[0].checks[0].component@ == "Gallery"@,
        r[0].checks[0].url@ == "https://ddr0.ca/gallery.html"@,
        r[0].checks[1].component@ == "Roller"@,
        r[0].checks[1].url@ == "https://ddr0.ca/\u{2682}/"@,
        r[0].checks[2].component@ == "Roller Backend"@,
        r[0].checks[2].url@ == "https://ddr0.ca/\u{2682}/ws/socket.io.js"@,
        r[1].project@ == "ravelights.ca"@,
        r[1].redirects == 2,
        r[1].checks.len() == 2,
        r[1].checks[0].component@ == "Landing Page"@,
        r[1].checks[0].url@ == "https://ravelights.ca/"@,
        r[1].checks[1].component@ == "Redirect"@,
        r[1].checks[1].url@ == "https://flaketechnologies.ca/"@,
{
    let mut first: Vec<Check> = Vec::new();
    first.push(Check::new("https://ddr0.ca/gallery.html", "Gallery"));
    first.push(Check::new("https://ddr0.ca/\u{2682}/", "Roller"));
    first.push(Check::new("https://ddr0.ca/\u{2682}/ws/socket.io.js", "Roller Backend"));
    let mut second: Vec<Check> = Vec::new();
    second.push(Check::new("https://ravelights.ca/", "Landing Page"));
    second.push(Check::new("https://flaketechnologies.ca/", "Redirect"));
    let mut all: Vec<Job> = Vec::new();
    all.push(Job::new("ddr0.ca", 0, first));
    all.push(Job::new("ravelights.ca", 2, second));
    all
}

} // verus!
