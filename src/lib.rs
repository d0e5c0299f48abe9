//! Probing HTTP endpoints grouped into jobs: classifying each probe, logging it
//! in fixed-width columns, and deciding whether a job goes on or stops.

pub mod classify;
pub mod config;
pub mod log;
pub mod outcome;
pub mod runner;
pub mod schedule;
pub mod text;
