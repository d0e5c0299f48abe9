//! The fixed-width line recorded for every probe: timestamp (11 columns,
//! right-justified), status (3, right), elapsed milliseconds (6, right) and
//! URL (50, left, cut to fit).
use vstd::prelude::*;
use crate::outcome::{ProbeOutcome, millis, status_code};
use crate::text::{
    dec, signed_dec, pad_left, pad_right, truncate, decimal, signed_decimal, push_padded_left,
    push_cut_padded_right,
};

verus! {

pub const TIMESTAMP_WIDTH: usize = 11;
pub const STATUS_WIDTH: usize = 3;
pub const ELAPSED_WIDTH: usize = 6;
pub const URL_WIDTH: usize = 50;

/// The record of one probe of `url`.
pub open spec fn log_record(o: ProbeOutcome, url: Seq<char>) -> Seq<char> {
    pad_left(dec(o.timestamp_secs as nat), TIMESTAMP_WIDTH as nat) + ", "@
        + pad_left(signed_dec(status_code(o.status)), STATUS_WIDTH as nat) + ", "@
        + pad_left(dec(millis(o.elapsed_ns)), ELAPSED_WIDTH as nat) + ", "@
        + pad_right(truncate(url, URL_WIDTH as nat), URL_WIDTH as nat)
}

/// Formats the record of one probe of `url`.
pub fn log_line(outcome: &ProbeOutcome, url: &str) -> (r: String)
    ensures
        r@ == log_record(*outcome, url@),
{
    let mut line = String::new();
    let ts = decimal(outcome.timestamp_secs);
    push_padded_left(&mut line, ts.as_str(), TIMESTAMP_WIDTH);
    line.append(", ");
    let status = signed_decimal(outcome.status.code());
    push_padded_left(&mut line, status.as_str(), STATUS_WIDTH);
    line.append(", ");
    let ms = decimal(outcome.elapsed_ms());
    push_padded_left(&mut line, ms.as_str(), ELAPSED_WIDTH);
    line.append(", ");
    push_cut_padded_right(&mut line, url, URL_WIDTH);
    assert(line@ =~= log_record(*outcome, url@));
    line
}

} // verus!
