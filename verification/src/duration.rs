//! Rendering a length of time as `[hh:mm:ss]` style text.

use crate::text::{padded2, push_padded2};
use core::time::Duration;
use vstd::prelude::*;
use vstd::string::*;

verus! {

/// The whole seconds that a `Duration` holds.
pub uninterp spec fn duration_secs(d: Duration) -> u64;

/// `Duration::as_secs` returns the number of whole seconds contained in the
/// duration; the fractional part is dropped.
pub assume_specification[ Duration::as_secs ](d: &Duration) -> (secs: u64)
    ensures
        secs == duration_secs(*d),
;

/// The hours part of a length of `total_secs` seconds.
pub open spec fn hours_part(total_secs: nat) -> nat {
    total_secs / 3600
}

/// The minutes part, below sixty.
pub open spec fn minutes_part(total_secs: nat) -> nat {
    (total_secs / 60) % 60
}

/// The seconds part, below sixty.
pub open spec fn seconds_part(total_secs: nat) -> nat {
    total_secs % 60
}

/// The text for a length of `total_secs` seconds: `[MMm:SSs]` below one hour,
/// `[HHh:MMm:SSs]` from one hour on, each part padded to two digits.
pub open spec fn duration_text(total_secs: nat) -> Seq<char> {
    if hours_part(total_secs) > 0 {
        seq!['['] + padded2(hours_part(total_secs)) + seq!['h', ':'] + padded2(
            minutes_part(total_secs),
        ) + seq!['m', ':'] + padded2(seconds_part(total_secs)) + seq!['s', ']']
    } else {
        seq!['['] + padded2(minutes_part(total_secs)) + seq!['m', ':'] + padded2(
            seconds_part(total_secs),
        ) + seq!['s', ']']
    }
}

/// Formats a number of whole seconds.
pub fn format_secs(total_secs: u64) -> (text: String)
    ensures
        text@ == duration_text(total_secs as nat),
{
    let total_mins: u64 = total_secs / 60;
    let hours: u64 = total_mins / 60;
    let mins: u64 = total_mins % 60;
    let secs: u64 = total_secs % 60;
    assert(hours as nat == hours_part(total_secs as nat)) by (nonlinear_arith)
        requires
            hours == (total_secs / 60) / 60,
    ;
    let mut text = String::new();
    text.push('[');
    if hours > 0 {
        push_padded2(&mut text, hours);
        text.push('h');
        text.push(':');
    }
    push_padded2(&mut text, mins);
    text.push('m');
    text.push(':');
    push_padded2(&mut text, secs);
    text.push('s');
    text.push(']');
    text
}

/// Helper function to format a duration.
pub fn format_duration(dur: &Duration) -> (text: String)
    ensures
        text@ == duration_text(duration_secs(*dur) as nat),
{
    format_secs(dur.as_secs())
}

} // verus!
