//! Durations as text.
//!
//! Every part of a clock reading is written with two digits at least, and
//! with more where the number needs them. Hundredths of a second are cut
//! off, not rounded.

use crate::timestamp::{Duration, NANOS_PER_SEC};
use vstd::prelude::*;
use vstd::string::*;

verus! {

/// The nanoseconds in a hundredth of a second.
pub const NANOS_PER_HUNDREDTH: u64 = 10_000_000;

/// The character of a decimal digit.
pub open spec fn digit(d: nat) -> char {
    if d == 0 {
        '0'
    } else if d == 1 {
        '1'
    } else if d == 2 {
        '2'
    } else if d == 3 {
        '3'
    } else if d == 4 {
        '4'
    } else if d == 5 {
        '5'
    } else if d == 6 {
        '6'
    } else if d == 7 {
        '7'
    } else if d == 8 {
        '8'
    } else {
        '9'
    }
}

/// A number in decimal digits, without leading zeros.
pub open spec fn decimal(n: nat) -> Seq<char>
    decreases n,
{
    if n < 10 {
        seq![digit(n)]
    } else {
        decimal(n / 10).push(digit(n % 10))
    }
}

/// A number in decimal digits, with a leading zero if it has one digit only.
pub open spec fn two_digits(n: nat) -> Seq<char> {
    if n < 10 {
        seq!['0', digit(n)]
    } else {
        decimal(n)
    }
}

/// The whole hours in a duration.
pub open spec fn hours_of(duration: Duration) -> nat {
    (duration.nanos / NANOS_PER_SEC / 3600) as nat
}

/// The whole minutes in a duration beyond its whole hours.
pub open spec fn minutes_of(duration: Duration) -> nat {
    (duration.nanos / NANOS_PER_SEC % 3600 / 60) as nat
}

/// The whole seconds in a duration beyond its whole minutes.
pub open spec fn seconds_of(duration: Duration) -> nat {
    (duration.nanos / NANOS_PER_SEC % 60) as nat
}

/// The whole hundredths of a second in a duration beyond its whole seconds.
pub open spec fn hundredths_of(duration: Duration) -> nat {
    (duration.nanos % NANOS_PER_SEC / NANOS_PER_HUNDREDTH) as nat
}

/// Hours, minutes and seconds, as in `01:02:03`.
pub open spec fn concise_text(duration: Duration) -> Seq<char> {
    two_digits(hours_of(duration)) + seq![':'] + two_digits(minutes_of(duration)) + seq![':']
        + two_digits(seconds_of(duration))
}

/// Hours, minutes, seconds and hundredths, as in `01:02:03.45`.
pub open spec fn detailed_text(duration: Duration) -> Seq<char> {
    concise_text(duration) + seq!['.'] + two_digits(hundredths_of(duration))
}

/// Minutes, seconds and hundredths, as in `02:03.45`, with the hours in
/// front once there is a whole hour.
pub open spec fn game_time_text(duration: Duration) -> Seq<char> {
    if hours_of(duration) > 0 {
        detailed_text(duration)
    } else {
        two_digits(minutes_of(duration)) + seq![':'] + two_digits(seconds_of(duration))
            + seq!['.'] + two_digits(hundredths_of(duration))
    }
}

/// All the minutes of a duration and its seconds beyond them, as in `62:03`;
/// `00:00` where there is no duration.
pub open spec fn stats_text(duration: Option<Duration>) -> Seq<char> {
    let nanos = match duration {
        Some(d) => d.nanos,
        None => 0,
    };
    two_digits((nanos / NANOS_PER_SEC / 60) as nat) + seq![':'] + two_digits(
        (nanos / NANOS_PER_SEC % 60) as nat,
    )
}

fn digit_str(d: u64) -> (text: &'static str)
    requires
        d < 10,
    ensures
        text@ == seq![digit(d as nat)],
{
    proof {
        reveal_strlit("0");
        reveal_strlit("1");
        reveal_strlit("2");
        reveal_strlit("3");
        reveal_strlit("4");
        reveal_strlit("5");
        reveal_strlit("6");
        reveal_strlit("7");
        reveal_strlit("8");
        reveal_strlit("9");
    }
    let text = if d == 0 {
        "0"
    } else if d == 1 {
        "1"
    } else if d == 2 {
        "2"
    } else if d == 3 {
        "3"
    } else if d == 4 {
        "4"
    } else if d == 5 {
        "5"
    } else if d == 6 {
        "6"
    } else if d == 7 {
        "7"
    } else if d == 8 {
        "8"
    } else {
        "9"
    };
    text
}

fn push_decimal(text: &mut String, n: u64)
    ensures
        final(text)@ == old(text)@ + decimal(n as nat),
    decreases n,
{
    if n >= 10 {
        push_decimal(text, n / 10);
    }
    text.append(digit_str(n % 10));
}

fn push_two_digits(text: &mut String, n: u64)
    ensures
        final(text)@ == old(text)@ + two_digits(n as nat),
{
    if n < 10 {
        text.append("0");
    }
    push_decimal(text, n);
    proof {
        reveal_strlit("0");
    }
}

fn push_separator(text: &mut String, separator: &'static str)
    ensures
        final(text)@ == old(text)@ + separator@,
{
    text.append(separator);
}

/// A duration as hours, minutes and seconds.
pub fn format_duration_concise(duration: Duration) -> (text: String)
    ensures
        text@ == concise_text(duration),
{
    let total_seconds = duration.as_secs();
    let hours = total_seconds / 3600;
    let minutes = (total_seconds % 3600) / 60;
    let seconds = total_seconds % 60;

    let mut text = String::new();
    push_two_digits(&mut text, hours);
    push_separator(&mut text, ":");
    push_two_digits(&mut text, minutes);
    push_separator(&mut text, ":");
    push_two_digits(&mut text, seconds);
    proof {
        reveal_strlit(":");
    }
    text
}

/// A duration as hours, minutes, seconds and hundredths of a second.
pub fn format_duration_detailed(duration: Duration) -> (text: String)
    ensures
        text@ == detailed_text(duration),
{
    let hundredths = duration.subsec_nanos() / NANOS_PER_HUNDREDTH;

    let mut text = format_duration_concise(duration);
    push_separator(&mut text, ".");
    push_two_digits(&mut text, hundredths);
    proof {
        reveal_strlit(".");
    }
    text
}

/// The time that a game took: minutes, seconds and hundredths, and hours
/// only if it took that long.
pub fn format_duration(duration: Duration) -> (text: String)
    ensures
        text@ == game_time_text(duration),
{
    let total_seconds = duration.as_secs();
    let hours = total_seconds / 3600;
    let minutes = (total_seconds % 3600) / 60;
    let seconds = total_seconds % 60;
    let hundredths = duration.subsec_nanos() / NANOS_PER_HUNDREDTH;

    if hours > 0 {
        format_duration_detailed(duration)
    } else {
        let mut text = String::new();
        push_two_digits(&mut text, minutes);
        push_separator(&mut text, ":");
        push_two_digits(&mut text, seconds);
        push_separator(&mut text, ".");
        push_two_digits(&mut text, hundredths);
        proof {
            reveal_strlit(":");
            reveal_strlit(".");
        }
        text
    }
}

/// A duration of the statistics as minutes and seconds; no duration reads
/// as zero.
pub fn format_duration_stats(duration: Option<Duration>) -> (text: String)
    ensures
        text@ == stats_text(duration),
{
    let total_seconds = match duration {
        Some(d) => d.as_secs(),
        None => 0,
    };
    let minutes = total_seconds / 60;
    let seconds = total_seconds % 60;

    let mut text = String::new();
    push_two_digits(&mut text, minutes);
    push_separator(&mut text, ":");
    push_two_digits(&mut text, seconds);
    proof {
        reveal_strlit(":");
    }
    text
}

} // verus!
