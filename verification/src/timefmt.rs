//! Text for the tray tooltip: a countdown rendered as `"1h 5m"`, `"12m 30s"`
//! or `"45s"`, and the tooltip line naming the upcoming break.

use vstd::prelude::*;

use crate::models::BreakType;
use crate::models::SchedulerState;
use crate::scheduler::spec_time_until;

verus! {

/// The decimal digit `d` as a one-character string view.
pub open spec fn spec_digit(d: int) -> Seq<char> {
    if d == 0 {
        "0"@
    } else if d == 1 {
        "1"@
    } else if d == 2 {
        "2"@
    } else if d == 3 {
        "3"@
    } else if d == 4 {
        "4"@
    } else if d == 5 {
        "5"@
    } else if d == 6 {
        "6"@
    } else if d == 7 {
        "7"@
    } else if d == 8 {
        "8"@
    } else {
        "9"@
    }
}

/// The usual decimal rendering of `n`: most significant digit first, no
/// leading zeros except for `n == 0` itself.
pub open spec fn spec_decimal(n: int) -> Seq<char>
    decreases n,
{
    if n < 10 {
        spec_digit(n)
    } else {
        spec_decimal(n / 10) + spec_digit(n % 10)
    }
}

/// A remaining time of `ms` milliseconds rendered as text: whole hours and
/// minutes once more than an hour of minutes remains, minutes and seconds
/// while at least a minute remains, bare seconds below that.  The boundary is
/// deliberately `minutes > 60`, so exactly 60 minutes still reads `"60m 0s"`.
pub open spec fn spec_time_left_text(ms: u64) -> Seq<char> {
    let total_seconds = ms as int / 1000;
    let minutes = total_seconds / 60;
    let seconds = total_seconds % 60;
    if minutes > 60 {
        spec_decimal(minutes / 60) + "h "@ + spec_decimal(minutes % 60) + "m"@
    } else if minutes > 0 {
        spec_decimal(minutes) + "m "@ + spec_decimal(seconds) + "s"@
    } else {
        spec_decimal(seconds) + "s"@
    }
}

/// How the upcoming break's kind is named in the tooltip.
pub open spec fn spec_break_type_label(bt: Option<BreakType>) -> Seq<char> {
    match bt {
        Some(BreakType::Microbreak) => "Microbreak"@,
        Some(BreakType::Longbreak) => "Long break"@,
        None => "Break"@,
    }
}

/// The whole tooltip at time `now_ms`: the upcoming break's kind and the
/// live countdown to its due time, or a fixed line when nothing is
/// scheduled.
pub open spec fn spec_tooltip(sched: SchedulerState, now_ms: u64) -> Seq<char> {
    match sched.scheduled_break_time {
        Some(t) => "Next: "@ + spec_break_type_label(sched.current_break_type) + " in "@
            + spec_time_left_text(spec_time_until(t, now_ms)),
        None => "No break scheduled"@,
    }
}

/// The decimal digit `d` as a string slice.
fn digit_str(d: u64) -> (s: &'static str)
    requires
        d < 10,
    ensures
        s@ == spec_digit(d as int),
{
    match d {
        0 => "0",
        1 => "1",
        2 => "2",
        3 => "3",
        4 => "4",
        5 => "5",
        6 => "6",
        7 => "7",
        8 => "8",
        _ => "9",
    }
}

/// Appends the decimal rendering of `n` to `out`.
fn push_decimal(n: u64, out: &mut String)
    ensures
        final(out)@ == old(out)@ + spec_decimal(n as int),
    decreases n,
{
    if n >= 10 {
        push_decimal(n / 10, out);
    }
    let d = digit_str(n % 10);
    out.append(d);
    proof {
        if n < 10 {
            assert(n % 10 == n as int);
        } else {
            assert(old(out)@ + spec_decimal(n as int / 10) + spec_digit(n as int % 10)
                =~= old(out)@ + spec_decimal(n as int));
        }
    }
}

/// Renders a remaining time of `ms` milliseconds for the tray tooltip, as
/// `"{hours}h {minutes}m"` above an hour of minutes, `"{minutes}m
/// {seconds}s"` down to a minute, and `"{seconds}s"` below that.
pub fn format_time_left(ms: u64) -> (s: String)
    ensures
        s@ == spec_time_left_text(ms),
{
    let total_seconds = ms / 1000;
    let minutes = total_seconds / 60;
    let seconds = total_seconds % 60;

    let mut s = String::new();
    if minutes > 60 {
        push_decimal(minutes / 60, &mut s);
        s.append("h ");
        push_decimal(minutes % 60, &mut s);
        s.append("m");
        proof {
            assert(Seq::<char>::empty() + spec_decimal(minutes as int / 60) + "h "@
                + spec_decimal(minutes as int % 60) + "m"@ =~= spec_time_left_text(ms));
        }
    } else if minutes > 0 {
        push_decimal(minutes, &mut s);
        s.append("m ");
        push_decimal(seconds, &mut s);
        s.append("s");
        proof {
            assert(Seq::<char>::empty() + spec_decimal(minutes as int) + "m "@
                + spec_decimal(seconds as int) + "s"@ =~= spec_time_left_text(ms));
        }
    } else {
        push_decimal(seconds, &mut s);
        s.append("s");
        proof {
            assert(Seq::<char>::empty() + spec_decimal(seconds as int) + "s"@
                =~= spec_time_left_text(ms));
        }
    }
    s
}

/// The tray tooltip at time `now_ms`: names the upcoming break and how long
/// until it is due, or says that no break is scheduled.
pub fn get_tray_tooltip(sched: &SchedulerState, now_ms: u64) -> (s: String)
    ensures
        s@ == spec_tooltip(*sched, now_ms),
{
    match sched.scheduled_break_time {
        Some(t) => {
            let time_left: u64 = if t >= now_ms {
                t - now_ms
            } else {
                0
            };
            let mut s = String::from_str("Next: ");
            let label = match sched.current_break_type {
                Some(BreakType::Microbreak) => "Microbreak",
                Some(BreakType::Longbreak) => "Long break",
                None => "Break",
            };
            s.append(label);
            s.append(" in ");
            let countdown = format_time_left(time_left);
            s.append(countdown.as_str());
            proof {
                assert("Next: "@ + spec_break_type_label(sched.current_break_type) + " in "@
                    + spec_time_left_text(spec_time_until(t, now_ms)) =~= s@);
            }
            s
        },
        None => String::from_str("No break scheduled"),
    }
}

} // verus!
