//! Human-readable rendering of an hours value.
//!
//! The coarsest sensible unit breakdown is chosen by thresholds: below
//! 0.016 hours seconds only, below one hour minutes (plus leftover
//! seconds), below one working day hours (plus leftover minutes), above
//! that days (plus leftover hours), where a day is the calendar's
//! `number_of_hours_per_day` hours. The short mode writes "2h 5m", the
//! long mode "2 hours and 5 minutes"; both pick units the same way.
//! Values are truncated to whole seconds before rendering.

use vstd::prelude::*;
use crate::calendar::ConfTimeUnit;
use crate::rat::Rat;

verus! {

/// The decimal digit character for `d` (0 to 9).
pub open spec fn digit_char(d: int) -> char {
    if d == 1 {
        '1'
    } else if d == 2 {
        '2'
    } else if d == 3 {
        '3'
    } else if d == 4 {
        '4'
    } else if d == 5 {
        '5'
    } else if d == 6 {
        '6'
    } else if d == 7 {
        '7'
    } else if d == 8 {
        '8'
    } else if d == 9 {
        '9'
    } else {
        '0'
    }
}

/// The decimal digit string of a non-negative integer, most significant
/// digit first, without leading zeroes (except for zero itself).
pub open spec fn dec_digits(n: int) -> Seq<char>
    decreases n,
{
    if n < 10 {
        seq![digit_char(n)]
    } else {
        dec_digits(n / 10).push(digit_char(n % 10))
    }
}

/// An hours value `n / d`, truncated to whole seconds.
pub open spec fn total_seconds(n: int, d: int) -> int {
    (n * 3600) / d
}

/// The seconds-only rendering of `s` seconds.
pub open spec fn spec_seconds_label(s: int, short: bool) -> Seq<char> {
    if short {
        dec_digits(s) + "s"@
    } else {
        dec_digits(s) + " seconds"@
    }
}

/// The minutes rendering of `s` seconds: whole minutes, plus the leftover
/// seconds when there are any.
pub open spec fn spec_minutes_label(s: int, short: bool) -> Seq<char> {
    let m = s / 60;
    let rem = s % 60;
    if rem > 0 {
        if short {
            dec_digits(m) + "m "@ + dec_digits(rem) + "s"@
        } else {
            dec_digits(m) + " minutes and "@ + dec_digits(rem) + " seconds"@
        }
    } else {
        if short {
            dec_digits(m) + "m"@
        } else {
            dec_digits(m) + " minutes"@
        }
    }
}

/// The hours rendering of `s` seconds: whole hours, plus the leftover
/// minutes when there are any.
pub open spec fn spec_hours_label(s: int, short: bool) -> Seq<char> {
    let h = s / 3600;
    let m = (s / 60) % 60;
    if m > 0 {
        if short {
            dec_digits(h) + "h "@ + dec_digits(m) + "m"@
        } else {
            dec_digits(h) + " hours and "@ + dec_digits(m) + " minutes"@
        }
    } else {
        if short {
            dec_digits(h) + "h"@
        } else {
            dec_digits(h) + " hours"@
        }
    }
}

/// The days rendering of `s` seconds under a working day of `hpd` hours:
/// whole days, plus the leftover hours when there are any.
pub open spec fn spec_days_label(s: int, hpd: int, short: bool) -> Seq<char> {
    let dd = s / 3600 / hpd;
    let hh = (s / 3600) % hpd;
    if hh == 0 {
        if short {
            dec_digits(dd) + "d"@
        } else {
            dec_digits(dd) + " days"@
        }
    } else {
        if short {
            dec_digits(dd) + "d "@ + dec_digits(hh) + "h"@
        } else {
            dec_digits(dd) + " days and "@ + dec_digits(hh) + " hours"@
        }
    }
}

/// The full rendering of the hours value `n / d`: seconds below 0.016
/// hours, minutes below one hour, hours below one working day, days
/// otherwise.
pub open spec fn spec_human_duration(n: int, d: int, short: bool, c: ConfTimeUnit) -> Seq<char> {
    let s = total_seconds(n, d);
    if n * 1000 < 16 * d {
        spec_seconds_label(s, short)
    } else if n < d {
        spec_minutes_label(s, short)
    } else if n < c.number_of_hours_per_day * d {
        spec_hours_label(s, short)
    } else {
        spec_days_label(s, c.number_of_hours_per_day as int, short)
    }
}

/// The single-character string of one decimal digit.
fn digit_str(d: u128) -> (r: &'static str)
    requires
        d < 10,
    ensures
        r@ == seq![digit_char(d as int)],
{
    if d == 0 {
        proof {
            reveal_strlit("0");
            assert("0"@ =~= seq![digit_char(0)]);
        }
        "0"
    } else if d == 1 {
        proof {
            reveal_strlit("1");
            assert("1"@ =~= seq![digit_char(1)]);
        }
        "1"
    } else if d == 2 {
        proof {
            reveal_strlit("2");
            assert("2"@ =~= seq![digit_char(2)]);
        }
        "2"
    } else if d == 3 {
        proof {
            reveal_strlit("3");
            assert("3"@ =~= seq![digit_char(3)]);
        }
        "3"
    } else if d == 4 {
        proof {
            reveal_strlit("4");
            assert("4"@ =~= seq![digit_char(4)]);
        }
        "4"
    } else if d == 5 {
        proof {
            reveal_strlit("5");
            assert("5"@ =~= seq![digit_char(5)]);
        }
        "5"
    } else if d == 6 {
        proof {
            reveal_strlit("6");
            assert("6"@ =~= seq![digit_char(6)]);
        }
        "6"
    } else if d == 7 {
        proof {
            reveal_strlit("7");
            assert("7"@ =~= seq![digit_char(7)]);
        }
        "7"
    } else if d == 8 {
        proof {
            reveal_strlit("8");
            assert("8"@ =~= seq![digit_char(8)]);
        }
        "8"
    } else {
        proof {
            reveal_strlit("9");
            assert("9"@ =~= seq![digit_char(9)]);
        }
        "9"
    }
}

/// Renders a non-negative integer in decimal.
pub fn dec_string(n: u128) -> (r: String)
    ensures
        r@ == dec_digits(n as int),
    decreases n,
{
    if n < 10 {
        let s = String::from_str(digit_str(n));
        proof {
            assert(s@ =~= dec_digits(n as int));
        }
        s
    } else {
        let mut s = dec_string(n / 10);
        s.append(digit_str(n % 10));
        proof {
            assert(s@ =~= dec_digits(n as int));
        }
        s
    }
}

/// Whole seconds of the hours value `val`, truncated.
fn seconds_of(val: Rat) -> (r: u128)
    requires
        val.wf(),
        0 <= val.num <= 10_000_000_000_000_000_000_000_000_000_000_000,
        val.den <= 10_000_000_000_000_000_000_000_000_000_000_000,
    ensures
        r == total_seconds(val.num as int, val.den as int),
{
    ((val.num as u128) * 3600) / (val.den as u128)
}

/// Renders an hours value as minutes, plus leftover seconds when present.
pub fn label_hours_to_minutes(val: Rat, short: bool) -> (r: String)
    requires
        val.wf(),
        0 <= val.num <= 10_000_000_000_000_000_000_000_000_000_000_000,
        val.den <= 10_000_000_000_000_000_000_000_000_000_000_000,
    ensures
        r@ == spec_minutes_label(total_seconds(val.num as int, val.den as int), short),
{
    let seconds = seconds_of(val);
    let minutes = seconds / 60;
    let remaining_seconds = seconds % 60;
    let ghost sp = spec_minutes_label(total_seconds(val.num as int, val.den as int), short);
    if remaining_seconds > 0 {
        let mut out = dec_string(minutes);
        if short {
            out.append("m ");
            let tail = dec_string(remaining_seconds);
            out.append(tail.as_str());
            out.append("s");
            proof {
                assert(out@ =~= sp);
            }
            out
        } else {
            out.append(" minutes and ");
            let tail = dec_string(remaining_seconds);
            out.append(tail.as_str());
            out.append(" seconds");
            proof {
                assert(out@ =~= sp);
            }
            out
        }
    } else {
        let mut out = dec_string(minutes);
        if short {
            out.append("m");
        } else {
            out.append(" minutes");
        }
        proof {
            assert(out@ =~= sp);
        }
        out
    }
}

/// Renders an hours value as hours, plus leftover minutes when present.
pub fn label_hours_to_hours_minutes(val: Rat, short: bool) -> (r: String)
    requires
        val.wf(),
        0 <= val.num <= 10_000_000_000_000_000_000_000_000_000_000_000,
        val.den <= 10_000_000_000_000_000_000_000_000_000_000_000,
    ensures
        r@ == spec_hours_label(total_seconds(val.num as int, val.den as int), short),
{
    let seconds = seconds_of(val);
    let hours = seconds / 3600;
    let minutes = (seconds / 60) % 60;
    let ghost sp = spec_hours_label(total_seconds(val.num as int, val.den as int), short);
    if minutes > 0 {
        let mut out = dec_string(hours);
        if short {
            out.append("h ");
            let tail = dec_string(minutes);
            out.append(tail.as_str());
            out.append("m");
            proof {
                assert(out@ =~= sp);
            }
            out
        } else {
            out.append(" hours and ");
            let tail = dec_string(minutes);
            out.append(tail.as_str());
            out.append(" minutes");
            proof {
                assert(out@ =~= sp);
            }
            out
        }
    } else {
        let mut out = dec_string(hours);
        if short {
            out.append("h");
        } else {
            out.append(" hours");
        }
        proof {
            assert(out@ =~= sp);
        }
        out
    }
}

/// Renders an hours value as working days, plus leftover hours when
/// present; a day is `conf.number_of_hours_per_day` hours.
pub fn label_hours_to_days_hours(val: Rat, short: bool, conf: &ConfTimeUnit) -> (r: String)
    requires
        conf.wf(),
        val.wf(),
        0 <= val.num <= 10_000_000_000_000_000_000_000_000_000_000_000,
        val.den <= 10_000_000_000_000_000_000_000_000_000_000_000,
    ensures
        r@ == spec_days_label(
            total_seconds(val.num as int, val.den as int),
            conf.number_of_hours_per_day as int,
            short,
        ),
{
    let seconds = seconds_of(val);
    let hpd = conf.number_of_hours_per_day as u128;
    let days = seconds / 3600 / hpd;
    let hours = (seconds / 3600) % hpd;
    let ghost sp = spec_days_label(
        total_seconds(val.num as int, val.den as int),
        conf.number_of_hours_per_day as int,
        short,
    );
    if hours == 0 {
        let mut out = dec_string(days);
        if short {
            out.append("d");
        } else {
            out.append(" days");
        }
        proof {
            assert(out@ =~= sp);
        }
        out
    } else {
        let mut out = dec_string(days);
        if short {
            out.append("d ");
            let tail = dec_string(hours);
            out.append(tail.as_str());
            out.append("h");
            proof {
                assert(out@ =~= sp);
            }
            out
        } else {
            out.append(" days and ");
            let tail = dec_string(hours);
            out.append(tail.as_str());
            out.append(" hours");
            proof {
                assert(out@ =~= sp);
            }
            out
        }
    }
}

/// Renders an hours value in the coarsest sensible unit: seconds below
/// 0.016 hours, minutes below one hour, hours below one working day, days
/// otherwise.
pub fn value_to_human_duration(val: Rat, short: bool, conf: &ConfTimeUnit) -> (r: String)
    requires
        conf.wf(),
        val.wf(),
        0 <= val.num <= 10_000_000_000_000_000_000_000_000_000_000_000,
        val.den <= 10_000_000_000_000_000_000_000_000_000_000_000,
    ensures
        r@ == spec_human_duration(val.num as int, val.den as int, short, *conf),
{
    let hpd = conf.number_of_hours_per_day as i128;
    proof {
        assert(0 < hpd * val.den <= 24 * 10_000_000_000_000_000_000_000_000_000_000_000)
            by (nonlinear_arith)
            requires
                0 < hpd <= 24,
                0 < val.den <= 10_000_000_000_000_000_000_000_000_000_000_000;
    }
    if val.num * 1000 < 16 * val.den {
        let seconds = seconds_of(val);
        let mut out = dec_string(seconds);
        if short {
            out.append("s");
        } else {
            out.append(" seconds");
        }
        proof {
            assert(out@ =~= spec_human_duration(val.num as int, val.den as int, short, *conf));
        }
        out
    } else if val.num < val.den {
        label_hours_to_minutes(val, short)
    } else if val.num < hpd * val.den {
        label_hours_to_hours_minutes(val, short)
    } else {
        label_hours_to_days_hours(val, short, conf)
    }
}

/// Renders an axis tick for a cumulative-hours value, in short form;
/// non-positive values get no label.
pub fn format_axis_label(val: Rat, conf: &ConfTimeUnit) -> (r: String)
    requires
        conf.wf(),
        val.wf(),
        val.num <= 10_000_000_000_000_000_000_000_000_000_000_000,
        val.den <= 10_000_000_000_000_000_000_000_000_000_000_000,
    ensures
        val.num <= 0 ==> r@ == Seq::<char>::empty(),
        val.num > 0 ==> r@ == spec_human_duration(val.num as int, val.den as int, true, *conf),
{
    if val.num <= 0 {
        String::new()
    } else {
        value_to_human_duration(val, true, conf)
    }
}

} // verus!
