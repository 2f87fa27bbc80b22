//! Date & Time page logic: the text of the live clock.

use vstd::prelude::*;
use crate::text::{push_char, push_decimal, push_signed_decimal, push_str, decimal, signed_decimal};

verus! {

/// `{:02}`: at least two digits, zero-padded.
pub open spec fn two_digits(n: nat) -> Seq<char> {
    if n < 10 {
        seq!['0'] + decimal(n)
    } else {
        decimal(n)
    }
}

fn push_two_digits(s: &mut String, n: u32)
    ensures
        final(s)@ == old(s)@ + two_digits(n as nat),
{
    if n < 10 {
        push_char(s, '0');
    }
    push_decimal(s, n as u64);
    assert(final(s)@ =~= old(s)@ + two_digits(n as nat));
}

/// Hour on a 12-hour clock: 12 for midnight and noon.
pub open spec fn twelve_hour(hour: u32) -> nat {
    if hour % 12 == 0 {
        12
    } else {
        (hour % 12) as nat
    }
}

/// "Sep 12, 2026 at 12:56:08 PM" (12h) or "Sep 12, 2026 at 13:56:08"
/// (24h) for a local time given as month abbreviation, day of month,
/// year, hour, minute and second.
pub open spec fn clock_spec(
    month: Seq<char>,
    day: i32,
    year: i32,
    hour: u32,
    minute: u32,
    second: u32,
    use_24h: bool,
) -> Seq<char> {
    let date = month + " "@ + signed_decimal(day as int) + ", "@ + signed_decimal(year as int);
    let time = if use_24h {
        two_digits(hour as nat) + ":"@ + two_digits(minute as nat) + ":"@ + two_digits(
            second as nat,
        )
    } else {
        decimal(twelve_hour(hour)) + ":"@ + two_digits(minute as nat) + ":"@ + two_digits(
            second as nat,
        ) + " "@ + (if hour < 12 {
            "AM"@
        } else {
            "PM"@
        })
    };
    date + " at "@ + time
}

/// The clock text for a local time (see `clock_spec`).
pub fn clock_text(
    month: &str,
    day: i32,
    year: i32,
    hour: u32,
    minute: u32,
    second: u32,
    use_24h: bool,
) -> (text: String)
    ensures
        text@ == clock_spec(month@, day, year, hour, minute, second, use_24h),
{
    let mut text = String::new();
    push_str(&mut text, month);
    push_str(&mut text, " ");
    push_signed_decimal(&mut text, day as i64);
    push_str(&mut text, ", ");
    push_signed_decimal(&mut text, year as i64);
    push_str(&mut text, " at ");
    let ghost date_at = text@;
    if use_24h {
        push_two_digits(&mut text, hour);
        push_str(&mut text, ":");
        push_two_digits(&mut text, minute);
        push_str(&mut text, ":");
        push_two_digits(&mut text, second);
    } else {
        let h = hour % 12;
        let h = if h == 0 {
            12
        } else {
            h
        };
        push_decimal(&mut text, h as u64);
        push_str(&mut text, ":");
        push_two_digits(&mut text, minute);
        push_str(&mut text, ":");
        push_two_digits(&mut text, second);
        push_str(&mut text, " ");
        if hour < 12 {
            push_str(&mut text, "AM");
        } else {
            push_str(&mut text, "PM");
        }
    }
    assert(text@ =~= clock_spec(month@, day, year, hour, minute, second, use_24h));
    text
}

/// On the 12-hour clock the text ends in `AM` for every hour before noon
/// and in `PM` from noon on, and the hour shown (1 to 12) together with
/// that suffix gives back the hour of the day.
pub proof fn law_twelve_hour_clock(
    month: Seq<char>,
    day: i32,
    year: i32,
    hour: u32,
    minute: u32,
    second: u32,
)
    requires
        hour < 24,
    ensures
        ({
            let t = clock_spec(month, day, year, hour, minute, second, false);
            &&& t.len() >= 2
            &&& t.subrange(t.len() - 2, t.len() as int) == (if hour < 12 {
                seq!['A', 'M']
            } else {
                seq!['P', 'M']
            })
        }),
        1 <= twelve_hour(hour) <= 12,
        hour == twelve_hour(hour) % 12 + (if hour < 12 { 0int } else { 12int }),
{
    reveal_strlit("AM");
    reveal_strlit("PM");
    let t = clock_spec(month, day, year, hour, minute, second, false);
    let m = if hour < 12 { "AM"@ } else { "PM"@ };
    let head = month + " "@ + signed_decimal(day as int) + ", "@ + signed_decimal(year as int)
        + " at "@ + decimal(twelve_hour(hour)) + ":"@ + two_digits(minute as nat) + ":"@
        + two_digits(second as nat) + " "@;
    assert(t =~= head + m);
    assert(t.subrange(t.len() - 2, t.len() as int) =~= m);
}

} // verus!
