//! The countdown as text.

use vstd::prelude::*;
use vstd::arithmetic::div_mod::lemma_div_denominator;
use vstd::string::*;
use crate::instant::MILLIS_PER_SECOND;
use crate::mode::PomodoroMode;

verus! {

/// Seconds in one minute.
pub const SECONDS_PER_MINUTE: i64 = 60;

/// Seconds in one hour.
pub const SECONDS_PER_HOUR: i64 = 3_600;

/// How many whole units of `unit` lie in `amount`, rounded toward zero.
pub open spec fn whole(amount: int, unit: int) -> int
    recommends
        unit > 0,
{
    if amount >= 0 {
        amount / unit
    } else {
        -((-amount) / unit)
    }
}

/// What is left of `amount` once its whole units of `unit` are taken out.
/// It has the sign of `amount`.
pub open spec fn rest(amount: int, unit: int) -> int
    recommends
        unit > 0,
{
    amount - whole(amount, unit) * unit
}

/// The whole seconds in a duration of `millis` milliseconds.
pub open spec fn total_seconds(millis: int) -> int {
    whole(millis, MILLIS_PER_SECOND as int)
}

/// The hours field of the countdown: all the whole hours of the duration.
pub open spec fn hours_field(millis: int) -> int {
    whole(total_seconds(millis), SECONDS_PER_HOUR as int)
}

/// The minutes field of the countdown: all the whole minutes of the
/// duration, those that make up its hours included.
pub open spec fn minutes_field(millis: int) -> int {
    whole(total_seconds(millis), SECONDS_PER_MINUTE as int)
}

/// The seconds field of the countdown: the whole seconds of the duration
/// beyond its whole minutes.
pub open spec fn seconds_field(millis: int) -> int {
    rest(total_seconds(millis), SECONDS_PER_MINUTE as int)
}

/// The character for the decimal digit `d`.
pub open spec fn digit_char(d: int) -> char
    recommends
        0 <= d < 10,
{
    seq!['0', '1', '2', '3', '4', '5', '6', '7', '8', '9'][d]
}

/// `n` in decimal, without leading zeros.
pub open spec fn decimal(n: nat) -> Seq<char>
    decreases n,
{
    if n < 10 {
        seq![digit_char(n as int)]
    } else {
        decimal(n / 10).push(digit_char((n % 10) as int))
    }
}

/// `v` in decimal and at least two characters wide: a single digit gets a
/// zero in front, a negative number its minus sign.
pub open spec fn two_wide(v: int) -> Seq<char> {
    if v < 0 {
        seq!['-'] + decimal((-v) as nat)
    } else if v < 10 {
        seq!['0'] + decimal(v as nat)
    } else {
        decimal(v as nat)
    }
}

/// The countdown text for a duration of `millis` milliseconds in `mode`:
/// the hours, minutes and seconds fields, each at least two characters
/// wide and separated by colons, then a space and the mode's label.
pub open spec fn duration_text(millis: int, mode: PomodoroMode) -> Seq<char> {
    two_wide(hours_field(millis)) + seq![':'] + two_wide(minutes_field(millis)) + seq![':']
        + two_wide(seconds_field(millis)) + seq![' '] + mode.label_text()
}

/// The one-character text of the decimal digit `d`.
fn digit_str(d: u64) -> (text: &'static str)
    requires
        d < 10,
    ensures
        text@ == seq![digit_char(d as int)],
{
    proof {
        reveal_strlit("0");
        reveal_strlit("1");
        reveal_strlit("2");
        reveal_strlit("3");
        reveal_strlit("4");
        reveal_strlit("5");
        reveal_strlit("6");
        reveal_strlit("7");
        reveal_strlit("8");
        reveal_strlit("9");
    }
    let text = if d == 0 {
        "0"
    } else if d == 1 {
        "1"
    } else if d == 2 {
        "2"
    } else if d == 3 {
        "3"
    } else if d == 4 {
        "4"
    } else if d == 5 {
        "5"
    } else if d == 6 {
        "6"
    } else if d == 7 {
        "7"
    } else if d == 8 {
        "8"
    } else {
        "9"
    };
    assert(text@ =~= seq![digit_char(d as int)]);
    text
}

/// Appends `n` in decimal to `text`.
fn push_decimal(text: &mut String, n: u64)
    ensures
        final(text)@ == old(text)@ + decimal(n as nat),
    decreases n,
{
    if n >= 10 {
        push_decimal(text, n / 10);
    }
    text.append(digit_str(n % 10));
    assert(final(text)@ =~= old(text)@ + decimal(n as nat));
}

/// Appends `v` to `text`, at least two characters wide.
fn push_two_wide(text: &mut String, v: i64)
    ensures
        final(text)@ == old(text)@ + two_wide(v as int),
{
    if v < 0 {
        proof {
            reveal_strlit("-");
        }
        text.append("-");
        // The size of `v`, which for the least `i64` is beyond the `i64`s.
        push_decimal(text, (-(v + 1)) as u64 + 1);
    } else {
        if v < 10 {
            proof {
                reveal_strlit("0");
            }
            text.append("0");
        }
        push_decimal(text, v as u64);
    }
    assert(final(text)@ =~= old(text)@ + two_wide(v as int));
}

/// The countdown text for `duration` milliseconds in `mode`, such as
/// `00:01:30 Work` for a minute and a half of work.
///
/// The minutes are not reduced by the hour, so an hour, five minutes and
/// thirty seconds read `01:65:30`. A negative duration, as a poll finds it
/// once the deadline has passed, gives fields with a minus sign.
pub fn format_duration(duration: i64, mode: PomodoroMode) -> (text: String)
    ensures
        text@ == duration_text(duration as int, mode),
{
    proof {
        reveal_strlit(":");
        reveal_strlit(" ");
    }
    let seconds = duration / MILLIS_PER_SECOND;
    let mut text = String::new();
    push_two_wide(&mut text, seconds / SECONDS_PER_HOUR);
    text.append(":");
    push_two_wide(&mut text, seconds / SECONDS_PER_MINUTE);
    text.append(":");
    push_two_wide(&mut text, seconds % SECONDS_PER_MINUTE);
    text.append(" ");
    let label = mode.label();
    text.append(label.as_str());
    assert(text@ =~= duration_text(duration as int, mode));
    text
}

/// A number in decimal has at least one digit, and at least two from ten
/// on.
pub proof fn lemma_decimal_len(n: nat)
    ensures
        decimal(n).len() >= 1,
        n >= 10 ==> decimal(n).len() >= 2,
    decreases n,
{
    if n >= 10 {
        lemma_decimal_len(n / 10);
    }
}

/// A field of the countdown is never narrower than two characters.
pub proof fn lemma_two_wide_len(v: int)
    ensures
        two_wide(v).len() >= 2,
{
    if v < 0 {
        lemma_decimal_len((-v) as nat);
    } else {
        lemma_decimal_len(v as nat);
    }
}

/// The hours and minutes fields are totals, each rounded toward zero from
/// the duration itself: the minutes count every minute of the duration and
/// the hours are the whole hours among those minutes. The seconds field
/// alone is reduced; it lies strictly between -60 and 60, has the sign of
/// the duration, and makes up the whole seconds together with the minutes.
pub proof fn lemma_countdown_fields(millis: int)
    ensures
        hours_field(millis) == whole(millis, 3_600_000),
        minutes_field(millis) == whole(millis, 60_000),
        hours_field(millis) == whole(minutes_field(millis), 60),
        -60 < seconds_field(millis) < 60,
        millis >= 0 ==> seconds_field(millis) >= 0,
        millis <= 0 ==> seconds_field(millis) <= 0,
        minutes_field(millis) * 60 + seconds_field(millis) == total_seconds(millis),
{
    let size: int = if millis >= 0 {
        millis
    } else {
        -millis
    };
    lemma_div_denominator(size, 1000, 3600);
    lemma_div_denominator(size, 1000, 60);
    lemma_div_denominator(size / 1000, 60, 60);
}

} // verus!
