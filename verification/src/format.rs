//! The text form of a duration.
//!
//! A duration is a whole number of nanoseconds. It is first rounded to
//! hundredths of a second, halves upward, and the rounded value picks one of
//! three shapes:
//!
//! * below one minute: seconds with two decimals, `12.34s`;
//! * below one hour: minutes, then two-digit seconds with two decimals,
//!   `3m 07.50s`;
//! * from one hour on: hours, two-digit minutes, then two-digit seconds with
//!   one decimal, `1h 02m 03.4s`, the duration now rounded to tenths.
//!
//! Because the shape is picked after rounding, no shape ever shows its own
//! upper bound: a duration a hair under one minute reads `1m 00.00s`.

use vstd::prelude::*;

verus! {

/// Nanoseconds in one hundredth of a second.
pub const NANOS_PER_CENTI: u128 = 10_000_000;

/// Nanoseconds in one tenth of a second.
pub const NANOS_PER_TENTH: u128 = 100_000_000;

/// Hundredths of a second in one minute.
pub const CENTIS_PER_MINUTE: u128 = 6_000;

/// Hundredths of a second in one hour.
pub const CENTIS_PER_HOUR: u128 = 360_000;

/// Tenths of a second in one minute.
pub const TENTHS_PER_MINUTE: u128 = 600;

/// Tenths of a second in one hour.
pub const TENTHS_PER_HOUR: u128 = 36_000;

/// `String::push` appends one character to the end of the string.
pub assume_specification[ String::push ](text: &mut String, c: char)
    ensures
        final(text)@ == old(text)@.push(c),
;

/// The character of a decimal digit.
pub open spec fn digit(d: nat) -> char
    recommends
        d < 10,
{
    if d == 0 {
        '0'
    } else if d == 1 {
        '1'
    } else if d == 2 {
        '2'
    } else if d == 3 {
        '3'
    } else if d == 4 {
        '4'
    } else if d == 5 {
        '5'
    } else if d == 6 {
        '6'
    } else if d == 7 {
        '7'
    } else if d == 8 {
        '8'
    } else {
        '9'
    }
}

/// A number in decimal, without leading zeros; zero is `0`.
pub open spec fn decimal(n: nat) -> Seq<char>
    decreases n,
{
    if n < 10 {
        seq![digit(n)]
    } else {
        decimal(n / 10).push(digit(n % 10))
    }
}

/// The last two decimal digits of a number, zero-padded.
pub open spec fn two_digits(n: nat) -> Seq<char> {
    seq![digit((n / 10) % 10), digit(n % 10)]
}

/// A duration in hundredths of a second, halves rounded upward.
pub open spec fn rounded_centis(nanos: nat) -> nat {
    (nanos + 5_000_000) / 10_000_000
}

/// A duration in tenths of a second, halves rounded upward.
pub open spec fn rounded_tenths(nanos: nat) -> nat {
    (nanos + 50_000_000) / 100_000_000
}

/// Seconds with two decimals, for a count of hundredths below one minute.
pub open spec fn seconds_text(centis: nat) -> Seq<char> {
    decimal(centis / 100) + seq!['.'] + two_digits(centis % 100) + seq!['s']
}

/// Minutes and seconds with two decimals, for a count of hundredths below
/// one hour.
pub open spec fn minutes_text(centis: nat) -> Seq<char> {
    decimal(centis / 6_000) + seq!['m', ' '] + two_digits((centis / 100) % 60) + seq!['.']
        + two_digits(centis % 100) + seq!['s']
}

/// Hours, minutes and seconds with one decimal, for a count of tenths.
pub open spec fn hours_text(tenths: nat) -> Seq<char> {
    decimal(tenths / 36_000) + seq!['h', ' '] + two_digits((tenths / 600) % 60) + seq!['m', ' ']
        + two_digits((tenths / 10) % 60) + seq!['.', digit(tenths % 10), 's']
}

/// The text of a duration given in nanoseconds.
pub open spec fn duration_text(nanos: nat) -> Seq<char> {
    let centis = rounded_centis(nanos);
    if centis < 6_000 {
        seconds_text(centis)
    } else if centis < 360_000 {
        minutes_text(centis)
    } else {
        hours_text(rounded_tenths(nanos))
    }
}

/// The character of the decimal digit `d`.
fn digit_char(d: u128) -> (c: char)
    requires
        d < 10,
    ensures
        c == digit(d as nat),
{
    if d == 0 {
        '0'
    } else if d == 1 {
        '1'
    } else if d == 2 {
        '2'
    } else if d == 3 {
        '3'
    } else if d == 4 {
        '4'
    } else if d == 5 {
        '5'
    } else if d == 6 {
        '6'
    } else if d == 7 {
        '7'
    } else if d == 8 {
        '8'
    } else {
        '9'
    }
}

/// Appends `n` in decimal.
pub(crate) fn push_decimal(text: &mut String, n: u128)
    ensures
        final(text)@ == old(text)@ + decimal(n as nat),
    decreases n,
{
    if n >= 10 {
        push_decimal(text, n / 10);
    }
    text.push(digit_char(n % 10));
    assert(text@ =~= old(text)@ + decimal(n as nat));
}

/// Appends the last two decimal digits of `n`.
fn push_two_digits(text: &mut String, n: u128)
    ensures
        final(text)@ == old(text)@ + two_digits(n as nat),
{
    text.push(digit_char((n / 10) % 10));
    text.push(digit_char(n % 10));
    assert(text@ =~= old(text)@ + two_digits(n as nat));
}

/// A number in decimal has at least one digit.
pub proof fn lemma_decimal_is_not_empty(n: nat)
    ensures
        decimal(n).len() >= 1,
    decreases n,
{
    if n >= 10 {
        lemma_decimal_is_not_empty(n / 10);
    }
}

/// Which shape a duration takes is decided by two thresholds in
/// nanoseconds, each half a hundredth of a second below the round figure:
/// the seconds shape ends at 59.995 s and the minutes shape at 3599.995 s.
pub proof fn law_shape_thresholds(nanos: nat)
    ensures
        nanos < 59_995_000_000 ==> duration_text(nanos) == seconds_text(rounded_centis(nanos)),
        59_995_000_000 <= nanos < 3_599_995_000_000 ==> duration_text(nanos) == minutes_text(
            rounded_centis(nanos),
        ),
        3_599_995_000_000 <= nanos ==> duration_text(nanos) == hours_text(rounded_tenths(nanos)),
        3_599_995_000_000 <= nanos ==> rounded_tenths(nanos) >= 36_000,
{
}

/// No duration reads `60.00s`: what rounds to a full minute is written in
/// the minutes shape.
pub proof fn law_never_sixty_seconds(nanos: nat)
    ensures
        duration_text(nanos) != seq!['6', '0', '.', '0', '0', 's'],
{
    let sixty = seq!['6', '0', '.', '0', '0', 's'];
    let text = duration_text(nanos);
    let centis = rounded_centis(nanos);
    assert(sixty.len() == 6);
    assert(sixty[0] == '6');
    if centis < 6_000 {
        let whole = centis / 100;
        if whole < 10 {
            assert(text.len() == 5);
        } else {
            assert(whole / 10 < 10);
            assert(decimal(whole / 10) =~= seq![digit(whole / 10)]);
            assert(decimal(whole) =~= seq![digit(whole / 10), digit(whole % 10)]);
            assert(text[0] == digit(whole / 10));
            assert(whole / 10 <= 5);
        }
    } else if centis < 360_000 {
        lemma_decimal_is_not_empty(centis / 6_000);
        assert(text.len() >= 9);
    } else {
        lemma_decimal_is_not_empty(rounded_tenths(nanos) / 36_000);
        assert(text.len() >= 12);
    }
}

/// Renders a duration of `nanos` nanoseconds.
pub fn format_duration(nanos: u128) -> (text: String)
    ensures
        text@ == duration_text(nanos as nat),
{
    let half_up: u128 = if nanos % NANOS_PER_CENTI >= NANOS_PER_CENTI / 2 { 1 } else { 0 };
    let centis: u128 = nanos / NANOS_PER_CENTI + half_up;
    assert(centis == rounded_centis(nanos as nat));
    let mut text = String::new();
    if centis < CENTIS_PER_MINUTE {
        push_decimal(&mut text, centis / 100);
        text.push('.');
        push_two_digits(&mut text, centis % 100);
        text.push('s');
        assert(text@ =~= seconds_text(centis as nat));
    } else if centis < CENTIS_PER_HOUR {
        push_decimal(&mut text, centis / CENTIS_PER_MINUTE);
        text.push('m');
        text.push(' ');
        push_two_digits(&mut text, (centis / 100) % 60);
        text.push('.');
        push_two_digits(&mut text, centis % 100);
        text.push('s');
        assert(text@ =~= minutes_text(centis as nat));
    } else {
        let tenth_up: u128 = if nanos % NANOS_PER_TENTH >= NANOS_PER_TENTH / 2 { 1 } else { 0 };
        let tenths: u128 = nanos / NANOS_PER_TENTH + tenth_up;
        assert(tenths == rounded_tenths(nanos as nat));
        push_decimal(&mut text, tenths / TENTHS_PER_HOUR);
        text.push('h');
        text.push(' ');
        push_two_digits(&mut text, (tenths / TENTHS_PER_MINUTE) % 60);
        text.push('m');
        text.push(' ');
        push_two_digits(&mut text, (tenths / 10) % 60);
        text.push('.');
        text.push(digit_char(tenths % 10));
        text.push('s');
        assert(text@ =~= hours_text(tenths as nat));
    }
    text
}

} // verus!
