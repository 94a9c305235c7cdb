//! The line of text that readers of the shared state are shown.

use crate::sample::TimeSample;
use crate::state::SharedTimeState;
use vstd::prelude::*;

verus! {

/// Least number of digits shown for the fraction.
pub const FRACTION_WIDTH: u32 = 6;

/// The character for a decimal digit.
pub open spec fn digit_char(d: int) -> char {
    if d == 0 {
        '0'
    } else if d == 1 {
        '1'
    } else if d == 2 {
        '2'
    } else if d == 3 {
        '3'
    } else if d == 4 {
        '4'
    } else if d == 5 {
        '5'
    } else if d == 6 {
        '6'
    } else if d == 7 {
        '7'
    } else if d == 8 {
        '8'
    } else {
        '9'
    }
}

/// The last `count` decimal digits of `n`, most significant first, with
/// zeros where `n` has no digit.
pub open spec fn digits(n: nat, count: nat) -> Seq<char>
    decreases count,
{
    if count == 0 {
        Seq::empty()
    } else {
        digits(n / 10, (count - 1) as nat).push(digit_char((n % 10) as int))
    }
}

/// Number of decimal digits of `n`; zero has one.
pub open spec fn decimal_width(n: nat) -> nat
    decreases n,
{
    if n < 10 {
        1
    } else {
        1 + decimal_width(n / 10)
    }
}

/// `n` in decimal, with zeros in front up to `width` digits and never cut.
pub open spec fn padded_decimal(n: nat, width: nat) -> Seq<char> {
    if width > decimal_width(n) {
        digits(n, width)
    } else {
        digits(n, decimal_width(n))
    }
}

/// `n` in decimal.
pub open spec fn decimal(n: nat) -> Seq<char> {
    digits(n, decimal_width(n))
}

/// The line for a sample: its seconds, a point, and its fraction
/// field in decimal, zero-padded to six digits.
pub open spec fn sample_text(sample: TimeSample) -> Seq<char> {
    "NTP time: "@ + decimal(sample.seconds as nat) + "."@ + padded_decimal(
        sample.seconds_fraction as nat,
        FRACTION_WIDTH as nat,
    )
}

/// The line for what the slot holds.
pub open spec fn time_text(snapshot: Option<TimeSample>) -> Seq<char> {
    match snapshot {
        Some(sample) => sample_text(sample),
        None => "NTP time: unavailable"@,
    }
}

/// While the slot is empty, the line is the one that says so.
pub proof fn lemma_empty_slot_text()
    ensures
        time_text(None::<TimeSample>) == "NTP time: unavailable"@,
{
}

/// A 32-bit number has at most ten decimal digits.
pub proof fn lemma_width_of_u32(n: nat)
    requires
        n <= u32::MAX,
    ensures
        1 <= decimal_width(n) <= 10,
{
    reveal_with_fuel(decimal_width, 11);
}

/// The one-character string for a decimal digit.
fn digit_str(d: u32) -> (s: &'static str)
    requires
        d < 10,
    ensures
        s@ == seq![digit_char(d as int)],
{
    proof {
        reveal_strlit("0");
        reveal_strlit("1");
        reveal_strlit("2");
        reveal_strlit("3");
        reveal_strlit("4");
        reveal_strlit("5");
        reveal_strlit("6");
        reveal_strlit("7");
        reveal_strlit("8");
        reveal_strlit("9");
    }
    let s = if d == 0 {
        "0"
    } else if d == 1 {
        "1"
    } else if d == 2 {
        "2"
    } else if d == 3 {
        "3"
    } else if d == 4 {
        "4"
    } else if d == 5 {
        "5"
    } else if d == 6 {
        "6"
    } else if d == 7 {
        "7"
    } else if d == 8 {
        "8"
    } else {
        "9"
    };
    assert(s@ =~= seq![digit_char(d as int)]);
    s
}

/// Number of decimal digits of `n`.
fn width_of(n: u32) -> (w: u32)
    ensures
        w == decimal_width(n as nat),
        1 <= w <= 10,
    decreases n,
{
    proof {
        lemma_width_of_u32(n as nat);
        lemma_width_of_u32((n / 10) as nat);
    }
    if n < 10 {
        1
    } else {
        1 + width_of(n / 10)
    }
}

/// Appends the last `count` decimal digits of `n`.
fn push_digits(out: &mut String, n: u32, count: u32)
    ensures
        final(out)@ == old(out)@ + digits(n as nat, count as nat),
    decreases count,
{
    if count > 0 {
        push_digits(out, n / 10, count - 1);
        out.append(digit_str(n % 10));
        assert(out@ =~= old(out)@ + digits(n as nat, count as nat));
    } else {
        assert(out@ =~= old(out)@ + digits(n as nat, count as nat));
    }
}

/// Writes the line for a sample.
pub fn format_sample(sample: &TimeSample) -> (text: String)
    ensures
        text@ == sample_text(*sample),
{
    let mut text = String::from_str("NTP time: ");
    push_digits(&mut text, sample.seconds, width_of(sample.seconds));
    text.append(".");
    let natural: u32 = width_of(sample.seconds_fraction);
    let width: u32 = if FRACTION_WIDTH > natural {
        FRACTION_WIDTH
    } else {
        natural
    };
    push_digits(&mut text, sample.seconds_fraction, width);
    text
}

/// Writes the line for what a snapshot holds: the sample's line, or the
/// line that says that there is none yet.
pub fn format_snapshot(snapshot: Option<TimeSample>) -> (text: String)
    ensures
        text@ == time_text(snapshot),
{
    match snapshot {
        Some(sample) => format_sample(&sample),
        None => String::from_str("NTP time: unavailable"),
    }
}

/// The line for what the slot holds now. It never fails: an empty slot has
/// a line of its own.
pub fn current_time_text(state: &SharedTimeState) -> (text: String)
    ensures
        text@ == time_text(state@),
{
    format_snapshot(state.snapshot())
}

} // verus!
