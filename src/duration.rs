//! Rendering of microsecond durations as clock text and as whole seconds.
use vstd::prelude::*;

verus! {

pub const MICROS_PER_SECOND: u64 = 1_000_000;

pub const MICROS_PER_MINUTE: u64 = 60_000_000;

pub const MICROS_PER_HOUR: u64 = 3_600_000_000;

/// The decimal digit characters, by value.
pub open spec fn digit_char(d: nat) -> char {
    seq!['0', '1', '2', '3', '4', '5', '6', '7', '8', '9'][d as int]
}

/// Decimal text of `n`, without sign or leading zeros.
pub open spec fn decimal(n: nat) -> Seq<char>
    decreases n,
{
    if n < 10 {
        seq![digit_char(n)]
    } else {
        decimal(n / 10).push(digit_char(n % 10))
    }
}

/// Decimal text of `n`, zero-padded to at least two characters.
pub open spec fn two_digits(n: nat) -> Seq<char> {
    if n < 10 {
        seq!['0'] + decimal(n)
    } else {
        decimal(n)
    }
}

pub open spec fn seconds_field(d: nat) -> nat {
    (d / MICROS_PER_SECOND as nat) % 60
}

pub open spec fn minutes_field(d: nat) -> nat {
    (d / MICROS_PER_MINUTE as nat) % 60
}

pub open spec fn hours_field(d: nat) -> nat {
    d / MICROS_PER_HOUR as nat
}

/// `MM:SS` below one hour, `HH:MM:SS` from one hour on.
pub open spec fn clock_text(d: nat) -> Seq<char> {
    let mm_ss = two_digits(minutes_field(d)) + seq![':'] + two_digits(seconds_field(d));
    if d < MICROS_PER_HOUR as nat {
        mm_ss
    } else {
        two_digits(hours_field(d)) + seq![':'] + mm_ss
    }
}

fn digit_str(d: u64) -> (r: &'static str)
    requires
        d < 10,
    ensures
        r@ == seq![digit_char(d as nat)],
{
    proof {
        reveal_strlit("0");
        reveal_strlit("1");
        reveal_strlit("2");
        reveal_strlit("3");
        reveal_strlit("4");
        reveal_strlit("5");
        reveal_strlit("6");
        reveal_strlit("7");
        reveal_strlit("8");
        reveal_strlit("9");
    }
    let r = if d == 0 {
        "0"
    } else if d == 1 {
        "1"
    } else if d == 2 {
        "2"
    } else if d == 3 {
        "3"
    } else if d == 4 {
        "4"
    } else if d == 5 {
        "5"
    } else if d == 6 {
        "6"
    } else if d == 7 {
        "7"
    } else if d == 8 {
        "8"
    } else {
        "9"
    };
    assert(r@ =~= seq![digit_char(d as nat)]);
    r
}

/// Appends the decimal text of `n` to `out`.
pub fn push_decimal(out: &mut String, n: u64)
    ensures
        final(out)@ == old(out)@ + decimal(n as nat),
    decreases n,
{
    if n >= 10 {
        push_decimal(out, n / 10);
    }
    out.append(digit_str(n % 10));
    assert(out@ =~= old(out)@ + decimal(n as nat));
}

/// Appends `n` zero-padded to two digits.
fn push_two_digits(out: &mut String, n: u64)
    ensures
        final(out)@ == old(out)@ + two_digits(n as nat),
{
    if n < 10 {
        out.append("0");
        proof {
            reveal_strlit("0");
        }
    }
    push_decimal(out, n);
    assert(out@ =~= old(out)@ + two_digits(n as nat));
}

/// Decimal text of a number.
pub fn decimal_string(n: u64) -> (r: String)
    ensures
        r@ == decimal(n as nat),
{
    let mut out = String::new();
    push_decimal(&mut out, n);
    assert(out@ =~= decimal(n as nat));
    out
}

/// A duration in microseconds as `MM:SS`, or `HH:MM:SS` when it reaches an hour.
pub fn format_duration(duration: u64) -> (r: String)
    ensures
        r@ == clock_text(duration as nat),
{
    let seconds = duration / MICROS_PER_SECOND % 60;
    let minutes = duration / MICROS_PER_MINUTE % 60;
    let hours = duration / MICROS_PER_HOUR;
    let mut out = String::new();
    if hours > 0 {
        push_two_digits(&mut out, hours);
        out.append(":");
    }
    push_two_digits(&mut out, minutes);
    out.append(":");
    push_two_digits(&mut out, seconds);
    proof {
        reveal_strlit(":");
        assert(out@ =~= clock_text(duration as nat));
    }
    out
}

/// Whole seconds in a duration of microseconds, truncated.
pub fn whole_seconds(duration: u64) -> (r: u64)
    ensures
        r as nat == duration as nat / MICROS_PER_SECOND as nat,
{
    duration / MICROS_PER_SECOND
}

/// Whole seconds in a duration of microseconds, as decimal text.
pub fn seconds_text(duration: u64) -> (r: String)
    ensures
        r@ == decimal(duration as nat / MICROS_PER_SECOND as nat),
{
    decimal_string(whole_seconds(duration))
}

} // verus!
