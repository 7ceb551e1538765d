//! Boot-relative timestamps as display text: whole seconds in decimal,
//! followed by the unit.

use vstd::prelude::*;
use vstd::string::StringExecFns;

verus! {

/// Microseconds in one second.
pub const MICROS_PER_SECOND: i64 = 1_000_000;

/// The whole seconds in `micros` microseconds, rounded toward zero.
pub open spec fn whole_seconds(micros: int) -> int {
    if micros >= 0 {
        micros / 1_000_000
    } else {
        -((-micros) / 1_000_000)
    }
}

/// The character of one decimal digit.
pub open spec fn digit_char(d: nat) -> char
    recommends
        d < 10,
{
    if d == 0 {
        '0'
    } else if d == 1 {
        '1'
    } else if d == 2 {
        '2'
    } else if d == 3 {
        '3'
    } else if d == 4 {
        '4'
    } else if d == 5 {
        '5'
    } else if d == 6 {
        '6'
    } else if d == 7 {
        '7'
    } else if d == 8 {
        '8'
    } else {
        '9'
    }
}

/// The decimal digits of `n`, most significant first, without leading
/// zeros; zero is the single digit `0`.
pub open spec fn decimal_digits(n: nat) -> Seq<char>
    decreases n,
{
    if n < 10 {
        seq![digit_char(n)]
    } else {
        decimal_digits(n / 10).push(digit_char(n % 10))
    }
}

/// The decimal text of an integer: a minus sign before the digits of a
/// negative one.
pub open spec fn decimal_text(i: int) -> Seq<char> {
    if i < 0 {
        seq!['-'] + decimal_digits((-i) as nat)
    } else {
        decimal_digits(i as nat)
    }
}

/// What the display shows for a timestamp of `micros` microseconds since
/// boot: the whole seconds in decimal, then `s`.
pub open spec fn seconds_text(micros: int) -> Seq<char> {
    decimal_text(whole_seconds(micros)).push('s')
}

/// The text of one decimal digit.
fn digit_str(d: u64) -> (s: &'static str)
    requires
        d < 10,
    ensures
        s@ == seq![digit_char(d as nat)],
{
    proof {
        reveal_strlit("0");
        reveal_strlit("1");
        reveal_strlit("2");
        reveal_strlit("3");
        reveal_strlit("4");
        reveal_strlit("5");
        reveal_strlit("6");
        reveal_strlit("7");
        reveal_strlit("8");
        reveal_strlit("9");
    }
    if d == 0 {
        "0"
    } else if d == 1 {
        "1"
    } else if d == 2 {
        "2"
    } else if d == 3 {
        "3"
    } else if d == 4 {
        "4"
    } else if d == 5 {
        "5"
    } else if d == 6 {
        "6"
    } else if d == 7 {
        "7"
    } else if d == 8 {
        "8"
    } else {
        "9"
    }
}

/// Appends the decimal digits of `n` to `out`.
fn push_decimal(out: &mut String, n: u64)
    ensures
        final(out)@ == old(out)@ + decimal_digits(n as nat),
    decreases n,
{
    if n >= 10 {
        push_decimal(out, n / 10);
    }
    out.append(digit_str(n % 10));
}

/// The whole seconds in a timestamp, as the display counts them.
pub fn seconds_since_boot(micros: i64) -> (seconds: i64)
    ensures
        seconds == whole_seconds(micros as int),
{
    micros / MICROS_PER_SECOND
}

/// Renders a boot-relative timestamp for the display.
pub fn timestamp_display(micros: i64) -> (text: String)
    ensures
        text@ == seconds_text(micros as int),
{
    let seconds = seconds_since_boot(micros);
    let mut text = String::new();
    if seconds < 0 {
        text.append("-");
        proof {
            reveal_strlit("-");
        }
        push_decimal(&mut text, (-seconds) as u64);
    } else {
        push_decimal(&mut text, seconds as u64);
    }
    text.append("s");
    proof {
        reveal_strlit("s");
    }
    text
}

} // verus!
