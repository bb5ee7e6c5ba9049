//! Decimal text for unsigned numbers, and the clock label built from it.

use vstd::prelude::*;

verus! {

/// `String::push` appends one character to the end of the string and
/// leaves the rest as it was.
pub assume_specification[ String::push ](s: &mut String, c: char)
    ensures
        final(s)@ == old(s)@.push(c),
;

/// The code of the character `0`; the other nine digits follow it in order.
pub const ASCII_ZERO: u8 = 48;

/// The character for a single decimal digit.
pub open spec fn digit_char(d: nat) -> char
    recommends
        d < 10,
{
    ((ASCII_ZERO + d) as u8) as char
}

/// The decimal digits of `n`, most significant first, without padding.
pub open spec fn decimal(n: nat) -> Seq<char>
    decreases n,
{
    if n < 10 {
        seq![digit_char(n)]
    } else {
        decimal(n / 10).push(digit_char(n % 10))
    }
}

/// The decimal digits of `n`, padded with a zero on the left to at least
/// two characters.
pub open spec fn two_digits(n: nat) -> Seq<char> {
    if n < 10 {
        seq!['0', digit_char(n)]
    } else {
        decimal(n)
    }
}

/// A span of seconds as hours, minutes and seconds: `HHhMMmSS`. Minutes and
/// seconds stay below sixty; the hours take whatever is left and grow past
/// two digits when they must.
pub open spec fn clock_label(seconds: nat) -> Seq<char> {
    two_digits(seconds / 3600) + seq!['h'] + two_digits((seconds / 60) % 60) + seq!['m']
        + two_digits(seconds % 60)
}

/// Appends the decimal digits of `n` to `out`.
pub fn push_decimal(out: &mut String, n: u64)
    ensures
        final(out)@ == old(out)@ + decimal(n as nat),
    decreases n,
{
    if n >= 10 {
        push_decimal(out, n / 10);
    }
    let ghost leading = out@;
    let digit: u8 = (n % 10) as u8;
    out.push((ASCII_ZERO + digit) as char);
    assert(out@ =~= old(out)@ + decimal(n as nat)) by {
        if n >= 10 {
            assert(leading == old(out)@ + decimal((n / 10) as nat));
        } else {
            assert(leading == old(out)@);
        }
    }
}

/// The decimal digits of `n` as a string of their own.
pub fn to_decimal(n: u64) -> (s: String)
    ensures
        s@ == decimal(n as nat),
{
    let mut s = String::new();
    push_decimal(&mut s, n);
    assert(s@ =~= decimal(n as nat));
    s
}

/// Appends `n` to `out`, zero-padded to two digits.
pub fn push_two_digits(out: &mut String, n: u64)
    ensures
        final(out)@ == old(out)@ + two_digits(n as nat),
{
    if n < 10 {
        out.push('0');
        out.push((ASCII_ZERO + (n as u8)) as char);
        assert(out@ =~= old(out)@ + two_digits(n as nat));
    } else {
        push_decimal(out, n);
    }
}

/// Renders `seconds` as `HHhMMmSS`.
pub fn format_clock(seconds: u64) -> (s: String)
    ensures
        s@ == clock_label(seconds as nat),
{
    let mut s = String::new();
    push_two_digits(&mut s, seconds / 3600);
    s.push('h');
    push_two_digits(&mut s, (seconds / 60) % 60);
    s.push('m');
    push_two_digits(&mut s, seconds % 60);
    assert(s@ =~= clock_label(seconds as nat));
    s
}

} // verus!
