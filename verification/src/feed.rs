//! Searching bytes and reading unsigned numbers out of them.

use crate::decimal::{decimal, digit_char, ASCII_ZERO};
use vstd::prelude::*;
use vstd::utf8::valid_utf8;

verus! {

/// Whether `bytes` are well-formed UTF-8, as `core::str::from_utf8` judges
/// it: the call succeeds on exactly the byte strings that encode a sequence
/// of Unicode scalar values, and that is what `valid_utf8` says.
#[verifier::external_body]
pub(crate) fn is_utf8(bytes: &[u8]) -> (ok: bool)
    ensures
        ok == valid_utf8(bytes@),
{
    core::str::from_utf8(bytes).is_ok()
}

/// Whether `needle` stands in `hay` at offset `at`.
pub open spec fn occurs_at(hay: Seq<u8>, needle: Seq<u8>, at: int) -> bool {
    &&& 0 <= at
    &&& at + needle.len() <= hay.len()
    &&& hay.subrange(at, at + needle.len()) == needle
}

/// Whether `at` is the smallest offset at which `needle` stands in `hay`.
pub open spec fn is_first_occurrence(hay: Seq<u8>, needle: Seq<u8>, at: int) -> bool {
    &&& occurs_at(hay, needle, at)
    &&& forall|before: int| 0 <= before < at ==> !occurs_at(hay, needle, before)
}

/// The smallest offset at which `needle` stands in `hay`, if it stands
/// there at all.
pub open spec fn first_occurrence(hay: Seq<u8>, needle: Seq<u8>) -> Option<int> {
    if exists|at: int| is_first_occurrence(hay, needle, at) {
        Some(choose|at: int| is_first_occurrence(hay, needle, at))
    } else {
        None
    }
}

/// There is at most one first occurrence, so naming one names the value of
/// [`first_occurrence`].
pub proof fn lemma_first_occurrence_is(hay: Seq<u8>, needle: Seq<u8>, at: int)
    requires
        is_first_occurrence(hay, needle, at),
    ensures
        first_occurrence(hay, needle) == Some(at),
{
    let chosen = choose|c: int| is_first_occurrence(hay, needle, c);
    assert(is_first_occurrence(hay, needle, chosen));
    if chosen < at {
        assert(!occurs_at(hay, needle, chosen));
    } else if at < chosen {
        assert(!occurs_at(hay, needle, at));
    }
}

/// Where `needle` stands in `hay` at all, it stands there for a first
/// time.
proof fn lemma_occurrence_has_a_first(hay: Seq<u8>, needle: Seq<u8>, at: int)
    requires
        occurs_at(hay, needle, at),
    ensures
        exists|first: int| is_first_occurrence(hay, needle, first),
    decreases at,
{
    if exists|before: int| 0 <= before < at && occurs_at(hay, needle, before) {
        let before = choose|before: int| 0 <= before < at && occurs_at(hay, needle, before);
        lemma_occurrence_has_a_first(hay, needle, before);
    } else {
        assert(is_first_occurrence(hay, needle, at));
    }
}

/// What [`first_occurrence`] says: an offset at which `needle` stands and
/// before which it does not, or that `needle` stands nowhere in `hay`.
pub proof fn lemma_first_occurrence(hay: Seq<u8>, needle: Seq<u8>)
    ensures
        match first_occurrence(hay, needle) {
            Some(at) => is_first_occurrence(hay, needle, at),
            None => forall|at: int| !occurs_at(hay, needle, at),
        },
{
    if first_occurrence(hay, needle) is None {
        assert forall|at: int| !occurs_at(hay, needle, at) by {
            if occurs_at(hay, needle, at) {
                lemma_occurrence_has_a_first(hay, needle, at);
            }
        }
    }
}

/// Whether `needle` stands in `hay` at offset `at`.
fn matches_at(hay: &[u8], needle: &[u8], at: usize) -> (hit: bool)
    requires
        at + needle@.len() <= hay@.len(),
    ensures
        hit == occurs_at(hay@, needle@, at as int),
{
    let len: usize = hay.len();
    let mut i: usize = 0;
    while i < needle.len()
        invariant
            i <= needle@.len(),
            at + needle@.len() <= hay@.len() == len,
            forall|k: int| 0 <= k < i ==> hay@[at + k] == needle@[k],
        decreases needle@.len() - i,
    {
        if hay[at + i] != needle[i] {
            proof {
                let window = hay@.subrange(at as int, at + needle@.len());
                assert(window[i as int] == hay@[at + i]);
            }
            return false;
        }
        i += 1;
    }
    assert(hay@.subrange(at as int, at + needle@.len()) =~= needle@);
    true
}

/// The offset of the first occurrence of `needle` in `hay`. The empty
/// needle is found at offset zero.
pub fn find(hay: &[u8], needle: &[u8]) -> (found: Option<usize>)
    ensures
        match found {
            Some(at) => first_occurrence(hay@, needle@) == Some(at as int),
            None => first_occurrence(hay@, needle@) is None,
        },
{
    if needle.len() > hay.len() {
        return None;
    }
    let last: usize = hay.len() - needle.len();
    let mut at: usize = 0;
    while at <= last
        invariant
            last == hay@.len() - needle@.len(),
            at <= last + 1,
            forall|before: int| 0 <= before < at ==> !occurs_at(hay@, needle@, before),
        decreases last + 1 - at,
    {
        if matches_at(hay, needle, at) {
            proof {
                lemma_first_occurrence_is(hay@, needle@, at as int);
            }
            return Some(at);
        }
        if at == last {
            assert(forall|c: int| !is_first_occurrence(hay@, needle@, c));
            return None;
        }
        at += 1;
    }
    None
}

/// The code of the character `9`.
pub const ASCII_NINE: u8 = 57;

/// The code of the character `+`.
pub const ASCII_PLUS: u8 = 43;

/// Whether `b` is one of the ASCII digits `0` to `9`.
pub open spec fn is_digit(b: u8) -> bool {
    ASCII_ZERO <= b <= ASCII_NINE
}

/// What the digit `b` is worth; zero for any other byte.
pub open spec fn digit_value(b: u8) -> nat {
    if is_digit(b) {
        (b - ASCII_ZERO) as nat
    } else {
        0
    }
}

/// Whether every byte of `s` is an ASCII digit.
pub open spec fn all_digits(s: Seq<u8>) -> bool {
    forall|i: int| 0 <= i < s.len() ==> is_digit(#[trigger] s[i])
}

/// The number that the digits `s` spell in base ten.
pub open spec fn digits_value(s: Seq<u8>) -> nat
    decreases s.len(),
{
    if s.len() == 0 {
        0
    } else {
        digits_value(s.drop_last()) * 10 + digit_value(s.last())
    }
}

/// The text without the one plus sign that may lead it.
pub open spec fn after_sign(text: Seq<u8>) -> Seq<u8> {
    if text.len() > 0 && text[0] == ASCII_PLUS {
        text.skip(1)
    } else {
        text
    }
}

/// The number that `text` spells, read the way `usize` is read from text:
/// an optional plus sign, then at least one ASCII digit and nothing else,
/// and the number has to fit in a `usize`.
pub open spec fn parse_unsigned(text: Seq<u8>) -> Option<nat> {
    let digits = after_sign(text);
    if digits.len() > 0 && all_digits(digits) && digits_value(digits) <= usize::MAX {
        Some(digits_value(digits))
    } else {
        None
    }
}

/// Spelling more digits never spells a smaller number.
pub proof fn lemma_digits_value_grows(s: Seq<u8>, n: int)
    requires
        0 <= n <= s.len(),
    ensures
        digits_value(s.take(n)) <= digits_value(s),
    decreases s.len(),
{
    if n == s.len() {
        assert(s.take(n) =~= s);
    } else {
        lemma_digits_value_grows(s.drop_last(), n);
        assert(s.drop_last().take(n) =~= s.take(n));
    }
}

/// Reads an unsigned number from `text`; see [`parse_unsigned`].
pub fn parse_usize(text: &[u8]) -> (number: Option<usize>)
    ensures
        match number {
            Some(n) => parse_unsigned(text@) == Some(n as nat),
            None => parse_unsigned(text@) is None,
        },
{
    let start: usize = if text.len() > 0 && text[0] == ASCII_PLUS {
        1
    } else {
        0
    };
    if start == text.len() {
        return None;
    }
    let ghost digits = after_sign(text@);
    assert(digits == text@.skip(start as int));
    let mut value: usize = 0;
    let mut i: usize = start;
    while i < text.len()
        invariant
            start <= i <= text@.len(),
            digits == after_sign(text@),
            digits == text@.skip(start as int),
            all_digits(digits.take(i - start)),
            value == digits_value(digits.take(i - start)),
        decreases text@.len() - i,
    {
        let b: u8 = text[i];
        proof {
            let next = digits.take(i + 1 - start);
            assert(next.drop_last() =~= digits.take(i - start));
            assert(next.last() == b);
            lemma_digits_value_grows(digits, i + 1 - start);
            if !is_digit(b) {
                assert(digits[i - start] == b);
            }
        }
        if b < ASCII_ZERO || b > ASCII_NINE {
            return None;
        }
        let shifted: usize = match value.checked_mul(10) {
            Some(v) => v,
            None => {
                return None;
            },
        };
        value = match shifted.checked_add((b - ASCII_ZERO) as usize) {
            Some(v) => v,
            None => {
                return None;
            },
        };
        i += 1;
    }
    assert(digits.take(i - start) =~= digits);
    Some(value)
}

/// The bytes of a text that holds ASCII characters only.
pub open spec fn ascii_bytes(text: Seq<char>) -> Seq<u8> {
    text.map_values(|c: char| c as u8)
}

/// The digits that [`decimal`] writes spell the number they were written
/// for.
proof fn lemma_decimal_digits(n: nat)
    ensures
        ascii_bytes(decimal(n)).len() > 0,
        all_digits(ascii_bytes(decimal(n))),
        digits_value(ascii_bytes(decimal(n))) == n,
    decreases n,
{
    let bytes = ascii_bytes(decimal(n));
    if n < 10 {
        assert(bytes =~= seq![digit_char(n) as u8]);
        assert(bytes.drop_last() =~= Seq::<u8>::empty());
        assert(digits_value(bytes.drop_last()) == 0);
    } else {
        lemma_decimal_digits(n / 10);
        let leading = ascii_bytes(decimal(n / 10));
        assert(bytes =~= leading.push(digit_char(n % 10) as u8));
        assert(bytes.drop_last() =~= leading);
    }
}

/// A number written with [`decimal`] reads back as itself.
pub proof fn lemma_decimal_reads_back(n: nat)
    requires
        n <= usize::MAX,
    ensures
        parse_unsigned(ascii_bytes(decimal(n))) == Some(n),
{
    lemma_decimal_digits(n);
    let bytes = ascii_bytes(decimal(n));
    assert(is_digit(bytes[0]));
}

} // verus!
