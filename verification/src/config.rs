//! The settings of the service: where it listens.

use vstd::prelude::*;

verus! {

/// The port on which the service listens when nothing else is configured.
pub const DEFAULT_PORT: u16 = 8080;

/// Whether `c` is an ASCII digit.
pub open spec fn is_digit(c: char) -> bool {
    '0' <= c <= '9'
}

/// The number that the decimal digits `digits` write.
pub open spec fn decimal_value(digits: Seq<char>) -> int
    decreases digits.len(),
{
    if digits.len() == 0 {
        0
    } else {
        decimal_value(digits.drop_last()) * 10 + (digits.last() as int - '0' as int)
    }
}

/// The digits of a port setting: the setting without the `+` that may stand
/// before them.
pub open spec fn port_digits(text: Seq<char>) -> Seq<char> {
    if text.len() > 0 && text[0] == '+' {
        text.drop_first()
    } else {
        text
    }
}

/// Whether `digits` is one decimal digit or more.
pub open spec fn is_number(digits: Seq<char>) -> bool {
    &&& digits.len() > 0
    &&& forall|i: int| 0 <= i < digits.len() ==> is_digit(#[trigger] digits[i])
}

/// The port that a setting names: the setting is decimal digits, with or
/// without a `+` before them and with nothing else around them, and the
/// number that they write is a port.
pub open spec fn port_of(text: Seq<char>) -> Option<u16> {
    let digits = port_digits(text);
    if is_number(digits) && decimal_value(digits) <= u16::MAX {
        Some(decimal_value(digits) as u16)
    } else {
        None
    }
}

/// The port to listen on: the one that the setting names, or the default
/// where there is no setting.
pub open spec fn configured_port(setting: Option<Seq<char>>) -> Option<u16> {
    match setting {
        Some(text) => port_of(text),
        None => Some(DEFAULT_PORT),
    }
}

/// More digits never write a smaller number.
pub proof fn lemma_decimal_value_grows(digits: Seq<char>, n: int)
    requires
        0 <= n <= digits.len(),
        forall|i: int| 0 <= i < digits.len() ==> is_digit(#[trigger] digits[i]),
    ensures
        0 <= decimal_value(digits.take(n)) <= decimal_value(digits),
    decreases digits.len() - n,
{
    if n == digits.len() {
        assert(digits.take(n) =~= digits);
        lemma_decimal_value_is_natural(digits);
    } else {
        lemma_decimal_value_grows(digits, n + 1);
        let longer = digits.take(n + 1);
        assert(longer.drop_last() =~= digits.take(n));
        assert(is_digit(digits[n]));
        assert(longer.last() == digits[n]);
        lemma_decimal_value_is_natural(digits.take(n));
    }
}

/// Digits write a natural number.
pub proof fn lemma_decimal_value_is_natural(digits: Seq<char>)
    requires
        forall|i: int| 0 <= i < digits.len() ==> is_digit(#[trigger] digits[i]),
    ensures
        0 <= decimal_value(digits),
    decreases digits.len(),
{
    if digits.len() > 0 {
        assert(is_digit(digits[digits.len() - 1]));
        lemma_decimal_value_is_natural(digits.drop_last());
    }
}

/// Reads a port setting.
pub fn parse_port(text: &str) -> (port: Option<u16>)
    ensures
        port == port_of(text@),
{
    let mut value: u32 = 0;
    let mut first = true;
    let mut signed = false;
    let mut seen_digit = false;
    let ghost digits = port_digits(text@);
    for c in it: text.chars()
        invariant
            it.seq() == text@,
            digits == port_digits(text@),
            first == (it.index() == 0),
            signed ==> it.index() > 0 && text@[0] == '+',
            !signed && it.index() > 0 ==> text@[0] != '+',
            seen_digit == (it.index() - (if signed { 1int } else { 0int }) > 0),
            forall|i: int|
                0 <= i < it.index() - (if signed { 1int } else { 0int }) ==> is_digit(
                    #[trigger] digits[i],
                ),
            value == decimal_value(digits.take(it.index() - (if signed { 1int } else { 0int }))),
            value <= u16::MAX,
    {
        let ghost count = it.index() - (if signed { 1int } else { 0int });
        if first && c == '+' {
            signed = true;
        } else if '0' <= c && c <= '9' {
            let digit: u32 = (c as u32) - 48;
            let next: u32 = value * 10 + digit;
            proof {
                assert(digits[count] == c);
                let longer = digits.take(count + 1);
                assert(longer.drop_last() =~= digits.take(count));
                assert(longer.last() == c);
                assert(next == decimal_value(longer));
            }
            if next > 65535 {
                proof {
                    if is_number(digits) {
                        lemma_decimal_value_grows(digits, count + 1);
                    }
                }
                return None;
            }
            value = next;
            seen_digit = true;
        } else {
            proof {
                assert(digits[count] == c);
                assert(!is_digit(digits[count]));
            }
            return None;
        }
        first = false;
    }
    proof {
        assert(digits.take(digits.len() as int) =~= digits);
    }
    if seen_digit {
        Some(value as u16)
    } else {
        None
    }
}

/// The port to listen on: the one that `setting` names, or the default
/// where there is no setting. A setting that names no port gives `None`.
pub fn listen_port(setting: Option<&str>) -> (port: Option<u16>)
    ensures
        port == configured_port(
            match setting {
                Some(text) => Some(text@),
                None => None,
            },
        ),
{
    match setting {
        Some(text) => parse_port(text),
        None => Some(DEFAULT_PORT),
    }
}

} // verus!
