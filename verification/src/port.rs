//! Reading a port number from a line of input.

use crate::chars::{all_digits, char_is_digit, char_is_whitespace, chars_of, is_digit, is_whitespace};
use crate::decimal::{
    decimal_digits, decimal_value, digit_of, lemma_decimal_digits_are_digits,
    lemma_decimal_round_trip, lemma_decimal_value_grows,
};
use vstd::prelude::*;

verus! {

/// `s` without the white space at its end.
pub open spec fn trim_end(s: Seq<char>) -> Seq<char>
    decreases s.len(),
{
    if s.len() > 0 && is_whitespace(s.last()) {
        trim_end(s.drop_last())
    } else {
        s
    }
}

/// `s` without a plus sign at its start, if it has one.
pub open spec fn without_plus(s: Seq<char>) -> Seq<char> {
    if s.len() > 0 && s[0] == '+' {
        s.skip(1)
    } else {
        s
    }
}

/// The port that a line of input denotes. White space at the end of the
/// line is ignored. What is left must be one or more decimal digits, with
/// an optional plus sign in front, and must denote a number that fits in
/// 16 bits. Leading zeros are accepted.
pub open spec fn port_of(input: Seq<char>) -> Option<u16> {
    let digits = without_plus(trim_end(input));
    if digits.len() > 0 && all_digits(digits) && decimal_value(digits) <= u16::MAX {
        Some(decimal_value(digits) as u16)
    } else {
        None
    }
}

/// Parses a port number from a line of input, or returns `None` where the
/// line denotes none.
pub fn parse_port(input: &str) -> (r: Option<u16>)
    ensures
        r == port_of(input@),
{
    let v = chars_of(input);
    let mut end: usize = v.len();
    assert(v@.take(end as int) =~= v@);
    while end > 0 && char_is_whitespace(v[end - 1])
        invariant
            end <= v@.len(),
            trim_end(v@) == trim_end(v@.take(end as int)),
        decreases end,
    {
        assert(v@.take(end as int).drop_last() =~= v@.take(end - 1));
        end -= 1;
    }
    let ghost trimmed = v@.take(end as int);
    assert(trim_end(v@) == trimmed);
    let start: usize = if end > 0 && v[0] == '+' {
        1
    } else {
        0
    };
    let ghost digits = v@.subrange(start as int, end as int);
    assert(without_plus(trimmed) =~= digits);
    if start == end {
        return None;
    }
    let mut acc: u32 = 0;
    let mut i: usize = start;
    assert(digits.take(0) =~= Seq::<char>::empty());
    while i < end
        invariant
            start <= i <= end <= v@.len(),
            digits == v@.subrange(start as int, end as int),
            digits == without_plus(trim_end(input@)),
            all_digits(digits.take(i - start)),
            acc == decimal_value(digits.take(i - start)),
            acc <= u16::MAX,
        decreases end - i,
    {
        let c = v[i];
        assert(digits[i - start] == c);
        if !char_is_digit(c) {
            return None;
        }
        proof {
            let next = digits.take(i - start + 1);
            assert(next.drop_last() =~= digits.take(i - start));
            assert(next.last() == c);
            assert forall|k: int| 0 <= k < next.len() implies is_digit(#[trigger] next[k]) by {
                if k < i - start {
                    assert(digits.take(i - start)[k] == next[k]);
                }
            }
        }
        acc = acc * 10 + digit_of(c) as u32;
        if acc > 0xffff {
            proof {
                lemma_decimal_value_grows(digits, i - start + 1);
            }
            return None;
        }
        i += 1;
    }
    assert(digits.take(i - start) =~= digits);
    Some(acc as u16)
}

/// The decimal notation of a port is read back as that port.
pub proof fn lemma_port_round_trip(port: u16)
    ensures
        port_of(decimal_digits(port as nat)) == Some(port),
{
    let s = decimal_digits(port as nat);
    lemma_decimal_digits_are_digits(port as nat);
    lemma_decimal_round_trip(port as nat);
    assert(is_digit(s.last()));
    assert(is_digit(s[0]));
}

} // verus!
