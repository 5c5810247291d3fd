//! Unsigned decimal numerals: an optional `+` followed by one or more ASCII
//! digits, denoting a number that fits in `usize`.

use vstd::prelude::*;

verus! {

/// Whether `c` is one of the ASCII digits `0` to `9`.
pub open spec fn is_digit(c: char) -> bool {
    '0' <= c && c <= '9'
}

/// The number that the digit `c` stands for.
pub open spec fn digit_value(c: char) -> nat
    recommends
        is_digit(c),
{
    (c as int - '0' as int) as nat
}

/// The digit that stands for a number below ten.
pub open spec fn digit_char(d: nat) -> char
    recommends
        d < 10,
{
    ('0' as int + d) as char
}

/// Whether every character of `s` is an ASCII digit.
pub open spec fn all_digits(s: Seq<char>) -> bool {
    forall|i: int| 0 <= i < s.len() ==> is_digit(#[trigger] s[i])
}

/// The number that a run of digits denotes, most significant digit first.
pub open spec fn decimal_value(digits: Seq<char>) -> nat
    decreases digits.len(),
{
    if digits.len() == 0 {
        0
    } else {
        10 * decimal_value(digits.drop_last()) + digit_value(digits.last())
    }
}

/// The usual writing of a number: its decimal digits, most significant first,
/// without a sign and without leading zeros (zero is written `0`).
pub open spec fn decimal_digits(n: nat) -> Seq<char>
    decreases n,
{
    if n < 10 {
        seq![digit_char(n)]
    } else {
        decimal_digits(n / 10).push(digit_char(n % 10))
    }
}

/// The digits of a numeral: what follows one leading `+`, or all of it.
pub open spec fn numeral_digits(s: Seq<char>) -> Seq<char> {
    if s.len() > 0 && s[0] == '+' {
        s.subrange(1, s.len() as int)
    } else {
        s
    }
}

/// What a string denotes as an unsigned decimal numeral, if anything: the
/// digits are there, all of them are digits, and the number fits in `usize`.
/// Nothing is skipped: a space, a minus sign or a second `+` makes the string
/// no numeral.
pub open spec fn parse_unsigned(s: Seq<char>) -> Option<usize> {
    let digits = numeral_digits(s);
    if digits.len() > 0 && all_digits(digits) && decimal_value(digits) <= usize::MAX {
        Some(decimal_value(digits) as usize)
    } else {
        None
    }
}

/// Where the digits begin in a numeral that is being read: behind the sign,
/// if one was read.
pub open spec fn digits_start(signed: bool) -> int {
    if signed {
        1
    } else {
        0
    }
}

/// A run of characters denotes at least as much as any of its prefixes.
pub proof fn lemma_prefix_value(digits: Seq<char>, k: int)
    requires
        0 <= k <= digits.len(),
    ensures
        decimal_value(digits.subrange(0, k)) <= decimal_value(digits),
    decreases digits.len() - k,
{
    if k == digits.len() {
        assert(digits.subrange(0, k) =~= digits);
    } else {
        lemma_prefix_value(digits, k + 1);
        assert(digits.subrange(0, k + 1).drop_last() =~= digits.subrange(0, k));
    }
}

/// Appending one character multiplies what was denoted by ten and adds the
/// character's value.
pub proof fn lemma_value_step(s: Seq<char>, start: int, i: int)
    requires
        0 <= start <= i < s.len(),
    ensures
        decimal_value(s.subrange(start, i + 1)) == 10 * decimal_value(s.subrange(start, i))
            + digit_value(s[i]),
{
    assert(s.subrange(start, i + 1).drop_last() =~= s.subrange(start, i));
}

/// The usual writing of a number is a nonempty run of digits that denotes
/// that number.
pub proof fn lemma_decimal_digits(n: nat)
    ensures
        decimal_digits(n).len() > 0,
        all_digits(decimal_digits(n)),
        decimal_value(decimal_digits(n)) == n,
    decreases n,
{
    let written = decimal_digits(n);
    if n < 10 {
        assert(written.drop_last() =~= Seq::<char>::empty());
        assert(decimal_value(written.drop_last()) == 0);
    } else {
        lemma_decimal_digits(n / 10);
        assert(written.drop_last() =~= decimal_digits(n / 10));
    }
}

/// Every number that fits in `usize` is read back from its usual writing.
pub proof fn lemma_written_number_parses(n: usize)
    ensures
        parse_unsigned(decimal_digits(n as nat)) == Some(n),
{
    lemma_decimal_digits(n as nat);
}

/// Reads one character as a digit.
pub fn read_digit(c: char) -> (r: Option<usize>)
    ensures
        is_digit(c) ==> r == Some(digit_value(c) as usize),
        !is_digit(c) ==> r is None,
{
    if '0' <= c && c <= '9' {
        Some((c as u32 - '0' as u32) as usize)
    } else {
        None
    }
}

/// Reads `s` as an unsigned decimal numeral, in one pass over its characters.
pub fn parse_usize(s: &str) -> (r: Option<usize>)
    ensures
        r == parse_unsigned(s@),
{
    let mut value: usize = 0;
    let mut first = true;
    let mut signed = false;
    let mut any = false;
    for c in it: s.chars()
        invariant
            it.seq() == s@,
            first == (it.index() == 0),
            signed ==> it.index() >= 1 && s@[0] == '+',
            !signed && !first ==> s@[0] != '+',
            any == (it.index() > digits_start(signed)),
            all_digits(s@.subrange(digits_start(signed), it.index() as int)),
            value == decimal_value(s@.subrange(digits_start(signed), it.index() as int)),
    {
        let ghost i = it.index() as int;
        let ghost start = digits_start(signed);
        let ghost digits = numeral_digits(s@);
        if first && c == '+' {
            signed = true;
        } else {
            assert(digits[i - start] == c);
            match read_digit(c) {
                None => {
                    // A character that is no digit: the digits are not all digits.
                    return None;
                },
                Some(d) => {
                    proof {
                        // What has been read so far is a prefix of the digits, so
                        // a number too large now stays too large.
                        lemma_value_step(s@, start, i);
                        lemma_prefix_value(digits, i + 1 - start);
                        assert(digits.subrange(0, i + 1 - start) =~= s@.subrange(start, i + 1));
                    }
                    let scaled = match value.checked_mul(10) {
                        Some(v) => v,
                        None => {
                            return None;
                        },
                    };
                    value = match scaled.checked_add(d) {
                        Some(v) => v,
                        None => {
                            return None;
                        },
                    };
                    any = true;
                },
            }
        }
        first = false;
    }
    assert(numeral_digits(s@) =~= s@.subrange(digits_start(signed), s@.len() as int));
    if any {
        Some(value)
    } else {
        None
    }
}

} // verus!
