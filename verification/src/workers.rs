//! How many workers the server starts: the configured count where the
//! configuration holds an unsigned decimal numeral, and sixteen otherwise.

use crate::decimal::{is_digit, numeral_digits, parse_unsigned, parse_usize};
use vstd::prelude::*;

verus! {

/// The worker count used when none is configured, or when what is configured
/// is no numeral.
pub const DEFAULT_WORKERS: usize = 16;

/// The worker count that a configured value stands for. An absent value and
/// a value that is no unsigned numeral both stand for the default; a numeral
/// stands for its number, zero included.
pub open spec fn resolved_workers(value: Option<Seq<char>>) -> usize {
    match value {
        Some(text) => match parse_unsigned(text) {
            Some(count) => count,
            None => DEFAULT_WORKERS,
        },
        None => DEFAULT_WORKERS,
    }
}

/// The name of the environment variable that configures the worker count.
pub fn workers_variable() -> (name: &'static str)
    ensures
        name@ == "WORKERS"@,
{
    "WORKERS"
}

/// Resolves the worker count from the configured value, if there is one.
/// Never fails: whatever cannot be read as a count gives the default.
pub fn resolve_workers(value: Option<&str>) -> (count: usize)
    ensures
        count == resolved_workers(value.deep_view()),
{
    match value {
        Some(text) => match parse_usize(text) {
            Some(count) => count,
            None => DEFAULT_WORKERS,
        },
        None => DEFAULT_WORKERS,
    }
}

/// With nothing configured the default count is used.
pub proof fn lemma_unset_gives_default()
    ensures
        resolved_workers(None) == 16,
{
}

/// A configured numeral resolves to the number it denotes.
pub proof fn lemma_numeral_gives_its_number(text: Seq<char>, count: usize)
    requires
        parse_unsigned(text) == Some(count),
    ensures
        resolved_workers(Some(text)) == count,
{
}

/// A configured value that is no numeral resolves to the default count.
pub proof fn lemma_no_numeral_gives_default(text: Seq<char>)
    requires
        parse_unsigned(text) is None,
    ensures
        resolved_workers(Some(text)) == 16,
{
}

/// The empty string is no numeral.
pub proof fn lemma_empty_gives_default()
    ensures
        resolved_workers(Some(Seq::<char>::empty())) == 16,
{
}

/// A value that starts with a minus sign is no numeral, whatever follows.
pub proof fn lemma_negative_gives_default(text: Seq<char>)
    requires
        text.len() > 0,
        text[0] == '-',
    ensures
        resolved_workers(Some(text)) == 16,
{
    assert(!is_digit(numeral_digits(text)[0]));
}

/// A value that holds anything but digits after its optional leading `+` is
/// no numeral.
pub proof fn lemma_non_digit_gives_default(text: Seq<char>, at: int)
    requires
        0 <= at < text.len(),
        !is_digit(text[at]),
        at > 0 || text[0] != '+',
    ensures
        resolved_workers(Some(text)) == 16,
{
    let digits = numeral_digits(text);
    if text[0] == '+' {
        assert(digits[at - 1] == text[at]);
    } else {
        assert(digits[at] == text[at]);
    }
}

} // verus!
