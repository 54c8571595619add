//! Decimal numerals: the digits of a text read as numbers, and numbers
//! written back as digits.

use vstd::prelude::*;
use crate::text::{chars_of, find_first, first_occurrence, lemma_first_occurrence_is_least};

verus! {

/// Why a text could not be read as a number.
#[derive(Debug, Clone, Copy, PartialEq, Eq)]
pub enum NumeralError {
    /// The text is not a numeral of the expected form.
    Malformed,
    /// The text is a numeral, but its value does not fit the target type.
    OutOfRange,
}

/// An exact decimal number: `units / 10^scale`, negated when `negative`.
#[derive(Debug, Clone, Copy, PartialEq, Eq)]
pub struct Decimal {
    pub negative: bool,
    pub units: u64,
    pub scale: usize,
}

/// The mathematical value held by a `Decimal`.
pub ghost struct DecimalValue {
    pub negative: bool,
    pub units: nat,
    pub scale: nat,
}

impl View for Decimal {
    type V = DecimalValue;

    open spec fn view(&self) -> DecimalValue {
        DecimalValue { negative: self.negative, units: self.units as nat, scale: self.scale as nat }
    }
}

pub open spec fn is_digit(c: char) -> bool {
    '0' <= c && c <= '9'
}

pub open spec fn digit_value(c: char) -> nat {
    (c as int - '0' as int) as nat
}

pub open spec fn all_digits(s: Seq<char>) -> bool {
    forall|i: int| 0 <= i < s.len() ==> is_digit(#[trigger] s[i])
}

/// The number that a sequence of digits denotes, most significant first.
pub open spec fn digits_value(s: Seq<char>) -> nat
    decreases s.len(),
{
    if s.len() == 0 {
        0
    } else {
        digits_value(s.drop_last()) * 10 + digit_value(s.last())
    }
}

/// An unsigned numeral is an optional `+` and then one or more digits.
pub open spec fn unsigned_numeral(s: Seq<char>) -> Option<nat> {
    let digits = if s.len() > 0 && s[0] == '+' {
        s.skip(1)
    } else {
        s
    };
    if digits.len() > 0 && all_digits(digits) {
        Some(digits_value(digits))
    } else {
        None
    }
}

/// A decimal numeral is an optional sign, digits, and optionally a point
/// with more digits; at least one digit must be there.
pub open spec fn decimal_numeral(s: Seq<char>) -> Option<DecimalValue> {
    let signed = s.len() > 0 && (s[0] == '+' || s[0] == '-');
    let body = if signed {
        s.skip(1)
    } else {
        s
    };
    let point = match first_occurrence(body, seq!['.']) {
        Some(at) => at,
        None => body.len() as int,
    };
    let whole = body.subrange(0, point);
    let fraction = if point < body.len() {
        body.skip(point + 1)
    } else {
        Seq::empty()
    };
    if whole.len() + fraction.len() > 0 && all_digits(whole) && all_digits(fraction) {
        Some(
            DecimalValue {
                negative: signed && s[0] == '-',
                units: digits_value(whole + fraction),
                scale: fraction.len(),
            },
        )
    } else {
        None
    }
}

/// Reading one more digit multiplies what was read by ten and adds the digit.
pub proof fn lemma_digits_value_step(s: Seq<char>, k: int)
    requires
        0 <= k < s.len(),
    ensures
        digits_value(s.take(k + 1)) == digits_value(s.take(k)) * 10 + digit_value(s[k]),
{
    assert(s.take(k + 1).drop_last() =~= s.take(k));
}

/// A prefix of a digit sequence denotes no more than the whole sequence.
pub proof fn lemma_digits_value_prefix(s: Seq<char>, k: int)
    requires
        0 <= k <= s.len(),
    ensures
        digits_value(s.take(k)) <= digits_value(s),
    decreases s.len() - k,
{
    if k == s.len() {
        assert(s.take(k) =~= s);
    } else {
        lemma_digits_value_step(s, k);
        lemma_digits_value_prefix(s, k + 1);
    }
}

/// Tells whether every character of `text` is a decimal digit.
pub(crate) fn only_digits(text: &Vec<char>) -> (ok: bool)
    ensures
        ok == all_digits(text@),
{
    let mut i: usize = 0;
    while i < text.len()
        invariant
            i <= text.len(),
            forall|j: int| 0 <= j < i ==> is_digit(#[trigger] text@[j]),
        decreases text.len() - i,
    {
        let c = text[i];
        if c < '0' || c > '9' {
            return false;
        }
        i += 1;
    }
    true
}

/// Reads a sequence of digits as a 64-bit number; `None` when it does not fit.
pub(crate) fn digits_to_u64(digits: &Vec<char>) -> (value: Option<u64>)
    requires
        all_digits(digits@),
    ensures
        match value {
            Some(v) => v == digits_value(digits@),
            None => digits_value(digits@) > u64::MAX,
        },
{
    let mut value: u64 = 0;
    let mut i: usize = 0;
    while i < digits.len()
        invariant
            i <= digits.len(),
            all_digits(digits@),
            value == digits_value(digits@.take(i as int)),
        decreases digits.len() - i,
    {
        let digit: u64 = (digits[i] as u32 - '0' as u32) as u64;
        proof {
            lemma_digits_value_step(digits@, i as int);
            lemma_digits_value_prefix(digits@, i + 1);
        }
        if value > (u64::MAX - digit) / 10 {
            return None;
        }
        value = value * 10 + digit;
        i += 1;
    }
    assert(digits@.take(i as int) =~= digits@);
    Some(value)
}

/// Copies the characters of `text` from position `from` to position `to`.
pub(crate) fn copy_range(text: &Vec<char>, from: usize, to: usize) -> (part: Vec<char>)
    requires
        from <= to <= text.len(),
    ensures
        part@ == text@.subrange(from as int, to as int),
{
    let mut part: Vec<char> = Vec::new();
    let mut i: usize = from;
    while i < to
        invariant
            from <= i <= to,
            to <= text.len(),
            part@ == text@.subrange(from as int, i as int),
        decreases to - i,
    {
        part.push(text[i]);
        i += 1;
    }
    part
}

/// Reads a quantity written as text: an optional `+` and decimal digits,
/// with a value that fits 32 bits.
pub fn de_string_to_number(buf: &str) -> (number: Result<u32, NumeralError>)
    ensures
        match number {
            Ok(n) => unsigned_numeral(buf@) == Some(n as nat),
            Err(NumeralError::Malformed) => unsigned_numeral(buf@) is None,
            Err(NumeralError::OutOfRange) => unsigned_numeral(buf@) is Some
                && unsigned_numeral(buf@).unwrap() > u32::MAX,
        },
{
    let text = chars_of(buf);
    let start: usize = if text.len() > 0 && text[0] == '+' {
        1
    } else {
        0
    };
    let digits = copy_range(&text, start, text.len());
    assert(digits@ =~= if buf@.len() > 0 && buf@[0] == '+' {
        buf@.skip(1)
    } else {
        buf@
    });
    if digits.len() == 0 || !only_digits(&digits) {
        return Err(NumeralError::Malformed);
    }
    match digits_to_u64(&digits) {
        Some(value) => {
            if value <= 0xffff_ffff {
                Ok(value as u32)
            } else {
                Err(NumeralError::OutOfRange)
            }
        },
        None => Err(NumeralError::OutOfRange),
    }
}

/// Reads a price written as text: a decimal numeral whose digits, taken
/// together, fit 64 bits.
pub fn de_string_to_decimal(buf: &str) -> (number: Result<Decimal, NumeralError>)
    ensures
        match number {
            Ok(d) => decimal_numeral(buf@) == Some(d@),
            Err(NumeralError::Malformed) => decimal_numeral(buf@) is None,
            Err(NumeralError::OutOfRange) => decimal_numeral(buf@) is Some
                && decimal_numeral(buf@).unwrap().units > u64::MAX,
        },
{
    let text = chars_of(buf);
    let signed = text.len() > 0 && (text[0] == '+' || text[0] == '-');
    let negative = signed && text[0] == '-';
    let start: usize = if signed {
        1
    } else {
        0
    };
    let body = copy_range(&text, start, text.len());
    assert(body@ =~= if signed {
        buf@.skip(1)
    } else {
        buf@
    });
    let mut mark: Vec<char> = Vec::new();
    mark.push('.');
    proof {
        lemma_first_occurrence_is_least(body@, seq!['.']);
    }
    let point: usize = match find_first(&body, &mark) {
        Some(at) => at,
        None => body.len(),
    };
    let mut digits = copy_range(&body, 0, point);
    let fraction = if point < body.len() {
        copy_range(&body, point + 1, body.len())
    } else {
        Vec::new()
    };
    if digits.len() == 0 && fraction.len() == 0 {
        return Err(NumeralError::Malformed);
    }
    if !only_digits(&digits) || !only_digits(&fraction) {
        return Err(NumeralError::Malformed);
    }
    let scale = fraction.len();
    let mut fraction = fraction;
    digits.append(&mut fraction);
    match digits_to_u64(&digits) {
        Some(units) => Ok(Decimal { negative, units, scale }),
        None => Err(NumeralError::OutOfRange),
    }
}

} // verus!
