//! Instrument-symbol taxonomy: base currency, linear perpetuals and dated
//! futures, all derived from the ticker text alone.

use vstd::prelude::*;
use crate::text::{
    chars_of, count_occurrences, find_first, first_occurrence, lemma_first_occurrence_is_least,
    lemma_no_occurrence_counts_zero, occurrence_count, occurs_at,
};

verus! {

/// The pattern that tells a dated future from an inverse perpetual: a run of
/// non-space characters, the quote marker, and two or more non-space
/// characters after it (as in `BTCUSDM22` or `ETHUSD0325`).
pub const DATED_FUTURE_PATTERN: &'static str = "\\S+USD\\S\\S+";

/// The base currency of a symbol: what precedes the first `USD`, if any.
pub open spec fn base_currency(symbol: Seq<char>) -> Option<Seq<char>> {
    match first_occurrence(symbol, "USD"@) {
        Some(at) => Some(symbol.subrange(0, at)),
        None => None,
    }
}

/// A symbol is a linear perpetual when `USDT` occurs in it exactly once.
pub open spec fn is_linear(symbol: Seq<char>) -> bool {
    occurrence_count(symbol, "USDT"@) == 1
}

/// The characters with the Unicode property `White_Space`.
pub open spec fn is_white_space(c: char) -> bool {
    let code = c as u32;
    ||| 0x09 <= code <= 0x0d
    ||| code == 0x20
    ||| code == 0x85
    ||| code == 0xa0
    ||| code == 0x1680
    ||| 0x2000 <= code <= 0x200a
    ||| code == 0x2028
    ||| code == 0x2029
    ||| code == 0x202f
    ||| code == 0x205f
    ||| code == 0x3000
}

/// `USD` occurs at `at` with a non-space character right before it and two
/// non-space characters right after it.
pub open spec fn dated_future_shape_at(symbol: Seq<char>, at: int) -> bool {
    &&& occurs_at(symbol, "USD"@, at)
    &&& 1 <= at
    &&& at + 5 <= symbol.len()
    &&& !is_white_space(symbol[at - 1])
    &&& !is_white_space(symbol[at + 3])
    &&& !is_white_space(symbol[at + 4])
}

/// Some part of the symbol reads: one or more non-space characters, `USD`,
/// two or more non-space characters.
pub open spec fn has_dated_future_shape(symbol: Seq<char>) -> bool {
    exists|at: int| dated_future_shape_at(symbol, at)
}

/// A dated future is a symbol that is not a linear perpetual and has the
/// dated-future shape.
pub open spec fn is_dated_future(symbol: Seq<char>) -> bool {
    !is_linear(symbol) && has_dated_future_shape(symbol)
}

/// Calls `regex::Regex::new` on `pattern` and, where it compiles,
/// `regex::Regex::is_match` on `text`; `None` stands for a pattern that does
/// not compile. The contract speaks of one pattern only,
/// `DATED_FUTURE_PATTERN`: it compiles, and by the crate's syntax (`\S` is any
/// character without the property `White_Space`, `+` is one or more, a search
/// is unanchored) it matches exactly the texts with the dated-future shape.
#[verifier::external_body]
fn regex_search(pattern: &str, text: &str) -> (found: Option<bool>)
    ensures
        pattern@ == DATED_FUTURE_PATTERN@ ==> found == Some(has_dated_future_shape(text@)),
{
    match regex::Regex::new(pattern) {
        Ok(compiled) => Some(compiled.is_match(text)),
        Err(_) => None,
    }
}

/// Gets the base currency of a symbol: the part before the first `USD`.
/// A symbol without `USD` has none.
pub fn get_base_currency(symbol: &str) -> (base: Result<&str, ()>)
    ensures
        match base {
            Ok(found) => base_currency(symbol@) == Some(found@),
            Err(_) => base_currency(symbol@) is None,
        },
        base is Err <==> forall|at: int| !occurs_at(symbol@, "USD"@, at),
{
    let text = chars_of(symbol);
    let marker = chars_of("USD");
    proof {
        lemma_first_occurrence_is_least(symbol@, "USD"@);
    }
    match find_first(&text, &marker) {
        Some(at) => Ok(symbol.substring_char(0, at)),
        None => Err(()),
    }
}

/// Tells whether a symbol is a linear perpetual: `USDT` occurs in it exactly
/// once. Two or more occurrences make it not linear.
pub fn is_linear_perpetual(symbol: &str) -> (linear: bool)
    ensures
        linear == is_linear(symbol@),
{
    let text = chars_of(symbol);
    let marker = chars_of("USDT");
    proof {
        reveal_strlit("USDT");
    }
    count_occurrences(&text, &marker) == 1
}

/// Tells whether a symbol is a dated (non-perpetual) contract: it is not a
/// linear perpetual and has the dated-future shape.
pub fn is_non_perpetual_contract(symbol: &str) -> (dated: bool)
    ensures
        dated == is_dated_future(symbol@),
{
    if is_linear_perpetual(symbol) {
        return false;
    }
    match regex_search(DATED_FUTURE_PATTERN, symbol) {
        Some(found) => found,
        None => false,
    }
}

/// A symbol in which `USD` occurs nowhere has no base currency, is not a
/// linear perpetual and is not a dated future.
pub proof fn lemma_symbol_without_usd(symbol: Seq<char>)
    requires
        forall|at: int| !occurs_at(symbol, "USD"@, at),
    ensures
        base_currency(symbol) is None,
        !is_linear(symbol),
        !is_dated_future(symbol),
{
    reveal_strlit("USD");
    reveal_strlit("USDT");
    lemma_first_occurrence_is_least(symbol, "USD"@);
    assert forall|at: int| !occurs_at(symbol, "USDT"@, at) by {
        if occurs_at(symbol, "USDT"@, at) {
            assert(symbol.subrange(at, at + 3) =~= symbol.subrange(at, at + 4).subrange(0, 3));
            assert("USDT"@.subrange(0, 3) =~= "USD"@);
            assert(occurs_at(symbol, "USD"@, at));
        }
    }
    lemma_no_occurrence_counts_zero(symbol, "USDT"@, symbol.len() as int + 1);
}

} // verus!
