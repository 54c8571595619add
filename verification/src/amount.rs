//! Money amounts: the notional of a position and the way amounts are
//! written out, with thousands separators and without trailing zeros.

use vstd::prelude::*;
use vstd::string::StringExecFns;
use crate::numeral::Decimal;

verus! {

/// Ten to the power `n`.
pub open spec fn pow10(n: nat) -> nat
    decreases n,
{
    if n == 0 {
        1
    } else {
        10 * pow10((n - 1) as nat)
    }
}

/// The character of a single decimal digit.
pub open spec fn digit_char(d: nat) -> char {
    (d + 0x30) as u8 as char
}

/// The decimal digits of `n`, most significant first, without leading zeros.
pub open spec fn decimal_digits(n: nat) -> Seq<char>
    decreases n,
{
    if n < 10 {
        seq![digit_char(n)]
    } else {
        decimal_digits(n / 10).push(digit_char(n % 10))
    }
}

/// The last `width` decimal digits of `n`, most significant first, with
/// leading zeros where `n` is short.
pub open spec fn fixed_digits(n: nat, width: nat) -> Seq<char>
    decreases width,
{
    if width == 0 {
        Seq::empty()
    } else {
        fixed_digits(n / 10, (width - 1) as nat).push(digit_char(n % 10))
    }
}

/// The digits of `n` in groups of three, separated by commas.
pub open spec fn grouped_digits(n: nat) -> Seq<char>
    decreases n,
{
    if n < 1000 {
        decimal_digits(n)
    } else {
        grouped_digits(n / 1000) + seq![','] + fixed_digits(n % 1000, 3)
    }
}

/// The `width` digits of a fraction without its trailing zeros.
pub open spec fn trimmed_fraction(fraction: nat, width: nat) -> Seq<char>
    decreases width,
{
    if width == 0 {
        Seq::empty()
    } else if fraction % 10 == 0 {
        trimmed_fraction(fraction / 10, (width - 1) as nat)
    } else {
        fixed_digits(fraction, width)
    }
}

/// A point and the digits of the fraction, or nothing for a zero fraction.
pub open spec fn fraction_suffix(fraction: nat, width: nat) -> Seq<char> {
    let digits = trimmed_fraction(fraction, width);
    if digits.len() == 0 {
        Seq::empty()
    } else {
        seq!['.'] + digits
    }
}

/// The written form of `units / 10^scale`: a minus sign when negative, the
/// whole part in groups of three, and the fraction without trailing zeros.
pub open spec fn rendered(negative: bool, units: nat, scale: nat) -> Seq<char> {
    let sign = if negative {
        seq!['-']
    } else {
        Seq::empty()
    };
    sign + grouped_digits(units / pow10(scale)) + fraction_suffix(units % pow10(scale), scale)
}

/// The product `units / 10^scale * quantity` in thousandths, rounded to the
/// nearest thousandth, a half rounding up.
pub open spec fn notional_thousandths(units: nat, scale: nat, quantity: nat) -> nat {
    if scale <= 3 {
        units * quantity * pow10((3 - scale) as nat)
    } else {
        (2 * units * quantity + pow10((scale - 3) as nat)) / (2 * pow10((scale - 3) as nat))
    }
}

pub proof fn lemma_pow10_grows(a: nat, b: nat)
    requires
        a <= b,
    ensures
        0 < pow10(a) <= pow10(b),
    decreases b,
{
    if a < b {
        lemma_pow10_grows(a, (b - 1) as nat);
    } else if b > 0 {
        lemma_pow10_grows((a - 1) as nat, (b - 1) as nat);
    }
}

pub proof fn lemma_pow10_values()
    ensures
        pow10(3) == 1000,
        pow10(29) == 100_000_000_000_000_000_000_000_000_000,
        pow10(30) == 1_000_000_000_000_000_000_000_000_000_000,
        pow10(38) == 100_000_000_000_000_000_000_000_000_000_000_000_000,
        pow10(39) == 1_000_000_000_000_000_000_000_000_000_000_000_000_000,
{
    reveal_with_fuel(pow10, 40);
}

pub proof fn lemma_fixed_digits_len(n: nat, width: nat)
    ensures
        fixed_digits(n, width).len() == width,
    decreases width,
{
    if width > 0 {
        lemma_fixed_digits_len(n / 10, (width - 1) as nat);
    }
}

pub proof fn lemma_zero_fraction_is_trimmed_away(width: nat)
    ensures
        trimmed_fraction(0, width).len() == 0,
    decreases width,
{
    if width > 0 {
        lemma_zero_fraction_is_trimmed_away((width - 1) as nat);
    }
}

/// `String::push` appends one character to the string.
pub assume_specification[ String::push ](s: &mut String, c: char)
    ensures
        final(s)@ == old(s)@.push(c),
;

/// Calls `separator::Separatable::separated_string` on a `u128`: the
/// number's decimal digits with a comma before each group of three digits,
/// counted from the right.
#[verifier::external_body]
fn separated(n: u128) -> (text: String)
    ensures
        text@ == grouped_digits(n as nat),
{
    separator::Separatable::separated_string(&n)
}

/// Writes out a count in groups of three digits.
pub fn render_count(count: u32) -> (text: String)
    ensures
        text@ == grouped_digits(count as nat),
{
    separated(count as u128)
}

/// Ten to the power `n`, for powers that fit 128 bits.
pub fn pow10_u128(n: usize) -> (power: u128)
    requires
        n <= 38,
    ensures
        power == pow10(n as nat),
{
    let mut power: u128 = 1;
    let mut i: usize = 0;
    while i < n
        invariant
            i <= n <= 38,
            power == pow10(i as nat),
        decreases n - i,
    {
        proof {
            lemma_pow10_values();
            lemma_pow10_grows((i + 1) as nat, 38);
        }
        power = power * 10;
        i += 1;
    }
    power
}

/// Appends the last `width` decimal digits of `n` to `text`.
pub fn push_fixed_digits(text: &mut String, n: u128, width: usize)
    ensures
        final(text)@ == old(text)@ + fixed_digits(n as nat, width as nat),
{
    let mut reversed: Vec<char> = Vec::new();
    let mut rest: u128 = n;
    let mut i: usize = 0;
    while i < width
        invariant
            i <= width,
            reversed@.len() == i,
            fixed_digits(n as nat, width as nat) == fixed_digits(rest as nat, (width - i) as nat)
                + reversed@.reverse(),
        decreases width - i,
    {
        let digit: u8 = (rest % 10) as u8;
        let c: char = (digit + 0x30) as char;
        reversed.push(c);
        rest = rest / 10;
        i += 1;
    }
    let mut k: usize = width;
    while k > 0
        invariant
            k <= width,
            reversed@.len() == width,
            text@ == old(text)@ + reversed@.reverse().take(width - k),
        decreases k,
    {
        k -= 1;
        text.push(reversed[k]);
    }
}

/// Writes out `units / 10^scale`, negated when `negative`.
pub fn render_decimal(negative: bool, units: u128, scale: usize) -> (text: String)
    ensures
        text@ == rendered(negative, units as nat, scale as nat),
{
    proof {
        lemma_pow10_values();
        if scale > 38 {
            lemma_pow10_grows(39, scale as nat);
        }
        lemma_pow10_grows(0, scale as nat);
    }
    let (whole, fraction): (u128, u128) = if scale <= 38 {
        let power = pow10_u128(scale);
        (units / power, units % power)
    } else {
        assert(units as nat / pow10(scale as nat) == 0) by (nonlinear_arith)
            requires
                units < pow10(scale as nat),
        ;
        assert(units as nat % pow10(scale as nat) == units) by (nonlinear_arith)
            requires
                units < pow10(scale as nat),
        ;
        (0, units)
    };
    let mut text = String::new();
    if negative {
        text.push('-');
    }
    let grouped = separated(whole);
    text.append(grouped.as_str());
    if fraction == 0 {
        proof {
            lemma_zero_fraction_is_trimmed_away(scale as nat);
        }
        return text;
    }
    let mut rest: u128 = fraction;
    let mut width: usize = scale;
    while rest % 10 == 0
        invariant
            0 < rest < pow10(width as nat),
            trimmed_fraction(rest as nat, width as nat) == trimmed_fraction(
                fraction as nat,
                scale as nat,
            ),
        decreases rest,
    {
        rest = rest / 10;
        width = width - 1;
    }
    proof {
        lemma_fixed_digits_len(rest as nat, width as nat);
    }
    text.push('.');
    push_fixed_digits(&mut text, rest, width);
    text
}

/// The bankruptcy notional of a position: price times quantity, in
/// thousandths, rounded to the nearest thousandth.
pub fn notional(price: &Decimal, quantity: u32) -> (thousandths: u128)
    ensures
        thousandths == notional_thousandths(price@.units, price@.scale, quantity as nat),
{
    proof {
        lemma_pow10_values();
    }
    assert(price.units * quantity <= 0xffff_ffff_ffff_ffff * 0xffff_ffff) by (nonlinear_arith)
        requires
            price.units <= 0xffff_ffff_ffff_ffff,
            quantity <= 0xffff_ffff,
    ;
    let product: u128 = (price.units as u128) * (quantity as u128);
    assert(2 * price@.units * (quantity as nat) == 2 * product) by (nonlinear_arith)
        requires
            product == price@.units * (quantity as nat),
    ;
    if price.scale <= 3 {
        proof {
            lemma_pow10_grows((3 - price.scale) as nat, 3);
        }
        let power = pow10_u128(3 - price.scale);
        assert(product * power <= 0xffff_ffff_ffff_ffff * 0xffff_ffff * 1000) by (nonlinear_arith)
            requires
                product <= 0xffff_ffff_ffff_ffff * 0xffff_ffff,
                power <= 1000,
        ;
        product * power
    } else if price.scale - 3 > 29 {
        proof {
            let power = pow10((price.scale - 3) as nat) as int;
            lemma_pow10_grows(30, (price.scale - 3) as nat);
            assert((2 * product + power) / (2 * power) == 0) by (nonlinear_arith)
                requires
                    0 <= 2 * product < power,
            ;
        }
        0
    } else {
        proof {
            lemma_pow10_grows((price.scale - 3) as nat, 29);
        }
        let power = pow10_u128(price.scale - 3);
        (2 * product + power) / (2 * power)
    }
}

} // verus!
