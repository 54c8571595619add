use bybit_shiprekt::amount::{notional, pow10_u128, render_count, render_decimal};
use bybit_shiprekt::numeral::Decimal;

#[test]
fn counts_are_grouped_by_three() {
    assert_eq!(render_count(0), "0");
    assert_eq!(render_count(100), "100");
    assert_eq!(render_count(999), "999");
    assert_eq!(render_count(1000), "1,000");
    assert_eq!(render_count(1000000), "1,000,000");
    assert_eq!(render_count(4294967295), "4,294,967,295");
    assert_eq!(render_count(1002003), "1,002,003");
}

#[test]
fn decimals_are_written_without_trailing_zeros() {
    assert_eq!(render_decimal(false, 450005, 1), "45,000.5");
    assert_eq!(render_decimal(false, 4500050000, 3), "4,500,050");
    assert_eq!(render_decimal(false, 150, 2), "1.5");
    assert_eq!(render_decimal(false, 5, 3), "0.005");
    assert_eq!(render_decimal(false, 1234567, 0), "1,234,567");
    assert_eq!(render_decimal(true, 1234567, 2), "-12,345.67");
    assert_eq!(render_decimal(false, 0, 0), "0");
    assert_eq!(render_decimal(false, 0, 5), "0");
    assert_eq!(render_decimal(true, 0, 0), "-0");
    assert_eq!(render_decimal(false, 100, 2), "1");
    assert_eq!(render_decimal(false, 1010, 3), "1.01");
}

#[test]
fn decimals_with_long_fractions_keep_their_zeros() {
    assert_eq!(
        render_decimal(false, 1, 40),
        format!("0.{}1", "0".repeat(39))
    );
    assert_eq!(
        render_decimal(false, 120, 41),
        format!("0.{}12", "0".repeat(38))
    );
    assert_eq!(
        render_decimal(false, u128::MAX, 38),
        "3.40282366920938463463374607431768211455"
    );
}

#[test]
fn decimals_agree_with_floats_on_short_numbers() {
    // what the float formatter prints for the same numbers
    assert_eq!(format!("{}", 45000.5f64), "45000.5");
    assert_eq!(render_decimal(false, 450005, 1).replace(',', ""), format!("{}", 45000.5f64));
    assert_eq!(render_decimal(false, 25, 2).replace(',', ""), format!("{}", 0.25f64));
    assert_eq!(render_decimal(false, 3000, 1).replace(',', ""), format!("{}", 300.0f64));
}

#[test]
fn notional_is_price_times_quantity_in_thousandths() {
    let price = Decimal { negative: false, units: 450005, scale: 1 };
    assert_eq!(notional(&price, 100), 4_500_050_000);
    let whole = Decimal { negative: false, units: 7, scale: 0 };
    assert_eq!(notional(&whole, 3), 21_000);
    let exact = Decimal { negative: false, units: 1234, scale: 3 };
    assert_eq!(notional(&exact, 2), 2_468);
}

#[test]
fn notional_rounds_to_the_nearest_thousandth() {
    // 0.0004 * 1 = 0.0004 -> 0.000
    assert_eq!(notional(&Decimal { negative: false, units: 4, scale: 4 }, 1), 0);
    // 0.0005 * 1 = 0.0005 -> 0.001
    assert_eq!(notional(&Decimal { negative: false, units: 5, scale: 4 }, 1), 1);
    // 0.12345 * 3 = 0.37035 -> 0.370
    assert_eq!(notional(&Decimal { negative: false, units: 12345, scale: 5 }, 3), 370);
    // 0.12355 * 3 = 0.37065 -> 0.371
    assert_eq!(notional(&Decimal { negative: false, units: 12355, scale: 5 }, 3), 371);
    // far below a thousandth
    assert_eq!(notional(&Decimal { negative: false, units: u64::MAX, scale: 60 }, u32::MAX), 0);
    assert_eq!(notional(&Decimal { negative: false, units: u64::MAX, scale: 33 }, u32::MAX), 0);
}

#[test]
fn notional_agrees_with_the_float_formula_on_the_sample() {
    let float = (45000.5f64 * 100f64 * 1000.0).round() / 1000.0;
    let price = Decimal { negative: false, units: 450005, scale: 1 };
    assert_eq!(notional(&price, 100) as f64 / 1000.0, float);
}

#[test]
fn notional_at_the_largest_inputs() {
    let price = Decimal { negative: false, units: u64::MAX, scale: 0 };
    assert_eq!(
        notional(&price, u32::MAX),
        (u64::MAX as u128) * (u32::MAX as u128) * 1000
    );
}

#[test]
fn powers_of_ten() {
    assert_eq!(pow10_u128(0), 1);
    assert_eq!(pow10_u128(3), 1000);
    assert_eq!(pow10_u128(38), 100_000_000_000_000_000_000_000_000_000_000_000_000);
}
