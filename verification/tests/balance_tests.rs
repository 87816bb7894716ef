//! Balance literals: parsing and formatting.

use near_cli::balance::{format_u128, NearBalance};

const NEAR: u128 = 1_000_000_000_000_000_000_000_000;

#[test]
fn parses_whole_token_literals() {
    assert_eq!(NearBalance::from_text("10NEAR").unwrap().to_yoctonear(), 10 * NEAR);
    assert_eq!(NearBalance::from_text("5NEAR").unwrap().to_yoctonear(), 5 * NEAR);
    assert_eq!(NearBalance::from_text("0near").unwrap().to_yoctonear(), 0);
    assert_eq!(NearBalance::from_text("7NeAr").unwrap().to_yoctonear(), 7 * NEAR);
    assert_eq!(NearBalance::from_text("3n").unwrap().to_yoctonear(), 3 * NEAR);
}

#[test]
fn parses_fractional_literals() {
    assert_eq!(NearBalance::from_text("0.5near").unwrap().to_yoctonear(), NEAR / 2);
    assert_eq!(
        NearBalance::from_text("1.25NEAR").unwrap().to_yoctonear(),
        NEAR + NEAR / 4
    );
    assert_eq!(
        NearBalance::from_text("0.000000000000000000000001NEAR")
            .unwrap()
            .to_yoctonear(),
        1
    );
}

#[test]
fn parses_smallest_unit_literals() {
    assert_eq!(
        NearBalance::from_text("10000yoctonear").unwrap().to_yoctonear(),
        10_000
    );
    assert_eq!(NearBalance::from_text("1YOCTONEAR").unwrap().to_yoctonear(), 1);
}

#[test]
fn rejects_malformed_literals() {
    assert!(NearBalance::from_text("near").is_none());
    assert!(NearBalance::from_text("5").is_none());
    assert!(NearBalance::from_text("5.NEAR").is_none());
    assert!(NearBalance::from_text(".5NEAR").is_none());
    assert!(NearBalance::from_text("5.5yoctonear").is_none());
    assert!(NearBalance::from_text("5 NEAR").is_none());
    assert!(NearBalance::from_text("5NEARS").is_none());
    assert!(NearBalance::from_text("").is_none());
    // Twenty-five fractional digits: one more than the smallest unit resolves.
    assert!(NearBalance::from_text("1.0000000000000000000000005NEAR").is_none());
}

#[test]
fn rejects_amounts_over_the_maximum() {
    // 10^15 whole tokens is 10^39 of the smallest unit, over u128::MAX.
    assert!(NearBalance::from_text("1000000000000000NEAR").is_none());
    assert!(NearBalance::from_text("340282366920938463463374607431768211456yoctonear").is_none());
    assert_eq!(
        NearBalance::from_text("340282366920938463463374607431768211455yoctonear")
            .unwrap()
            .to_yoctonear(),
        u128::MAX
    );
}

#[test]
fn formats_decimal_numbers() {
    assert_eq!(format_u128(0), "0");
    assert_eq!(format_u128(7), "7");
    assert_eq!(format_u128(1234567890), "1234567890");
    assert_eq!(format_u128(u128::MAX), "340282366920938463463374607431768211455");
}

#[test]
fn smallest_unit_literal_reads_back() {
    let b = NearBalance::from_yoctonear(123456789);
    let text = b.to_yocto_literal();
    assert_eq!(text, "123456789yoctonear");
    let back = NearBalance::from_text(&text).unwrap();
    assert_eq!(back.to_yoctonear(), b.to_yoctonear());
}
