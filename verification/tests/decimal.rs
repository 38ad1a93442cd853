use pump_trader::decimal::{
    format_amount, format_four_places, parse_decimal, push_numeral, push_padded_numeral,
};

const UNIT: u64 = 100_000_000;

#[test]
fn whole_numbers_are_read() {
    assert_eq!(parse_decimal("0"), Some(0));
    assert_eq!(parse_decimal("7"), Some(7 * UNIT));
    assert_eq!(parse_decimal("65000"), Some(65_000 * UNIT));
    assert_eq!(parse_decimal("007"), Some(7 * UNIT));
}

#[test]
fn fractions_are_read() {
    assert_eq!(parse_decimal("102.8"), Some(10_280_000_000));
    assert_eq!(parse_decimal("0.00000001"), Some(1));
    assert_eq!(parse_decimal("0.5"), Some(50_000_000));
    assert_eq!(parse_decimal("1.23456789"), Some(123_456_789));
    assert_eq!(parse_decimal("3.10"), Some(310_000_000));
}

#[test]
fn digits_finer_than_a_unit_are_dropped() {
    assert_eq!(parse_decimal("0.000000019"), Some(1));
    assert_eq!(parse_decimal("0.000000009"), Some(0));
    assert_eq!(parse_decimal("1.234567891234"), Some(123_456_789));
}

#[test]
fn text_that_is_no_numeral_is_not_read() {
    for text in [
        "", ".", ".5", "5.", "1.2.3", "-1", "+1", "1e5", "abc", "12a", "1 ", " 1", "1,5", "NaN",
        "inf", "1.5x", "١٢", "1.٢",
    ] {
        assert_eq!(parse_decimal(text), None, "{:?}", text);
    }
}

#[test]
fn numerals_beyond_the_range_are_not_read() {
    assert_eq!(parse_decimal("184467440737.09551615"), Some(u64::MAX));
    assert_eq!(parse_decimal("184467440737.09551616"), None);
    assert_eq!(parse_decimal("184467440738"), None);
    assert_eq!(parse_decimal("99999999999999999999999999999999999999999999"), None);
    assert_eq!(parse_decimal("340282366920938463463374607431768211456"), None);
}

#[test]
fn amounts_are_written_in_full() {
    assert_eq!(format_amount(0), "0");
    assert_eq!(format_amount(10 * UNIT), "10");
    assert_eq!(format_amount(1_050_000_000), "10.5");
    assert_eq!(format_amount(1), "0.00000001");
    assert_eq!(format_amount(123_456_789), "1.23456789");
    assert_eq!(format_amount(100_000_100), "1.000001");
    assert_eq!(format_amount(u64::MAX), "184467440737.09551615");
}

#[test]
fn quantities_are_written_with_four_places() {
    assert_eq!(format_four_places(0), "0.0000");
    assert_eq!(format_four_places(94_150_943), "0.9415");
    assert_eq!(format_four_places(123_456_789), "1.2346");
    assert_eq!(format_four_places(1_000_050_000), "10.0005");
    assert_eq!(format_four_places(99_995_001), "1.0000");
    assert_eq!(format_four_places(u64::MAX), "184467440737.0955");
}

#[test]
fn a_quantity_between_two_is_rounded_to_the_even_one() {
    assert_eq!(format_four_places(125_000), "0.0012");
    assert_eq!(format_four_places(135_000), "0.0014");
    assert_eq!(format_four_places(125_001), "0.0013");
    assert_eq!(format_four_places(134_999), "0.0013");
}

#[test]
fn what_is_written_is_read_back() {
    for units in [0u64, 1, 99_999_999, UNIT, 12_345_678_901, u64::MAX] {
        assert_eq!(parse_decimal(&format_amount(units)), Some(units));
    }
}

#[test]
fn numerals_are_appended() {
    let mut text = String::from("n=");
    push_numeral(&mut text, 0);
    push_numeral(&mut text, 1_700_000_000_000);
    text.push('/');
    push_padded_numeral(&mut text, 42, 4);
    push_padded_numeral(&mut text, 12_345, 3);
    push_padded_numeral(&mut text, 9, 0);
    assert_eq!(text, "n=01700000000000/0042345");
}
