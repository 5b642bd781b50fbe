use tauri_plugin_iap::normalizer::price::{is_kept, parse_price_micros};

#[test]
fn price_with_currency_sign() {
    assert_eq!(parse_price_micros("$9.99"), 9_990_000);
}

#[test]
fn price_without_currency_sign() {
    assert_eq!(parse_price_micros("9.99"), 9_990_000);
}

#[test]
fn price_with_currency_code_and_spaces() {
    assert_eq!(parse_price_micros("US$ 0.99"), 990_000);
    assert_eq!(parse_price_micros("1,299.00 USD"), 1_299_000_000);
}

#[test]
fn price_with_comma_as_decimal_mark_reads_the_dot() {
    assert_eq!(parse_price_micros("€1.234,56"), 1_234_560);
}

#[test]
fn price_without_fraction() {
    assert_eq!(parse_price_micros("12"), 12_000_000);
    assert_eq!(parse_price_micros("12."), 12_000_000);
}

#[test]
fn price_without_whole_part() {
    assert_eq!(parse_price_micros(".5"), 500_000);
}

#[test]
fn price_that_no_float_holds_exactly() {
    assert_eq!(parse_price_micros("4.35"), 4_350_000);
    assert_eq!(parse_price_micros("0.29"), 290_000);
    assert_eq!(parse_price_micros("1.15"), 1_150_000);
}

#[test]
fn price_of_zero() {
    assert_eq!(parse_price_micros("0"), 0);
    assert_eq!(parse_price_micros("0.00"), 0);
}

#[test]
fn price_beyond_six_digits_is_cut_off() {
    assert_eq!(parse_price_micros("0.1234567"), 123_456);
    assert_eq!(parse_price_micros("0.0000005"), 0);
    assert_eq!(parse_price_micros("1.9999999"), 1_999_999);
}

#[test]
fn price_with_many_fraction_digits() {
    assert_eq!(
        parse_price_micros("0.1000000000000000000000000000000000000001"),
        100_000
    );
}

#[test]
fn unparsable_prices_are_zero() {
    assert_eq!(parse_price_micros(""), 0);
    assert_eq!(parse_price_micros("free"), 0);
    assert_eq!(parse_price_micros("."), 0);
    assert_eq!(parse_price_micros("$"), 0);
    assert_eq!(parse_price_micros("1.2.3"), 0);
    assert_eq!(parse_price_micros("1..2"), 0);
}

#[test]
fn numeric_characters_other_than_ascii_digits_make_a_price_unparsable() {
    assert_eq!(parse_price_micros("٣.5"), 0);
    assert_eq!(parse_price_micros("1½"), 0);
    assert_eq!(parse_price_micros("１２"), 0);
    assert_eq!(parse_price_micros("②"), 0);
}

#[test]
fn letters_and_signs_are_dropped() {
    assert_eq!(parse_price_micros("-5.00"), 5_000_000);
    assert_eq!(parse_price_micros("1e3"), 13_000_000);
    assert_eq!(parse_price_micros("三.5"), 500_000);
}

#[test]
fn price_too_large_is_the_largest_integer() {
    assert_eq!(parse_price_micros("99999999999999999999"), i64::MAX);
    assert_eq!(parse_price_micros("10000000000000"), i64::MAX);
    assert_eq!(parse_price_micros("9223372036854.775808"), i64::MAX);
}

#[test]
fn largest_price_that_fits() {
    assert_eq!(parse_price_micros("9223372036854.775807"), i64::MAX);
    assert_eq!(
        parse_price_micros("9223372036854.775806"),
        9_223_372_036_854_775_806
    );
    assert_eq!(
        parse_price_micros("9223372036853"),
        9_223_372_036_853_000_000
    );
}

#[test]
fn price_is_never_negative() {
    for text in ["-1", "-0.5", "$-3.20", "abc", "0.000001"] {
        assert!(parse_price_micros(text) >= 0);
    }
    assert_eq!(parse_price_micros("0.000001"), 1);
}

#[test]
fn digits_and_the_dot_are_kept() {
    for c in ['0', '5', '9', '.'] {
        assert!(is_kept(c));
    }
}

#[test]
fn signs_letters_and_spaces_are_not_kept() {
    for c in ['$', '€', ',', '-', '+', 'e', 'U', ' ', '\u{7f}', '三'] {
        assert!(!is_kept(c));
    }
}

#[test]
fn numeric_characters_beyond_ascii_are_kept() {
    for c in ['٣', '½', '②', '１'] {
        assert!(is_kept(c));
    }
}
