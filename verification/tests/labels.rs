use piechart::label::decimal;
use piechart::label::default_label;
use piechart::label::digit_text;
use piechart::label::two_decimals;
use piechart::Slice;

#[test]
fn digits_are_their_characters() {
    let all: Vec<&str> = (0..10).map(digit_text).collect();
    assert_eq!(all, vec!["0", "1", "2", "3", "4", "5", "6", "7", "8", "9"]);
}

#[test]
fn decimal_has_no_leading_zeros() {
    assert_eq!(decimal(0), "0");
    assert_eq!(decimal(7), "7");
    assert_eq!(decimal(10), "10");
    assert_eq!(decimal(1_204), "1204");
    assert_eq!(decimal(u64::MAX), "18446744073709551615");
}

#[test]
fn two_decimals_of_plain_values() {
    assert_eq!(two_decimals(0), "0.00");
    assert_eq!(two_decimals(1_500_000), "1.50");
    assert_eq!(two_decimals(3_141_593), "3.14");
    assert_eq!(two_decimals(42_000_000), "42.00");
    assert_eq!(two_decimals(50_000), "0.05");
    assert_eq!(two_decimals(120_070_000), "120.07");
}

#[test]
fn two_decimals_rounds_to_nearest() {
    assert_eq!(two_decimals(999_999), "1.00");
    assert_eq!(two_decimals(4_999), "0.00");
    assert_eq!(two_decimals(5_001), "0.01");
    assert_eq!(two_decimals(1_994_999), "1.99");
    assert_eq!(two_decimals(1_995_001), "2.00");
}

#[test]
fn two_decimals_sends_halves_to_even() {
    assert_eq!(two_decimals(125_000), "0.12");
    assert_eq!(two_decimals(135_000), "0.14");
    assert_eq!(two_decimals(2_675_000), "2.68");
    assert_eq!(two_decimals(5_000), "0.00");
    assert_eq!(two_decimals(15_000), "0.02");
}

#[test]
fn two_decimals_of_negative_values() {
    assert_eq!(two_decimals(-1_500_000), "-1.50");
    assert_eq!(two_decimals(-1_000), "-0.00");
    assert_eq!(two_decimals(-125_000), "-0.12");
    assert_eq!(two_decimals(i64::MIN), "-9223372036854.78");
    assert_eq!(two_decimals(i64::MAX), "9223372036854.78");
}

#[test]
fn default_label_shows_what_the_slice_has() {
    assert_eq!(default_label(&Slice::new(0, 1)), None);
    assert_eq!(default_label(&Slice::new(0, 1).name("rent".to_string())), Some("rent".to_string()));
    assert_eq!(default_label(&Slice::new(0, 1).value(12_345_678)), Some("12.35".to_string()));
    assert_eq!(
        default_label(&Slice::new(0, 1).name("rent".to_string()).value(1_500_000)),
        Some("rent: 1.50".to_string())
    );
    assert_eq!(
        default_label(&Slice::new(0, 1).name("".to_string()).value(-250_000)),
        Some(": -0.25".to_string())
    );
    assert_eq!(
        default_label(&Slice::new(0, 1).name("caf\u{e9} \u{1f967}".to_string()).value(0)),
        Some("caf\u{e9} \u{1f967}: 0.00".to_string())
    );
}
