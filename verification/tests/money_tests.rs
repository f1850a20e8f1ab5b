use ad_monitor::money::{balance_to_string, money_to_string, parse_money};

#[test]
fn parses_plain_decimals() {
    assert_eq!(parse_money("7.2"), Some(7_200_000));
    assert_eq!(parse_money("3.0"), Some(3_000_000));
    assert_eq!(parse_money("0"), Some(0));
    assert_eq!(parse_money("12.345678"), Some(12_345_678));
    assert_eq!(parse_money("0.05"), Some(50_000));
}

#[test]
fn parses_dot_edge_forms() {
    assert_eq!(parse_money("5."), Some(5_000_000));
    assert_eq!(parse_money(".5"), Some(500_000));
    assert_eq!(parse_money("."), None);
    assert_eq!(parse_money(""), None);
}

#[test]
fn rejects_non_decimal_text() {
    assert_eq!(parse_money("abc"), None);
    assert_eq!(parse_money("1e3"), None);
    assert_eq!(parse_money("-1"), None);
    assert_eq!(parse_money("1.2.3"), None);
    assert_eq!(parse_money("1,5"), None);
}

#[test]
fn truncates_beyond_six_fraction_digits() {
    assert_eq!(parse_money("0.0000001"), Some(0));
    assert_eq!(parse_money("1.9999999"), Some(1_999_999));
}

#[test]
fn saturates_on_huge_values() {
    assert_eq!(parse_money("99999999999999999999999"), Some(u64::MAX));
}

#[test]
fn renders_shortest_decimal_form() {
    assert_eq!(money_to_string(7_200_000), "7.2");
    assert_eq!(money_to_string(3_000_000), "3");
    assert_eq!(money_to_string(0), "0");
    assert_eq!(money_to_string(50_000), "0.05");
    assert_eq!(money_to_string(12_345_678), "12.345678");
}

#[test]
fn parse_then_render_restores_text() {
    for text in ["7.2", "3", "0.05", "12.345678", "0"] {
        let v = parse_money(text).unwrap();
        assert_eq!(money_to_string(v), text);
    }
}

#[test]
fn displays_balance_in_major_units() {
    // A raw minor-unit value of 150000 in THB reads as 1500.00.
    assert_eq!(balance_to_string(150_000), "\u{0e3f}1500.00");
}

#[test]
fn displays_small_and_negative_balances() {
    assert_eq!(balance_to_string(0), "\u{0e3f}0.00");
    assert_eq!(balance_to_string(5), "\u{0e3f}0.05");
    assert_eq!(balance_to_string(-50), "\u{0e3f}-0.50");
    assert_eq!(balance_to_string(-12345), "\u{0e3f}-123.45");
}
