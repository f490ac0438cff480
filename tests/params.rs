use rtu_shell::device::{Degree, RelayState};
use rtu_shell::params::{parse_controller_number, parse_degree, parse_state, Decimal};
use rtu_shell::text::{ascii_lower, number_text, same_text};

#[test]
fn state_literals() {
    assert_eq!(parse_state("on"), Some(RelayState::On));
    assert_eq!(parse_state("oN"), Some(RelayState::On));
    assert_eq!(parse_state("1"), Some(RelayState::On));
    assert_eq!(parse_state("OFF"), Some(RelayState::Off));
    assert_eq!(parse_state("0"), Some(RelayState::Off));
    assert_eq!(parse_state(""), None);
    assert_eq!(parse_state("onn"), None);
    assert_eq!(parse_state("of"), None);
    assert_eq!(parse_state("2"), None);
    assert_eq!(parse_state(" on"), None);
}

#[test]
fn degree_literals() {
    assert_eq!(parse_degree("F"), Some(Degree::Fahrenheit));
    assert_eq!(parse_degree("c"), Some(Degree::Celsius));
    assert_eq!(parse_degree("K"), None);
    assert_eq!(parse_degree("FF"), None);
    assert_eq!(parse_degree(""), None);
}

#[test]
fn controller_numbers() {
    assert_eq!(parse_controller_number("0"), Some(0));
    assert_eq!(parse_controller_number("254"), Some(254));
    assert_eq!(parse_controller_number("0042"), Some(42));
    assert_eq!(parse_controller_number("255"), None);
    assert_eq!(parse_controller_number("99999999999999999999999"), None);
    assert_eq!(parse_controller_number(""), None);
    assert_eq!(parse_controller_number("+3"), None);
    assert_eq!(parse_controller_number("3a"), None);
}

#[test]
fn decimal_literals() {
    for ok in ["65.5", "-1.25", "+3", "0", ".5", "5.", "007.100"] {
        assert_eq!(Decimal::parse(ok).map(|d| d.text().to_string()), Some(ok.to_string()));
    }
    for bad in ["", "-", "+", ".", "1.2.3", "abc", "1e5", "--1", "1-", " 1"] {
        assert!(Decimal::parse(bad).is_none(), "{} should be refused", bad);
    }
}

#[test]
fn text_helpers() {
    assert_eq!(number_text(0), "0");
    assert_eq!(number_text(7), "7");
    assert_eq!(number_text(254), "254");
    assert_eq!(number_text(18446744073709551615), "18446744073709551615");
    assert!(same_text("list_all", "list_all"));
    assert!(!same_text("list_all", "list_al"));
    assert!(!same_text("pv", "sv"));
    assert!(same_text("", ""));
    assert_eq!(ascii_lower('Q'), 'q');
    assert_eq!(ascii_lower('q'), 'q');
    assert_eq!(ascii_lower('1'), '1');
    assert_eq!(ascii_lower('É'), 'É');
}
