use print_cost::quantity::{Quantity, MAX_QUANTITY_MICROS};

fn micros(text: &str) -> Option<i64> {
    Quantity::parse(text).map(|x| x.micros())
}

#[test]
fn parses_plain_decimals() {
    assert_eq!(micros("0.15"), Some(150_000));
    assert_eq!(micros("20"), Some(20_000_000));
    assert_eq!(micros("1.0"), Some(1_000_000));
    assert_eq!(micros("007.5"), Some(7_500_000));
    assert_eq!(micros("0.000001"), Some(1));
}

#[test]
fn parses_signs_and_bare_points() {
    assert_eq!(micros("-1.0"), Some(-1_000_000));
    assert_eq!(micros("+2"), Some(2_000_000));
    assert_eq!(micros(".25"), Some(250_000));
    assert_eq!(micros("-.5"), Some(-500_000));
    assert_eq!(micros("3."), Some(3_000_000));
}

#[test]
fn rejects_malformed_text() {
    for text in ["", ".", "-", "+", "+.", "abc", "1e3", "1.2.3", " 1", "1 ", "--1", "1,5", "inf", "NaN"] {
        assert_eq!(micros(text), None, "{text}");
    }
}

#[test]
fn rejects_more_than_six_fraction_digits() {
    assert_eq!(micros("0.1234567"), None);
    assert_eq!(micros("0.123456"), Some(123_456));
}

#[test]
fn range_limits() {
    assert_eq!(micros("1000000"), Some(MAX_QUANTITY_MICROS));
    assert_eq!(micros("-1000000"), Some(-MAX_QUANTITY_MICROS));
    assert_eq!(micros("1000000.000001"), None);
    assert_eq!(micros("1000001"), None);
    assert_eq!(micros("99999999999999999999999"), None);
    assert_eq!(micros("0000000000000000000001"), Some(1_000_000));
}

#[test]
fn parse_or_falls_back_to_default() {
    let d = Quantity::from_whole(200);
    assert_eq!(Quantity::parse_or("garbage", d).micros(), 200_000_000);
    assert_eq!(Quantity::parse_or("", d).micros(), 200_000_000);
    assert_eq!(Quantity::parse_or("150", d).micros(), 150_000_000);
}

#[test]
fn quantity_constructors() {
    assert_eq!(Quantity::zero().micros(), 0);
    assert_eq!(Quantity::from_whole(-3).micros(), -3_000_000);
    assert_eq!(Quantity::from_micros(42).map(|x| x.micros()), Some(42));
    assert_eq!(Quantity::from_micros(MAX_QUANTITY_MICROS + 1), None);
    assert_eq!(Quantity::from_micros(-MAX_QUANTITY_MICROS - 1), None);
}
