use ollama_client::decimal::{decimal_string, fixed2_string, parse_count, push_decimal, push_fixed2};

#[test]
fn decimal_string_writes_plain_digits() {
    assert_eq!(decimal_string(0), "0");
    assert_eq!(decimal_string(7), "7");
    assert_eq!(decimal_string(10), "10");
    assert_eq!(decimal_string(11434), "11434");
    assert_eq!(decimal_string(u128::MAX), u128::MAX.to_string());
}

#[test]
fn fixed2_string_always_has_two_decimals() {
    assert_eq!(fixed2_string(0), "0.00");
    assert_eq!(fixed2_string(5), "0.05");
    assert_eq!(fixed2_string(50), "0.50");
    assert_eq!(fixed2_string(123), "1.23");
    assert_eq!(fixed2_string(4200), "42.00");
    assert_eq!(fixed2_string(100009), "1000.09");
}

#[test]
fn push_decimal_appends_to_what_is_there() {
    let mut out = String::from("port ");
    push_decimal(&mut out, 11434);
    assert_eq!(out, "port 11434");
}

#[test]
fn push_fixed2_appends_to_what_is_there() {
    let mut out = String::from("Total time: ");
    push_fixed2(&mut out, 314);
    assert_eq!(out, "Total time: 3.14");
}

#[test]
fn parse_count_reads_digits() {
    assert_eq!(parse_count("0"), Some(0));
    assert_eq!(parse_count("3"), Some(3));
    assert_eq!(parse_count("42"), Some(42));
    assert_eq!(parse_count("007"), Some(7));
    assert_eq!(parse_count("+5"), Some(5));
}

#[test]
fn parse_count_refuses_what_is_no_count() {
    assert_eq!(parse_count(""), None);
    assert_eq!(parse_count("+"), None);
    assert_eq!(parse_count("-1"), None);
    assert_eq!(parse_count("12a"), None);
    assert_eq!(parse_count("a12"), None);
    assert_eq!(parse_count(" 1"), None);
    assert_eq!(parse_count("1 "), None);
    assert_eq!(parse_count("++1"), None);
    assert_eq!(parse_count("1.5"), None);
    assert_eq!(parse_count("٣"), None);
}

#[test]
fn parse_count_stops_at_the_largest_count() {
    let max = usize::MAX.to_string();
    assert_eq!(parse_count(&max), Some(usize::MAX));
    let mut beyond = max.clone();
    beyond.push('0');
    assert_eq!(parse_count(&beyond), None);
    let next = (usize::MAX as u128 + 1).to_string();
    assert_eq!(parse_count(&next), None);
}

#[test]
fn parse_count_agrees_with_std() {
    let texts = ["", "0", "1", "+1", "-1", "+", "00", "18446744073709551615", "18446744073709551616", "x", "1x", "9999999999999999999999"];
    for text in texts {
        assert_eq!(parse_count(text), text.parse::<usize>().ok(), "{text:?}");
    }
}
