use celeste_saves::text::{parse_count, same_text};

#[test]
fn same_text_compares_characters() {
    assert!(same_text("", ""));
    assert!(same_text("Version", "Version"));
    assert!(!same_text("Version", "version"));
    assert!(!same_text("Version", "Versions"));
    assert!(!same_text("Versions", "Version"));
    assert!(!same_text("", "x"));
    assert!(same_text("Zoë ✿", "Zoë ✿"));
    assert!(!same_text("Zoë", "Zoe"));
    assert!(!same_text("é", "e\u{301}"));
}

#[test]
fn parse_count_reads_decimal_numbers() {
    assert_eq!(parse_count("0"), 0);
    assert_eq!(parse_count("7"), 7);
    assert_eq!(parse_count("175"), 175);
    assert_eq!(parse_count("+175"), 175);
    assert_eq!(parse_count("-175"), -175);
    assert_eq!(parse_count("-0"), 0);
    assert_eq!(parse_count("007"), 7);
    assert_eq!(parse_count("0000000000000000000000000000012"), 12);
    assert_eq!(parse_count("-0000000000000000000000000000012"), -12);
}

#[test]
fn parse_count_knows_the_limits() {
    assert_eq!(parse_count("2147483647"), i32::MAX);
    assert_eq!(parse_count("2147483648"), 0);
    assert_eq!(parse_count("-2147483648"), i32::MIN);
    assert_eq!(parse_count("-2147483649"), 0);
    assert_eq!(parse_count("+2147483647"), i32::MAX);
    assert_eq!(parse_count("99999999999999999999999999999999999999"), 0);
    assert_eq!(parse_count("-99999999999999999999999999999999999999"), 0);
    assert_eq!(parse_count("21474836470"), 0);
}

#[test]
fn parse_count_takes_anything_else_for_zero() {
    for text in [
        "", "+", "-", "+-1", "--1", "1-", "1+1", " 1", "1 ", "1 2", "1_000", "1,000", "1.0", "0x10",
        "ten", "١٢", "１２", "1\u{0}", "\t5", "5\n", "−5", "٣", "9é",
    ] {
        assert_eq!(parse_count(text), 0, "{:?}", text);
    }
}

#[test]
fn parse_count_agrees_with_the_standard_library() {
    for text in [
        "0", "1", "-1", "+1", "42", "-42", "2147483647", "-2147483648", "2147483648",
        "-2147483649", "", "+", "-", "abc", "12a", "a12", " 12", "12 ", "000", "-000", "+000",
        "4294967296", "00002147483647", "-00002147483648",
    ] {
        assert_eq!(parse_count(text), text.parse::<i32>().unwrap_or_default(), "{:?}", text);
    }
}
