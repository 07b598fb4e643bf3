use pump_sniper::text::{
    decimal, decimal_signed, ends_with, parse_bool, parse_unsigned, repeat, same_ignoring_case, split_lines,
    split_once, to_lower, trimmed,
};

#[test]
fn trimming_takes_white_space_off_both_ends() {
    assert_eq!(trimmed("  a b \t\r\n"), "a b");
    assert_eq!(trimmed("\u{3000}x\u{a0}"), "x");
    assert_eq!(trimmed(" \n "), "");
    assert_eq!(trimmed(trimmed("  twice ")), "twice");
}

#[test]
fn only_ascii_letters_change_case() {
    assert_eq!(to_lower("BUY On Ä"), "buy on Ä");
    assert!(same_ignoring_case("Buy", "bUY"));
    assert!(!same_ignoring_case("buy", "buys"));
}

#[test]
fn suffixes() {
    assert!(ends_with("abcpump", "pump"));
    assert!(ends_with("pump", "pump"));
    assert!(!ends_with("ump", "pump"));
    assert!(!ends_with("pumpx", "pump"));
    assert!(ends_with("x", ""));
}

#[test]
fn splitting_at_the_first_mark() {
    assert_eq!(split_once("a=b=c", '='), Some(("a", "b=c")));
    assert_eq!(split_once("=", '='), Some(("", "")));
    assert_eq!(split_once("abc", '='), None);
}

#[test]
fn splitting_into_lines() {
    assert_eq!(split_lines("a\n\nb"), vec!["a", "", "b"]);
    assert_eq!(split_lines(""), vec![""]);
    assert_eq!(split_lines("a\n"), vec!["a", ""]);
}

#[test]
fn numbers_in_decimal() {
    assert_eq!(decimal(0), "0");
    assert_eq!(decimal(u128::MAX), u128::MAX.to_string());
    assert_eq!(decimal(1_000_000), "1000000");
    assert_eq!(decimal_signed(-42), "-42");
    assert_eq!(decimal_signed(i64::MIN), i64::MIN.to_string());
    assert_eq!(decimal_signed(i64::MAX), i64::MAX.to_string());
}

#[test]
fn numbers_are_read_as_the_standard_library_reads_them() {
    for text in [
        "", "0", "7", "+7", "-7", "007", "18446744073709551615", "18446744073709551616", "1_000", " 1", "1 ", "1.0",
        "abc", "+", "99999999999999999999999", "٣",
    ] {
        assert_eq!(parse_unsigned(text), text.parse::<u64>().ok(), "{text:?}");
    }
}

#[test]
fn written_numbers_read_back() {
    for n in [0u64, 9, 10, 12345, u64::MAX] {
        assert_eq!(parse_unsigned(&decimal(n as u128)), Some(n));
    }
}

#[test]
fn truth_values() {
    assert_eq!(parse_bool("true"), Some(true));
    assert_eq!(parse_bool("false"), Some(false));
    assert_eq!(parse_bool("True"), None);
    assert_eq!(parse_bool("1"), None);
}

#[test]
fn repeating() {
    assert_eq!(repeat("─", 3), "───");
    assert_eq!(repeat("ab", 0), "");
}
