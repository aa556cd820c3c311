//! The text primitives the parsers and composers are built from.

use attpc_envoy::textutil::{
    find_from, i32_to_string, parse_i32, parse_u64, split_lines, split_on, split_whitespace,
    str_contains, str_eq, u32_to_string,
};

#[test]
fn number_formatting() {
    assert_eq!(u32_to_string(0), "0");
    assert_eq!(u32_to_string(7), "7");
    assert_eq!(u32_to_string(8083), "8083");
    assert_eq!(u32_to_string(4294967295), "4294967295");
    assert_eq!(i32_to_string(0), "0");
    assert_eq!(i32_to_string(-1), "-1");
    assert_eq!(i32_to_string(2147483647), "2147483647");
    assert_eq!(i32_to_string(-2147483648), "-2147483648");
}

#[test]
fn number_parsing() {
    assert_eq!(parse_u64("0"), Some(0));
    assert_eq!(parse_u64("1572864"), Some(1572864));
    assert_eq!(parse_u64("18446744073709551615"), Some(u64::MAX));
    assert_eq!(parse_u64("18446744073709551616"), None);
    assert_eq!(parse_u64(""), None);
    assert_eq!(parse_u64("12a"), None);
    assert_eq!(parse_u64("-3"), None);
    assert_eq!(parse_i32("4"), Some(4));
    assert_eq!(parse_i32("-4"), Some(-4));
    assert_eq!(parse_i32("+4"), Some(4));
    assert_eq!(parse_i32("2147483647"), Some(i32::MAX));
    assert_eq!(parse_i32("2147483648"), None);
    assert_eq!(parse_i32("-2147483648"), Some(i32::MIN));
    assert_eq!(parse_i32("-2147483649"), None);
    assert_eq!(parse_i32(" 4"), None);
    assert_eq!(parse_i32("-"), None);
}

#[test]
fn searching() {
    assert_eq!(find_from("abcabc", "bc", 0), Some(1));
    assert_eq!(find_from("abcabc", "bc", 2), Some(4));
    assert_eq!(find_from("abcabc", "bd", 0), None);
    assert_eq!(find_from("abc", "", 1), Some(1));
    assert!(str_contains("run_0001.graw 0", "graw"));
    assert!(!str_contains("run_0001.txt 0", "graw"));
    assert!(str_eq("same", "same"));
    assert!(!str_eq("same", "sane"));
}

#[test]
fn splitting() {
    let parts = split_on("a,b,,c", ',');
    assert_eq!(parts, vec!["a", "b", "", "c"]);
    assert_eq!(split_on("", ','), vec![""]);
    let lines = split_lines("one\r\ntwo\nthree\n");
    assert_eq!(lines, vec!["one", "two", "three"]);
    assert_eq!(split_lines("").len(), 0);
    let words = split_whitespace("  Filesystem  2097152 x\tx 37% y ");
    assert_eq!(words, vec!["Filesystem", "2097152", "x", "x", "37%", "y"]);
    assert_eq!(split_whitespace("   ").len(), 0);
}
