use canvasbot::text::{
    i64_to_string, left_justify, right_justify, str_eq, starts_with_str, contains_str, find_char,
    string_from_chars, u32_to_string, u64_to_string, usize_to_string,
};

#[test]
fn renders_zero() {
    assert_eq!(u64_to_string(0), "0");
}

#[test]
fn renders_digits() {
    assert_eq!(u64_to_string(7), "7");
    assert_eq!(u64_to_string(10), "10");
    assert_eq!(u64_to_string(1234567890), "1234567890");
    assert_eq!(u64_to_string(u64::MAX), "18446744073709551615");
}

#[test]
fn renders_u32_and_usize() {
    assert_eq!(u32_to_string(42), "42");
    assert_eq!(u32_to_string(u32::MAX), "4294967295");
    assert_eq!(usize_to_string(3), "3");
}

#[test]
fn renders_signed_numbers() {
    assert_eq!(i64_to_string(5), "5");
    assert_eq!(i64_to_string(0), "0");
    assert_eq!(i64_to_string(-1), "-1");
    assert_eq!(i64_to_string(-987654), "-987654");
    assert_eq!(i64_to_string(i64::MIN), "-9223372036854775808");
    assert_eq!(i64_to_string(i64::MAX), "9223372036854775807");
}

#[test]
fn builds_string_from_chars() {
    assert_eq!(string_from_chars(&vec!['a', 'b', 'c']), "abc");
    assert_eq!(string_from_chars(&Vec::new()), "");
}

#[test]
fn pads_like_width_formatting() {
    assert_eq!(left_justify("[t1]", 10), format!("{:<10}", "[t1]"));
    assert_eq!(right_justify("Passed", 20), format!("{:>20}", "Passed"));
    assert_eq!(left_justify("longer-than-ten!", 10), "longer-than-ten!");
    assert_eq!(right_justify("x", 3), "  x");
}

#[test]
fn compares_strings() {
    assert!(str_eq("abc", "abc"));
    assert!(!str_eq("abc", "abd"));
    assert!(!str_eq("abc", "abcd"));
    assert!(str_eq("", ""));
}

#[test]
fn finds_prefixes_and_substrings() {
    assert!(starts_with_str("var::count", "var::"));
    assert!(!starts_with_str("va::count", "var::"));
    assert!(contains_str("a; rel=\"next\"; b", "rel=\"next\""));
    assert!(!contains_str("rel=\"prev\"", "rel=\"next\""));
    assert_eq!(find_char("a,b,c", ',', 0), Some(1));
    assert_eq!(find_char("a,b,c", ',', 2), Some(3));
    assert_eq!(find_char("abc", ',', 0), None);
}
