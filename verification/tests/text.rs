use reverse_image_search::numeric::{i32_text, parse_digits, parse_i32, parse_u64, usize_text};
use reverse_image_search::text::{
    chars_of, contains, decimal_chars, ends_with, find, matches_at, remove_all, replace_all,
    reverse, same_text, slice, starts_with, take_before, text_contains, trim, trim_end_matches,
};

fn c(s: &str) -> Vec<char> {
    s.chars().collect()
}

fn s(v: Vec<char>) -> String {
    v.into_iter().collect()
}

#[test]
fn strings_are_read_by_character() {
    assert_eq!(chars_of("héllo"), c("héllo"));
    assert_eq!(chars_of(""), Vec::<char>::new());
    assert_eq!(reverse_image_search::text::concat("hé", "llo"), "héllo");
    assert!(text_contains("héllo", "éll"));
    assert!(!text_contains("héllo", "ell"));
}

#[test]
fn find_gives_the_first_position() {
    assert_eq!(find(&c("abcabc"), &c("bc"), 0), Some(1));
    assert_eq!(find(&c("abcabc"), &c("bc"), 2), Some(4));
    assert_eq!(find(&c("abcabc"), &c("bc"), 5), None);
    assert_eq!(find(&c("abc"), &c(""), 0), Some(0));
    assert_eq!(find(&c("abc"), &c(""), 3), Some(3));
    assert_eq!(find(&c("abc"), &c(""), 4), None);
    assert_eq!(find(&c("abc"), &c("abcd"), 0), None);
    assert_eq!(find(&c("ééx"), &c("x"), 0), Some(2));
}

#[test]
fn prefix_suffix_and_containment() {
    assert!(starts_with(&c("http://x"), &c("http")));
    assert!(!starts_with(&c("htt"), &c("http")));
    assert!(ends_with(&c("96% similarity"), &c("% similarity")));
    assert!(!ends_with(&c("similarity"), &c("% similarity")));
    assert!(contains(&c("abc"), &c("")));
    assert!(contains(&c("abc"), &c("c")));
    assert!(!contains(&c("abc"), &c("d")));
    assert!(matches_at(&c("abc"), &c("bc"), 1));
    assert!(!matches_at(&c("abc"), &c("bc"), 2));
    assert!(same_text("abc", "abc"));
    assert!(!same_text("abc", "abd"));
    assert!(!same_text("abc", "ab"));
}

#[test]
fn cutting_and_replacing() {
    assert_eq!(s(slice(&c("abcdef"), 1, 4)), "bcd");
    assert_eq!(s(take_before(&c("a};b};c"), &c("};"))), "a");
    assert_eq!(s(take_before(&c("abc"), &c("};"))), "abc");
    assert_eq!(s(remove_all(&c("xaxbxx"), &c("x"))), "ab");
    assert_eq!(s(remove_all(&c("aaa"), &c("aa"))), "a");
    assert_eq!(s(remove_all(&c("abc"), &c(""))), "abc");
    assert_eq!(s(replace_all(&c("a\\x3d\\x3d"), &c("\\x3d"), &c("="))), "a==");
    assert_eq!(s(replace_all(&c("aaa"), &c("aa"), &c("b"))), "ba");
    assert_eq!(s(trim_end_matches(&c("abc});});"), &c("});"))), "abc");
    assert_eq!(s(trim_end_matches(&c("abc,,"), &c(","))), "abc");
    assert_eq!(s(trim_end_matches(&c(",,"), &c(","))), "");
    assert_eq!(s(trim_end_matches(&c("abc"), &c(""))), "abc");
    assert_eq!(s(trim(&c("  \t a b \n "))), "a b");
    assert_eq!(s(trim(&c("\u{3000}x\u{a0}"))), "x");
    assert_eq!(s(trim(&c("   "))), "");
    assert_eq!(s(reverse(&c("abc"))), "cba");
    assert_eq!(s(reverse(&c(""))), "");
}

#[test]
fn numbers_as_text() {
    assert_eq!(s(decimal_chars(0)), "0");
    assert_eq!(s(decimal_chars(9)), "9");
    assert_eq!(s(decimal_chars(10)), "10");
    assert_eq!(s(decimal_chars(u128::MAX)), u128::MAX.to_string());
    assert_eq!(i32_text(0), "0");
    assert_eq!(i32_text(-1), "-1");
    assert_eq!(i32_text(i32::MIN), i32::MIN.to_string());
    assert_eq!(i32_text(i32::MAX), i32::MAX.to_string());
    assert_eq!(usize_text(12345), "12345");
}

#[test]
fn text_as_numbers() {
    assert_eq!(parse_digits(&c("0012")), Some(12));
    assert_eq!(parse_digits(&c("")), None);
    assert_eq!(parse_digits(&c("12a")), None);
    assert_eq!(parse_digits(&c("-12")), None);
    assert_eq!(parse_digits(&c("9223372036854775807")), Some(i64::MAX));
    assert_eq!(parse_digits(&c("9223372036854775808")), None);
    assert_eq!(parse_u64(&c("18446744073709551615")), Some(u64::MAX));
    assert_eq!(parse_u64(&c("18446744073709551616")), None);
    assert_eq!(parse_i32(&c("-2147483648")), Some(i32::MIN));
    assert_eq!(parse_i32(&c("2147483647")), Some(i32::MAX));
    assert_eq!(parse_i32(&c("2147483648")), None);
    assert_eq!(parse_i32(&c("-2147483649")), None);
    assert_eq!(parse_i32(&c("-")), None);
    assert_eq!(parse_i32(&c("1.0")), None);
}
