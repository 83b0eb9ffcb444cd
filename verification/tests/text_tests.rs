use ursa::text::{
    chars_range, parse_u32_chars, push_decimal, split_chars, string_from_chars, to_chars, trim,
};

fn chars(s: &str) -> Vec<char> {
    s.chars().collect()
}

#[test]
fn to_chars_keeps_every_character() {
    assert_eq!(to_chars("a\tb é"), vec!['a', '\t', 'b', ' ', 'é']);
    assert_eq!(to_chars(""), Vec::<char>::new());
}

#[test]
fn trim_removes_surrounding_whitespace_only() {
    assert_eq!(trim("  my session \t"), "my session");
    assert_eq!(trim("\u{3000}wide\u{3000}"), "wide");
    assert_eq!(trim("   "), "");
    assert_eq!(trim(""), "");
    assert_eq!(trim("x"), "x");
    assert_eq!(trim(" a b "), "a b");
}

#[test]
fn trim_agrees_with_std() {
    for s in ["", " ", "a", " a", "a ", "\n a\r\n", "\u{a0}b\u{2003}", "a  b", "\t\t"] {
        assert_eq!(trim(s), s.trim());
    }
}

#[test]
fn parse_u32_accepts_plain_and_plus_signed_digits() {
    assert_eq!(parse_u32_chars(&chars("42")), Some(42));
    assert_eq!(parse_u32_chars(&chars("+7")), Some(7));
    assert_eq!(parse_u32_chars(&chars("007")), Some(7));
    assert_eq!(parse_u32_chars(&chars("0")), Some(0));
    assert_eq!(parse_u32_chars(&chars("4294967295")), Some(u32::MAX));
}

#[test]
fn parse_u32_rejects_what_std_rejects() {
    for s in ["", "+", "-", "-1", "4294967296", "99999999999999999999", "12a", " 1", "1 ", "++1", "٣"] {
        assert_eq!(parse_u32_chars(&chars(s)), None, "{:?}", s);
        assert!(s.parse::<u32>().is_err());
    }
}

#[test]
fn parse_u32_agrees_with_std() {
    for s in ["1", "+0", "65535", "4294967295", "4294967294", "10", "+4294967295"] {
        assert_eq!(parse_u32_chars(&chars(s)), s.parse::<u32>().ok());
    }
}

#[test]
fn push_decimal_spells_numbers() {
    for n in [0u32, 7, 10, 42, 1000, u32::MAX] {
        let mut s = String::from("n=");
        push_decimal(&mut s, n);
        assert_eq!(s, format!("n={}", n));
    }
}

#[test]
fn split_chars_keeps_empty_pieces() {
    let pieces = split_chars(&chars("a\t\tb\t"), '\t');
    assert_eq!(pieces, vec![chars("a"), chars(""), chars("b"), chars("")]);
    assert_eq!(split_chars(&chars(""), '\t'), vec![Vec::<char>::new()]);
}

#[test]
fn ranges_and_strings_from_chars() {
    let v = chars("session");
    assert_eq!(chars_range(&v, 1, 4), chars("ess"));
    assert_eq!(string_from_chars(&v), "session");
}

#[test]
fn trimming_twice_changes_nothing() {
    for s in ["  a b  ", "\u{3000}x", "", " ", "y\t"] {
        let once = trim(s);
        assert_eq!(trim(&once), once);
        if let Some(c) = once.chars().next() {
            assert!(!c.is_whitespace());
        }
        if let Some(c) = once.chars().last() {
            assert!(!c.is_whitespace());
        }
    }
}

#[test]
fn decimal_spelling_parses_back() {
    for n in [0u32, 9, 10, 123456, u32::MAX] {
        let mut s = String::new();
        push_decimal(&mut s, n);
        assert_eq!(parse_u32_chars(&chars(&s)), Some(n));
    }
}
