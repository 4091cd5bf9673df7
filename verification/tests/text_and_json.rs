use syncinput::json::{bool_text, decimal_text};
use syncinput::text::{chars_of, parse_u32, replace_all, split_once_at, string_of};

fn cv(s: &str) -> Vec<char> {
    s.chars().collect()
}

#[test]
fn parse_u32_accepts_plain_and_plus_digits() {
    assert_eq!(parse_u32(&cv("42")), Some(42));
    assert_eq!(parse_u32(&cv("+7")), Some(7));
    assert_eq!(parse_u32(&cv("007")), Some(7));
    assert_eq!(parse_u32(&cv("4294967295")), Some(u32::MAX));
}

#[test]
fn parse_u32_rejects_what_str_parse_rejects() {
    for bad in ["", "+", "-1", "-", "4294967296", "99999999999", "12a", " 1", "1 ", "++1", "1_000"] {
        assert_eq!(parse_u32(&cv(bad)), None, "{bad:?}");
        assert!(bad.parse::<u32>().is_err());
    }
}

#[test]
fn parse_u32_agrees_with_std_on_numbers() {
    for n in [0u32, 1, 9, 10, 99, 100, 65535, 1_000_000, u32::MAX - 1, u32::MAX] {
        let text = n.to_string();
        assert_eq!(parse_u32(&cv(&text)), text.parse::<u32>().ok());
    }
}

#[test]
fn decimal_text_writes_numbers() {
    assert_eq!(decimal_text(0), "0");
    assert_eq!(decimal_text(7), "7");
    assert_eq!(decimal_text(10), "10");
    assert_eq!(decimal_text(5200), "5200");
    assert_eq!(decimal_text(u64::MAX), u64::MAX.to_string());
}

#[test]
fn decimal_then_parse_gives_the_number_back() {
    for n in [0u32, 3, 40, 400, 600, 123456789, u32::MAX] {
        assert_eq!(parse_u32(&cv(&decimal_text(n as u64))), Some(n));
    }
}

#[test]
fn bool_text_writes_json_booleans() {
    assert_eq!(bool_text(true), "true");
    assert_eq!(bool_text(false), "false");
}

#[test]
fn split_once_uses_the_first_separator() {
    let (a, b) = split_once_at(&cv("10x20x30"), 'x').unwrap();
    assert_eq!(string_of(&a), "10");
    assert_eq!(string_of(&b), "20x30");
    let (a, b) = split_once_at(&cv("x"), 'x').unwrap();
    assert_eq!(string_of(&a), "");
    assert_eq!(string_of(&b), "");
    assert!(split_once_at(&cv("1020"), 'x').is_none());
}

#[test]
fn replace_all_matches_std_replace() {
    let cases = [
        ("a__X__b__X__", "__X__", "zz"),
        ("aaaa", "aa", "b"),
        ("no marks here", "__X__", "zz"),
        ("__X__", "__X__", ""),
        ("ab", "abc", "q"),
        ("héllo wörld", "ö", "oe"),
    ];
    for (s, p, r) in cases {
        let got = replace_all(&cv(s), &cv(p), &cv(r));
        assert_eq!(string_of(&got), s.replace(p, r), "{s:?}");
    }
}

#[test]
fn chars_of_keeps_unicode() {
    assert_eq!(chars_of("日本 ok"), vec!['日', '本', ' ', 'o', 'k']);
}
