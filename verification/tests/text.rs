use vocab_trainer::text::{
    chars_of, contains_str, decimal_string, is_white_space_char, parse_u32_str, prefix_of,
    replace_str, str_eq, trim_str,
};

#[test]
fn white_space_matches_std_for_every_char() {
    for u in 0u32..=0x10FFFF {
        if let Some(c) = char::from_u32(u) {
            assert_eq!(is_white_space_char(c), c.is_whitespace(), "U+{:04X}", u);
        }
    }
}

#[test]
fn trim_matches_std() {
    for s in ["", "  ", " a ", "\u{3000}word\u{00a0}", "\tx y\n", "abc", " \u{2028}z"] {
        assert_eq!(trim_str(s), s.trim());
    }
}

#[test]
fn replace_matches_std() {
    let cases = [
        ("She showed great fortitude.", "fortitude", "_____"),
        ("aaaa", "aa", "b"),
        ("abc", "", "X"),
        ("", "", "X"),
        ("no match here", "zzz", "_"),
        ("ab", "abc", "_"),
        ("żółw i żółw", "żółw", "_____"),
    ];
    for (s, p, r) in cases {
        assert_eq!(replace_str(s, p, r), s.replace(p, r), "{:?} {:?}", s, p);
    }
}

#[test]
fn contains_matches_std() {
    let cases = [
        ("UNIQUE constraint failed", "UNIQUE"),
        ("unique", "UNIQUE"),
        ("", ""),
        ("abc", ""),
        ("ab", "abc"),
        ("xxabc", "abc"),
    ];
    for (h, p) in cases {
        assert_eq!(contains_str(h, p), h.contains(p), "{:?} {:?}", h, p);
    }
}

#[test]
fn parse_matches_std() {
    for s in ["", "+", "0", "08", "+7", "-1", "4294967295", "4294967296", "12a", " 1", "99999999999"] {
        assert_eq!(parse_u32_str(s), s.parse::<u32>().ok(), "{:?}", s);
    }
}

#[test]
fn small_helpers() {
    assert_eq!(decimal_string(0), "0");
    assert_eq!(decimal_string(1440), "1440");
    assert_eq!(decimal_string(u64::MAX), u64::MAX.to_string());
    assert_eq!(prefix_of("abcdef", 3), "abc");
    assert_eq!(prefix_of("ąb", 5), "ąb");
    assert!(str_eq("mastered", "mastered"));
    assert!(!str_eq("master", "mastered"));
    assert_eq!(chars_of("żó"), vec!['ż', 'ó']);
}
