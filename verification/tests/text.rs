use cachegate::text::{
    chars_of, contains, ends_with, find_from, is_all_ascii, is_space_char, lower, lower_cased,
    same_ignore_case, same_text, skip_from, slice_of, split_on, starts_with, string_of, stripped,
    to_lower_char, to_upper_char, trimmed, upper_cased,
};

fn chars(s: &str) -> Vec<char> {
    s.chars().collect()
}

fn text(v: &Vec<char>) -> String {
    v.iter().collect()
}

#[test]
fn white_space_is_what_unicode_says() {
    let mut c = 0u32;
    while c <= 0x10FFFF {
        if let Some(ch) = char::from_u32(c) {
            assert_eq!(is_space_char(ch), ch.is_whitespace(), "U+{:04X}", c);
        }
        c += 1;
    }
}

#[test]
fn lower_case_is_ascii_lower_case() {
    let mut c = 0u32;
    while c <= 0x10FFFF {
        if let Some(ch) = char::from_u32(c) {
            assert_eq!(to_lower_char(ch), ch.to_ascii_lowercase(), "U+{:04X}", c);
        }
        c += 1;
    }
    assert_eq!(text(&lower(&chars("AbC-ÄÖ_9Z"))), "abc-ÄÖ_9z");
}

#[test]
fn strings_and_characters_convert_both_ways() {
    for s in ["", "a", "héllo wörld", "日本語", "a\u{0}b"] {
        assert_eq!(chars_of(s), chars(s));
        assert_eq!(string_of(&chars(s)), s);
    }
    assert_eq!(text(&slice_of(&chars("hello"), 1, 3)), "el");
    assert_eq!(text(&slice_of(&chars("hello"), 5, 5)), "");
}

#[test]
fn comparison_helpers() {
    assert!(same_text("abc", "abc"));
    assert!(!same_text("abc", "abd"));
    assert!(!same_text("abc", "ab"));
    assert!(same_ignore_case(&chars("BeArEr"), &chars("bearer")));
    assert!(!same_ignore_case(&chars("bearer"), &chars("bearen")));
    assert!(starts_with(&chars("http://x"), &chars("http://")));
    assert!(!starts_with(&chars("http:/"), &chars("http://")));
    assert!(starts_with(&chars("x"), &chars("")));
    assert!(ends_with(&chars("A_TYPE"), &chars("_TYPE")));
    assert!(!ends_with(&chars("TYPE"), &chars("_TYPE")));
    assert!(contains(&chars("a/../b"), &chars("..")));
    assert!(contains(&chars(".."), &chars("..")));
    assert!(!contains(&chars("a/./b."), &chars("..")));
    assert!(contains(&chars("abc"), &chars("")));
    assert!(!contains(&chars(""), &chars("a")));
}

#[test]
fn searching_and_skipping() {
    let v = chars("  ab c");
    assert_eq!(skip_from(&v, 0, None), 2);
    assert_eq!(find_from(&v, 2, None), 4);
    assert_eq!(find_from(&v, 5, None), 6);
    assert_eq!(find_from(&v, 0, Some('c')), 5);
    assert_eq!(find_from(&v, 0, Some('z')), 6);
    assert_eq!(skip_from(&v, 6, None), 6);
}

#[test]
fn trimming_takes_both_ends() {
    assert_eq!(text(&trimmed(&chars(" \t a b \n"))), "a b");
    assert_eq!(text(&trimmed(&chars("\u{3000}x\u{a0}"))), "x");
    assert_eq!(text(&trimmed(&chars("   "))), "");
    assert_eq!(text(&stripped(&chars("\"\"a\"b\""), Some('"'))), "a\"b");
    assert_eq!(text(&stripped(&chars("''''"), Some('\''))), "");
    for s in [" a ", "", "  ", "a", "\ta b\r\n", "\u{2003}x y\u{2028}"] {
        assert_eq!(text(&trimmed(&chars(s))), s.trim());
        assert_eq!(text(&stripped(&chars(s), Some('a'))), s.trim_matches('a'));
    }
}

#[test]
fn splitting_keeps_empty_pieces() {
    for s in ["", ";", "a", "a;b", ";a;;b;", "a=b;c=d"] {
        let pieces: Vec<String> = split_on(&chars(s), ';').iter().map(text).collect();
        let expected: Vec<String> = s.split(';').map(|p| p.to_string()).collect();
        assert_eq!(pieces, expected, "{:?}", s);
    }
}

#[test]
fn case_conversion_is_that_of_the_standard_library() {
    let mut c = 0u32;
    while c <= 0x10FFFF {
        if let Some(ch) = char::from_u32(c) {
            assert_eq!(to_upper_char(ch), ch.to_ascii_uppercase(), "U+{:04X}", c);
        }
        c += 1;
    }
    for s in [
        "",
        "get",
        "GeT",
        "HEAD",
        "s3",
        "Azure",
        "tschüß",
        "ſ",
        "ǅ",
        "İstanbul",
        "ΟΔΟΣ",
        "ＴＲＵＥ",
        "a\u{7f}z",
    ] {
        assert_eq!(text(&upper_cased(s)), s.to_uppercase(), "{:?}", s);
        assert_eq!(text(&lower_cased(s)), s.to_lowercase(), "{:?}", s);
    }
    assert!(is_all_ascii(&chars("abc\u{7f}")));
    assert!(!is_all_ascii(&chars("ab\u{80}")));
    assert!(is_all_ascii(&chars("")));
}
