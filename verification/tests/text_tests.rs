use sheet_codec::text::{
    char_is_whitespace, char_lower, char_upper, chars_of, contains_char, lowercase, replace_all,
    spells, spells_ignoring_case, string_of, trim, uppercase,
};

fn chars(s: &str) -> Vec<char> {
    s.chars().collect()
}

#[test]
fn characters_go_there_and_back() {
    for s in ["", "a", "héllo wörld", "日本語", "a\u{1F600}b"] {
        assert_eq!(chars_of(s), chars(s));
        assert_eq!(string_of(&chars(s)), s);
    }
}

#[test]
fn white_space_is_that_of_unicode() {
    for n in 0..=0x10FFFFu32 {
        if let Some(c) = char::from_u32(n) {
            assert_eq!(char_is_whitespace(c), c.is_whitespace(), "U+{n:04X}");
        }
    }
}

#[test]
fn case_is_that_of_ascii() {
    for n in 0..=0x10FFFFu32 {
        if let Some(c) = char::from_u32(n) {
            assert_eq!(char_lower(c), c.to_ascii_lowercase(), "U+{n:04X}");
            assert_eq!(char_upper(c), c.to_ascii_uppercase(), "U+{n:04X}");
        }
    }
    assert_eq!(lowercase(&chars("ÀbC-Z")), chars("Àbc-z"));
    assert_eq!(uppercase(&chars("àBc-z")), chars("àBC-Z"));
}

#[test]
fn trim_is_that_of_std() {
    for s in [
        "", " ", "a", " a", "a ", "  a b  ", "\t\r\n x \u{A0}\u{3000}", "\u{2003}mid dle\u{85}",
        "\u{200B}zero width stays\u{200B}", "\n\n",
    ] {
        assert_eq!(string_of(&trim(&chars(s))), s.trim(), "{s:?}");
    }
}

#[test]
fn replace_is_that_of_std() {
    let cases = [
        ("", "a", "b"),
        ("aaa", "a", "b"),
        ("aaa", "aa", "b"),
        ("abcabc", "bc", ""),
        ("a&amp;b&amp;amp;c", "&amp;", "&"),
        ("x\r\ny\rz", "\r\n", "\n"),
        ("x\r\ny\rz", "\r", "\n"),
        ("nothing", "zz", "y"),
        ("ab", "abc", "y"),
        ("ééé", "é", "e"),
    ];
    for (s, pat, to) in cases {
        assert_eq!(
            string_of(&replace_all(&chars(s), &chars(pat), &chars(to))),
            s.replace(pat, to),
            "{s:?} {pat:?} {to:?}"
        );
    }
    assert_eq!(string_of(&replace_all(&chars("abc"), &chars(""), &chars("x"))), "abc");
}

#[test]
fn spelling_with_and_without_case() {
    assert!(spells(&chars("true"), "true"));
    assert!(!spells(&chars("True"), "true"));
    assert!(!spells(&chars("tru"), "true"));
    for (a, b) in [("TRUE", "true"), ("", ""), ("a", "b"), ("Text_Length", "text_length"), ("é", "É")]
    {
        assert_eq!(spells_ignoring_case(&chars(a), b), a.eq_ignore_ascii_case(b), "{a:?} {b:?}");
    }
    assert!(contains_char(&chars("yyyy-mm-dd"), 'd'));
    assert!(!contains_char(&chars("h:mm"), 'd'));
    assert!(!contains_char(&chars(""), 'd'));
}
