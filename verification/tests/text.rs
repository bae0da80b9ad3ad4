use telegram_chatbot::text::{
    begins_with, chars_of, decimal_text, replace_all, replace_first, trim_leading,
};

const TEXTS: [&str; 14] = [
    "",
    "a",
    "aa",
    "aaa",
    "aaaa",
    "abab",
    "ababa",
    "banana",
    "dist/dist/x",
    "/dist//dist/",
    "x\u{e9}y\u{e9}",
    "\u{1f600}\u{1f600}",
    "a,\n,\n",
    "----",
];

const PATTERNS: [&str; 10] = ["", "a", "aa", "ab", "aba", "ana", "dist/", "\u{e9}", "\u{1f600}", "zz"];

#[test]
fn replace_all_agrees_with_std() {
    for text in TEXTS {
        for from in PATTERNS {
            for to in ["", "-", "aa", "\u{e9}"] {
                assert_eq!(
                    replace_all(text, from, to),
                    text.replace(from, to),
                    "{:?} {:?} {:?}",
                    text,
                    from,
                    to
                );
            }
        }
    }
}

#[test]
fn replace_first_agrees_with_std() {
    for text in TEXTS {
        for from in PATTERNS {
            for to in ["", "-", "aa", "\u{e9}"] {
                assert_eq!(
                    replace_first(text, from, to),
                    text.replacen(from, to, 1),
                    "{:?} {:?} {:?}",
                    text,
                    from,
                    to
                );
            }
        }
    }
}

#[test]
fn replacing_takes_matches_from_the_left_without_overlap() {
    assert_eq!(replace_all("aaa", "aa", "b"), "ba");
    assert_eq!(replace_all("ababa", "aba", "x"), "xba");
    assert_eq!(replace_all("abc", "", "-"), "-a-b-c-");
    assert_eq!(replace_all("", "", "-"), "-");
    assert_eq!(replace_first("aaa", "a", "b"), "baa");
    assert_eq!(replace_first("abc", "", "-"), "-abc");
    assert_eq!(replace_first("abc", "x", "-"), "abc");
}

#[test]
fn trimming_and_beginning() {
    for text in ["", "/", "//", "/a", "//a/b/", "a/", "\u{e9}/"] {
        assert_eq!(trim_leading(text, '/'), text.trim_start_matches('/'));
        for pat in ["", "/", "//", "/a", "a", "\u{e9}"] {
            assert_eq!(begins_with(text, pat), text.starts_with(pat), "{:?} {:?}", text, pat);
        }
    }
}

#[test]
fn the_characters_of_a_text() {
    assert_eq!(chars_of(""), Vec::<char>::new());
    assert_eq!(chars_of("a\u{e9}\u{1f600}"), vec!['a', '\u{e9}', '\u{1f600}']);
}

#[test]
fn numbers_in_base_ten() {
    for n in [0u64, 1, 9, 10, 11, 99, 100, 101, 12345, 1_000_000, u32::MAX as u64, u64::MAX - 1, u64::MAX] {
        assert_eq!(decimal_text(n), n.to_string());
    }
    assert_eq!(decimal_text(0), "0");
    assert_eq!(decimal_text(5000), "5000");
    assert_eq!(decimal_text(u64::MAX), "18446744073709551615");
}
