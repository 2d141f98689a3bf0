use image_trainer::text::{
    chars_of, followed_by, decimal_text, is_blank, is_white, join, replace_all, same_text,
    signed_decimal_text, starts_with, trim,
};

const SAMPLES: [&str; 12] = [
    "",
    " ",
    "a",
    "\t a b \r\n",
    "\u{3000}x\u{2028}",
    "\u{85}\u{a0}\u{1680}",
    "\u{200b}x\u{200b}",
    "\\\\?\\C:\\data\\x.py",
    "\\\\\\?\\?\\",
    "aaaa",
    "say \"hi\"\nand \"bye\"",
    "\u{1F600} emoji ",
];

#[test]
fn white_space_is_that_of_unicode() {
    for code in 0..=0x10FFFFu32 {
        if let Some(c) = char::from_u32(code) {
            assert_eq!(is_white(c), c.is_whitespace(), "{:x}", code);
        }
    }
}

#[test]
fn trimming_agrees_with_std() {
    for s in SAMPLES {
        assert_eq!(trim(s), s.trim());
        assert_eq!(is_blank(s), s.trim().is_empty());
    }
    assert_eq!(trim("  two words \n"), "two words");
}

#[test]
fn replacing_agrees_with_std() {
    for s in SAMPLES {
        for (from, to) in [("\\\\?\\", ""), ("\"", "\\\""), ("\n", " "), ("aa", "b"), ("a", "aa")] {
            assert_eq!(replace_all(s, from, to), s.replace(from, to));
        }
    }
    assert_eq!(replace_all("aaaaa", "aa", "-"), "--a");
}

#[test]
fn prefixes_agree_with_std() {
    for s in SAMPLES {
        for p in SAMPLES {
            assert_eq!(starts_with(s, p), s.starts_with(p));
            assert_eq!(same_text(s, p), s == p);
            assert_eq!(followed_by(s, p), format!("{}{}", s, p));
        }
    }
}

#[test]
fn numerals_agree_with_std() {
    for n in [0u64, 7, 9, 10, 99, 100, 8765, 999_999, 1_000_000, u64::MAX] {
        assert_eq!(decimal_text(n), n.to_string());
    }
    for n in [0i32, 1, -1, 10, -10, i32::MAX, i32::MIN] {
        assert_eq!(signed_decimal_text(n), n.to_string());
    }
}

#[test]
fn joining_puts_the_separator_between() {
    let parts = vec!["a".to_string(), "".to_string(), "b".to_string()];
    assert_eq!(join(&parts, ","), "a,,b");
    assert_eq!(join(&vec![], ","), "");
    assert_eq!(join(&vec!["x".to_string()], ", "), "x");
}

#[test]
fn characters_come_in_order() {
    assert_eq!(chars_of("a\u{e9}\u{1F600}"), vec!['a', '\u{e9}', '\u{1F600}']);
}
