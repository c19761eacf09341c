use zuklink::text::{has_plain_start, join, push_decimal};

#[test]
fn push_decimal_writes_the_number() {
    for number in [0u64, 1, 9, 10, 11, 99, 100, 101, 1024, 65_535, 1_000_000, u64::MAX] {
        let mut text = String::from("n=");
        push_decimal(&mut text, number);
        assert_eq!(text, format!("n={number}"));
    }
}

#[test]
fn join_puts_the_second_behind_the_first() {
    assert_eq!(join("", ""), "");
    assert_eq!(join("ab", ""), "ab");
    assert_eq!(join("", "cd"), "cd");
    assert_eq!(join("ab", "cd"), "abcd");
}

#[test]
fn a_plain_start_is_no_start_or_one_byte() {
    for text in ["", "a", "role", "\u{0}", "\u{7f}", "a\u{e9}", "7\u{1f600}"] {
        assert!(has_plain_start(text), "{text:?}");
        assert!(text.is_char_boundary(text.len().min(1)));
    }
    for text in ["\u{80}", "\u{e9}tat", "\u{7ff}", "\u{800}", "\u{65e5}\u{672c}", "\u{1f600}a"] {
        assert!(!has_plain_start(text), "{text:?}");
        assert!(!text.is_char_boundary(1));
    }
}
