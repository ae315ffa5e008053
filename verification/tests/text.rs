use dispatch::text::{decimal_text, is_white_space, push_decimal, same_text, trim};

#[test]
fn decimal_notation() {
    for n in [0u64, 7, 9, 10, 42, 99, 100, 1800, 65535, u64::MAX - 1, u64::MAX] {
        assert_eq!(decimal_text(n), n.to_string());
    }
    let mut out = String::from("PID ");
    push_decimal(&mut out, 12);
    assert_eq!(out, "PID 12");
}

#[test]
fn white_space_is_that_of_char() {
    for code in 0..=0x10FFFFu32 {
        if let Some(c) = char::from_u32(code) {
            assert_eq!(is_white_space(c), c.is_whitespace(), "char {:x}", code);
        }
    }
}

#[test]
fn trim_is_that_of_str() {
    for s in ["", " ", "a", "  a b\t\n", "\u{3000}x\u{a0}", "\r\n", "x y", "\u{200b}z"] {
        assert_eq!(trim(s), s.trim());
    }
}

#[test]
fn texts_are_compared_by_characters() {
    assert!(same_text("ping", "ping"));
    assert!(!same_text("ping", "pong"));
    assert!(!same_text("ping", "ping "));
    assert!(same_text("", ""));
}
