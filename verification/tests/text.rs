use session_launch::text::{decimal_text, is_blank, is_white_space, signed_decimal_text};

#[test]
fn white_space_is_what_the_standard_library_trims() {
    for code in 0..=0x10ffff_u32 {
        if let Some(c) = char::from_u32(code) {
            assert_eq!(is_white_space(c), c.is_whitespace(), "{code:x}");
        }
    }
}

#[test]
fn blank_text_is_what_trims_to_nothing() {
    for text in ["", " ", "\t\n\r ", "\u{a0}\u{3000}\u{2028}", " a ", "a", "\u{200b}", "· "] {
        assert_eq!(is_blank(text), text.trim().is_empty(), "{text:?}");
    }
}

#[test]
fn decimal_text_matches_formatting() {
    for n in [0, 1, 9, 10, 11, 99, 100, 1000, 65_534, 4_294_967_295, u64::MAX] {
        assert_eq!(decimal_text(n), format!("{n}"));
    }
}

#[test]
fn signed_decimal_text_matches_formatting() {
    for n in i8::MIN..=i8::MAX {
        assert_eq!(signed_decimal_text(n), format!("{n}"));
    }
}
