use zero_day_chat::encoding::{prefixed_hex_id, random_bytes};
use zero_day_chat::text::{char_is_white_space, char_utf8_width, trimmed, utf8_len_up_to, utf8_prefix};

#[test]
fn trimming_matches_str_trim() {
    for s in ["", "   ", " a ", "\t\nab c\r\n", "\u{3000}x\u{a0}", "x", "\u{200b}y"] {
        assert_eq!(trimmed(s), s.trim());
    }
}

#[test]
fn white_space_matches_char() {
    for c in ['\t', '\n', ' ', '\u{85}', '\u{a0}', '\u{1680}', '\u{2000}', '\u{200a}', '\u{2028}',
              '\u{2029}', '\u{202f}', '\u{205f}', '\u{3000}', 'a', '\u{200b}', '\u{feff}', '0'] {
        assert_eq!(char_is_white_space(c), c.is_whitespace());
    }
}

#[test]
fn utf8_widths() {
    for c in ['a', 'é', '€', '😀'] {
        assert_eq!(char_utf8_width(c), c.len_utf8());
    }
    assert_eq!(utf8_len_up_to("héllo", 100), 6);
    assert_eq!(utf8_len_up_to("héllo", 3), 3);
}

#[test]
fn prefix_in_bytes() {
    assert_eq!(utf8_prefix("abcdefghij", 8), "abcdefgh");
    assert_eq!(utf8_prefix("abc", 8), "abc");
    assert_eq!(utf8_prefix("abcdefgé", 8), "abcdefg");
    assert_eq!(utf8_prefix("😀😀😀", 8), "😀😀");
}

#[test]
fn hex_identifiers() {
    assert_eq!(prefixed_hex_id("ch-", &[0xab, 0x01, 0x00, 0xff]), "ch-ab0100ff");
    assert_eq!(prefixed_hex_id("x", &[]), "x");
    assert_eq!(random_bytes(6).len(), 6);
}
