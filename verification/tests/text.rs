use teleport::text;
use teleport::wire;

fn every_char() -> impl Iterator<Item = char> {
    (0..=0x10FFFFu32).filter_map(char::from_u32)
}

#[test]
fn character_classes_are_those_of_unicode() {
    for c in every_char() {
        assert_eq!(text::is_digit(c), c.is_ascii_digit());
        assert_eq!(text::is_hex_digit(c), c.is_ascii_hexdigit());
        assert_eq!(text::is_alphanumeric(c), c.is_ascii_alphanumeric());
        assert_eq!(text::is_white_space(c), c.is_whitespace(), "{:x}", c as u32);
        assert_eq!(text::is_control(c), c.is_control());
        assert_eq!(text::is_ascii_white_space(c), c.is_ascii_whitespace());
    }
}

#[test]
fn text_is_searched_and_trimmed() {
    for s in ["", "a", " a ", "\u{2003}ab\n", "   ", "ä ö", "aab"] {
        assert_eq!(text::trim(s), s.trim());
        assert_eq!(text::byte_len(s), s.len());
        for p in ["", "a", "ab", "b", "ä", " "] {
            assert_eq!(text::starts_with(s, p), s.starts_with(p));
            assert_eq!(text::ends_with(s, p), s.ends_with(p));
            assert_eq!(text::contains_text(s, p), s.contains(p));
            assert_eq!(text::same(s, p), s == p);
            assert_eq!(text::same_bytes(s.as_bytes(), p.as_bytes()), s == p);
        }
        assert_eq!(text::contains(s, 'a'), s.contains('a'));
        assert_eq!(text::has_white_space(s), s.contains(char::is_whitespace));
        assert_eq!(text::has_control(s), s.contains(char::is_control));
    }
    assert!(text::is_token_form(&"0aF".repeat(22)[..64]));
    assert!(!text::is_token_form(&"a".repeat(63)));
    assert!(text::is_all_hex("09afAF"));
    assert!(!text::is_all_hex("0g"));
    assert_eq!(text::clip("äöü", 2), "äö");
    assert_eq!(text::clip("ab", 5), "ab");
}

#[test]
fn numbers_are_written_out() {
    for n in [0u64, 9, 10, 99, 100, 12_345, u64::MAX] {
        let mut out = String::from("n=");
        text::push_decimal(&mut out, n);
        assert_eq!(out, format!("n={n}"));
        assert_eq!(text::format_number(n), format!("{n:016x}"));
    }
    assert_eq!(text::format_six_digits(7), "000007");
    assert_eq!(text::format_hex(&[0, 255, 16]), "00ff10");
}

#[test]
fn integers_travel_big_endian() {
    let mut out = Vec::new();
    wire::push_be16(&mut out, 0x1234);
    wire::push_be32(&mut out, 0xDEAD_BEEF);
    assert_eq!(out, vec![0x12, 0x34, 0xDE, 0xAD, 0xBE, 0xEF]);
    assert_eq!(wire::read_be16(&out, 0), 0x1234);
    assert_eq!(wire::read_be32(&out, 2), 0xDEAD_BEEF);
    assert_eq!(wire::slice(&out, 1, 3), &[0x34, 0xDE]);
    assert!(wire::has_prefix(&out, &[0x12]));
    assert!(!wire::has_prefix(&out, &[0x34]));
}
