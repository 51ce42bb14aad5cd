use any_crosshair::setting::{hotkey_setting_text, parse_hotkey_setting};
use any_crosshair::text::{chars_of, utf16_encode, utf16_le_bytes, wide};

#[test]
fn wide_ascii_is_nul_terminated() {
    assert_eq!(wide("F9"), vec![0x46, 0x39, 0]);
    assert_eq!(wide(""), vec![0]);
}

#[test]
fn wide_encodes_cjk_and_surrogate_pairs() {
    assert_eq!(wide("热键"), vec![0x70ED, 0x952E, 0]);
    assert_eq!(wide("a\u{1F600}"), vec![0x61, 0xD83D, 0xDE00, 0]);
    assert_eq!(wide("\u{10FFFF}"), vec![0xDBFF, 0xDFFF, 0]);
    let s = "开机自启 Any Crosshair \u{1F3AF}";
    let mut expected: Vec<u16> = s.encode_utf16().collect();
    expected.push(0);
    assert_eq!(wide(s), expected);
}

#[test]
fn chars_and_units() {
    assert_eq!(chars_of("a热"), vec!['a', '热']);
    assert_eq!(utf16_encode(&['x', '\u{10000}']), vec![0x78, 0xD800, 0xDC00]);
}

#[test]
fn le_bytes_of_units() {
    assert_eq!(utf16_le_bytes(&[0x0041, 0x70ED, 0]), vec![0x41, 0x00, 0xED, 0x70, 0, 0]);
    assert_eq!(utf16_le_bytes(&[]), Vec::<u8>::new());
}

#[test]
fn setting_reads_plain_indices() {
    for i in 0..8 {
        assert_eq!(parse_hotkey_setting(&i.to_string()), i);
    }
}

#[test]
fn setting_trims_and_accepts_sign() {
    assert_eq!(parse_hotkey_setting(" 5\n"), 5);
    assert_eq!(parse_hotkey_setting("\t+7\r\n"), 7);
    assert_eq!(parse_hotkey_setting("007"), 7);
    assert_eq!(parse_hotkey_setting("\u{3000}2\u{a0}"), 2);
    assert_eq!(parse_hotkey_setting("-0"), 0);
}

#[test]
fn setting_rejects_out_of_range_and_garbage() {
    assert_eq!(parse_hotkey_setting("8"), 0);
    assert_eq!(parse_hotkey_setting("-1"), 0);
    assert_eq!(parse_hotkey_setting("99999999999999999999"), 0);
    assert_eq!(parse_hotkey_setting("abc"), 0);
    assert_eq!(parse_hotkey_setting(""), 0);
    assert_eq!(parse_hotkey_setting("   "), 0);
    assert_eq!(parse_hotkey_setting("+"), 0);
    assert_eq!(parse_hotkey_setting("3 4"), 0);
    assert_eq!(parse_hotkey_setting("3x"), 0);
    assert_eq!(parse_hotkey_setting("++3"), 0);
}

#[test]
fn setting_text_is_decimal() {
    assert_eq!(hotkey_setting_text(5), b"5".to_vec());
    assert_eq!(hotkey_setting_text(0), b"0".to_vec());
    assert_eq!(hotkey_setting_text(42), b"42".to_vec());
    assert_eq!(hotkey_setting_text(-12), b"-12".to_vec());
    assert_eq!(hotkey_setting_text(i32::MIN), b"-2147483648".to_vec());
    assert_eq!(hotkey_setting_text(i32::MAX), b"2147483647".to_vec());
}

#[test]
fn setting_round_trip() {
    for i in [-5, -1, 0, 1, 2, 3, 4, 5, 6, 7, 8, 10, 1000, i32::MIN, i32::MAX] {
        let text = String::from_utf8(hotkey_setting_text(i)).unwrap();
        let expected = if (0..=7).contains(&i) { i } else { 0 };
        assert_eq!(parse_hotkey_setting(&text), expected);
    }
}
