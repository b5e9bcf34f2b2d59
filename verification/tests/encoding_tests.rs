use simplememo::encoding::{EncType, EncodingConverter};

#[test]
fn convert_utf8_gives_utf8_bytes() {
    assert_eq!(EncodingConverter::convert("abc", EncType::Utf8).unwrap(), b"abc".to_vec());
    assert_eq!(
        EncodingConverter::convert("あ", EncType::Utf8).unwrap(),
        vec![0xE3, 0x81, 0x82]
    );
}

#[test]
fn convert_shift_jis_gives_shift_jis_bytes() {
    assert_eq!(
        EncodingConverter::convert("あ", EncType::ShiftJis).unwrap(),
        vec![0x82, 0xA0]
    );
    assert_eq!(EncodingConverter::convert("memo", EncType::ShiftJis).unwrap(), b"memo".to_vec());
}

#[test]
fn convert_unmappable_character_is_an_error() {
    assert_eq!(
        EncodingConverter::convert("a\u{1F600}", EncType::ShiftJis),
        Err("Encoding error.".to_string())
    );
}

#[test]
fn decode_shift_jis_and_utf8() {
    assert_eq!(
        EncodingConverter::decode(&[0x82, 0xA0], EncType::ShiftJis, false),
        Ok("あ".to_string())
    );
    assert_eq!(
        EncodingConverter::decode(&[0xE3, 0x81, 0x82], EncType::Utf8, false),
        Ok("あ".to_string())
    );
}

#[test]
fn decode_error_is_reported_unless_ignored() {
    assert_eq!(
        EncodingConverter::decode(&[0x61, 0xFF], EncType::Utf8, false),
        Err("Decode error.".to_string())
    );
    assert_eq!(
        EncodingConverter::decode(&[0x61, 0xFF], EncType::Utf8, true),
        Ok("a\u{FFFD}".to_string())
    );
}

#[test]
fn decode_drops_utf8_byte_order_mark() {
    assert_eq!(
        EncodingConverter::decode(&[0xEF, 0xBB, 0xBF, 0x61], EncType::Utf8, false),
        Ok("a".to_string())
    );
    // A UTF-8 byte order mark wins over the requested encoding.
    assert_eq!(
        EncodingConverter::decode(&[0xEF, 0xBB, 0xBF, 0xE3, 0x81, 0x82], EncType::ShiftJis, false),
        Ok("あ".to_string())
    );
}

#[test]
fn empty_input_decodes_to_empty_text() {
    assert_eq!(EncodingConverter::decode(&[], EncType::ShiftJis, false), Ok(String::new()));
    assert_eq!(EncodingConverter::convert("", EncType::Utf8).unwrap(), Vec::<u8>::new());
}

#[test]
fn detect_utf8_text() {
    let text = "これは日本語のメモです。文字コードを自動で判別します。";
    assert_eq!(EncodingConverter::detect(text.as_bytes()), Some(EncType::Utf8));
}

#[test]
fn detect_shift_jis_text() {
    let text = "これは日本語のメモです。文字コードを自動で判別します。";
    let bytes = EncodingConverter::convert(text, EncType::ShiftJis).unwrap();
    assert_eq!(EncodingConverter::detect(&bytes), Some(EncType::ShiftJis));
}

#[test]
fn detect_plain_ascii_as_utf8() {
    assert_eq!(EncodingConverter::detect(b"hello world"), Some(EncType::Utf8));
}

/// French text in windows-1252.
pub fn latin1_sample() -> Vec<u8> {
    "Ça va très bien, merci beaucoup. À bientôt, chère amie, passez une très bonne journée."
        .chars()
        .map(|c| c as u32 as u8)
        .collect()
}

#[test]
fn detect_other_encoding_is_not_supported() {
    assert_eq!(EncodingConverter::detect(&latin1_sample()), None);
}

#[test]
fn utf8_round_trip_law() {
    for text in ["", "memo", "日本語のメモ\r\n二行目", "emoji \u{1F600}"] {
        let bytes = EncodingConverter::convert(text, EncType::Utf8).unwrap();
        assert_eq!(EncodingConverter::decode(&bytes, EncType::Utf8, false), Ok(text.to_string()));
    }
}

#[test]
fn utf8_round_trip_fails_only_for_leading_feff() {
    let text = "\u{FEFF}abc";
    let bytes = EncodingConverter::convert(text, EncType::Utf8).unwrap();
    assert_eq!(EncodingConverter::decode(&bytes, EncType::Utf8, false), Ok("abc".to_string()));
}

#[test]
fn ascii_round_trip_law() {
    let text = "plain ASCII memo 123";
    for write in [EncType::Utf8, EncType::ShiftJis] {
        let bytes = EncodingConverter::convert(text, write).unwrap();
        for read in [EncType::Utf8, EncType::ShiftJis] {
            assert_eq!(EncodingConverter::decode(&bytes, read, false), Ok(text.to_string()));
        }
    }
}

#[test]
fn lone_invalid_byte_in_utf8() {
    assert_eq!(
        EncodingConverter::decode(&[0xFF], EncType::Utf8, false),
        Err("Decode error.".to_string())
    );
    assert_eq!(
        EncodingConverter::decode(&[0xFF], EncType::Utf8, true),
        Ok("\u{FFFD}".to_string())
    );
}
