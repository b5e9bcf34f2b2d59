use vstd::prelude::*;
use vstd::utf8::*;
use encoding_rs::{SHIFT_JIS, UTF_8};
use chardetng::{EncodingDetector, Iso2022JpDetection, Utf8Detection};

verus! {

/// The character encodings a memo can be read in and written in.
#[derive(Clone, Copy, Debug, PartialEq, Eq, Structural)]
pub enum EncType {
    ShiftJis,
    Utf8,
}

/// The two bytes of a UTF-16 byte order mark, in either order.
pub open spec fn has_utf16_bom(bytes: Seq<u8>) -> bool {
    bytes.len() >= 2 && ((bytes[0] == 0xFFu8 && bytes[1] == 0xFEu8) || (bytes[0] == 0xFEu8
        && bytes[1] == 0xFFu8))
}

/// The three bytes of a UTF-8 byte order mark.
pub open spec fn has_utf8_bom(bytes: Seq<u8>) -> bool {
    bytes.len() >= 3 && bytes[0] == 0xEFu8 && bytes[1] == 0xBBu8 && bytes[2] == 0xBFu8
}

/// The bytes with a leading UTF-8 byte order mark removed.
pub open spec fn without_utf8_bom(bytes: Seq<u8>) -> Seq<u8> {
    if has_utf8_bom(bytes) {
        bytes.skip(3)
    } else {
        bytes
    }
}

/// Every byte is in the ASCII range.
pub open spec fn is_ascii_bytes(bytes: Seq<u8>) -> bool {
    forall|i: int| 0 <= i < bytes.len() ==> #[trigger] bytes[i] < 0x80u8
}

/// ASCII bytes read as characters, one for one.
pub open spec fn ascii_chars(bytes: Seq<u8>) -> Seq<char> {
    bytes.map_values(|b: u8| b as char)
}

/// Input that a decoder reads as plain UTF-8: no UTF-16 byte order mark,
/// and, past an optional UTF-8 byte order mark, well-formed UTF-8.
pub open spec fn is_plain_utf8(bytes: Seq<u8>) -> bool {
    !has_utf16_bom(bytes) && valid_utf8(without_utf8_bom(bytes))
}

/// The text that plain UTF-8 input stands for.
pub open spec fn plain_utf8_text(bytes: Seq<u8>) -> Seq<char> {
    decode_utf8(without_utf8_bom(bytes))
}

/// Input a decoder handles without sizing a new buffer (ASCII, or plain
/// UTF-8 read as UTF-8, which is passed through as it is), or input small
/// enough that sizing one cannot overflow.
pub open spec fn decodable(enc: EncType, bytes: Seq<u8>) -> bool {
    ||| bytes.len() <= usize::MAX / 8
    ||| is_ascii_bytes(bytes)
    ||| (enc is Utf8 || has_utf8_bom(bytes)) && is_plain_utf8(bytes)
}

/// Text an encoder handles without sizing a new buffer (any text in UTF-8,
/// ASCII text in any encoding), or text short enough that sizing one cannot
/// overflow.
pub open spec fn encodable(enc: EncType, text: Seq<char>) -> bool {
    ||| text.len() <= usize::MAX / 32
    ||| enc is Utf8
    ||| is_ascii_chars(text)
}

/// What `encoding_rs::Encoding::decode` gives for the encoding and the bytes:
/// the decoded text and whether malformed sequences were replaced.
pub uninterp spec fn encoding_decode(enc: EncType, bytes: Seq<u8>) -> (Seq<char>, bool);

/// What `encoding_rs::Encoding::encode` gives for the encoding and the text:
/// the encoded bytes and whether unmappable characters were replaced.
pub uninterp spec fn encoding_encode(enc: EncType, text: Seq<char>) -> (Seq<u8>, bool);

/// The name (`encoding_rs::Encoding::name`) of the encoding that
/// `chardetng::EncodingDetector::guess` picks after the whole of `bytes` was fed
/// to a detector, with the given permissions for ISO-2022-JP and UTF-8 and no
/// top-level domain.
pub uninterp spec fn detector_guess(bytes: Seq<u8>, allow_iso_2022_jp: bool, allow_utf8: bool) -> Seq<char>;

/// Calls `encoding_rs::Encoding::decode` (decoding with BOM sniffing) on the
/// encoding named by `enc`. Trusted: the result is the named one; for input
/// that is read as UTF-8 (the encoding is UTF-8 or the input starts with a UTF-8
/// BOM, and no UTF-16 BOM) an error is reported exactly when the bytes past the
/// BOM are not well-formed UTF-8, and well-formed input decodes to its UTF-8
/// meaning; ASCII input decodes byte for byte without error. Input that
/// needs a new buffer is bounded in length, which keeps the crate's buffer
/// size computations from overflowing.
#[verifier::external_body]
fn decode_bytes(enc: EncType, bytes: &[u8]) -> (res: (String, bool))
    requires
        decodable(enc, bytes@),
    ensures
        (res.0@, res.1) == encoding_decode(enc, bytes@),
        !has_utf16_bom(bytes@) && (enc is Utf8 || has_utf8_bom(bytes@)) ==> (res.1 <==> !valid_utf8(
            without_utf8_bom(bytes@),
        )),
        (enc is Utf8 || has_utf8_bom(bytes@)) && is_plain_utf8(bytes@) ==> res.0@ == plain_utf8_text(
            bytes@,
        ),
        is_ascii_bytes(bytes@) ==> !res.1 && res.0@ == ascii_chars(bytes@),
{
    let encoding = match enc {
        EncType::Utf8 => UTF_8,
        EncType::ShiftJis => SHIFT_JIS,
    };
    let (text, _, had_errors) = encoding.decode(bytes);
    (text.into_owned(), had_errors)
}

/// Calls `encoding_rs::Encoding::encode` on the encoding named by `enc`.
/// Trusted: the result is the named one; UTF-8 output, and the output for
/// ASCII-only text, is the text's UTF-8 bytes with no error. Text that needs
/// a new buffer is bounded in length, which keeps the crate's buffer size
/// computations from overflowing.
#[verifier::external_body]
fn encode_text(enc: EncType, text: &str) -> (res: (Vec<u8>, bool))
    requires
        encodable(enc, text@),
    ensures
        (res.0@, res.1) == encoding_encode(enc, text@),
        enc is Utf8 || is_ascii_chars(text@) ==> !res.1 && res.0@ == encode_utf8(text@),
{
    let encoding = match enc {
        EncType::Utf8 => UTF_8,
        EncType::ShiftJis => SHIFT_JIS,
    };
    let (bytes, _, had_errors) = encoding.encode(text);
    (bytes.into_owned(), had_errors)
}

/// Runs a `chardetng::EncodingDetector` over the whole input and returns the
/// name of the guessed encoding. Trusted: the name is the named result.
#[verifier::external_body]
fn guess_encoding_name(bytes: &[u8], allow_iso_2022_jp: bool, allow_utf8: bool) -> (name: String)
    ensures
        name@ == detector_guess(bytes@, allow_iso_2022_jp, allow_utf8),
{
    let iso = if allow_iso_2022_jp { Iso2022JpDetection::Allow } else { Iso2022JpDetection::Deny };
    let mut detector = EncodingDetector::new(iso);
    detector.feed(bytes, true);
    let utf8 = if allow_utf8 { Utf8Detection::Allow } else { Utf8Detection::Deny };
    detector.guess(None, utf8).name().to_string()
}

/// The encoding of this library that an encoding name stands for, if any.
pub open spec fn encoding_of_name(name: Seq<char>) -> Option<EncType> {
    if name == "UTF-8"@ {
        Some(EncType::Utf8)
    } else if name == "Shift_JIS"@ {
        Some(EncType::ShiftJis)
    } else {
        None
    }
}

/// Detection and conversion of the encodings a memo supports.
pub struct EncodingConverter;

impl EncodingConverter {
    /// Guesses the encoding of the bytes. Only Shift_JIS and UTF-8 are
    /// supported: any other guess gives `None`.
    pub fn detect(bytes: &[u8]) -> (res: Option<EncType>)
        ensures
            res == encoding_of_name(detector_guess(bytes@, false, true)),
    {
        let name = guess_encoding_name(bytes, false, true);
        let utf8 = "UTF-8".to_owned();
        let shift_jis = "Shift_JIS".to_owned();
        if name == utf8 {
            Some(EncType::Utf8)
        } else if name == shift_jis {
            Some(EncType::ShiftJis)
        } else {
            None
        }
    }

    /// Decodes the bytes as text in the encoding. A decoding error is
    /// reported, unless `ignore_error` is set, in which case malformed
    /// sequences stay replaced in the text.
    pub fn decode(bytes: &[u8], enc: EncType, ignore_error: bool) -> (res: Result<String, String>)
        requires
            decodable(enc, bytes@),
        ensures
            match res {
                Ok(text) => text@ == encoding_decode(enc, bytes@).0 && (ignore_error
                    || !encoding_decode(enc, bytes@).1),
                Err(msg) => !ignore_error && encoding_decode(enc, bytes@).1 && msg@
                    == "Decode error."@,
            },
            enc is Utf8 && !has_utf16_bom(bytes@) ==> (res is Err <==> (!ignore_error
                && !valid_utf8(without_utf8_bom(bytes@)))),
            enc is Utf8 && is_plain_utf8(bytes@) ==> (res matches Ok(text) && text@
                == plain_utf8_text(bytes@)),
            is_ascii_bytes(bytes@) ==> (res matches Ok(text) && text@ == ascii_chars(bytes@)),
    {
        let (text, had_errors) = decode_bytes(enc, bytes);
        if had_errors && !ignore_error {
            return Err("Decode error.".to_owned());
        }
        Ok(text)
    }

    /// Encodes the text in the encoding. Text with characters the encoding
    /// cannot represent is an error.
    pub fn convert(text: &str, enc: EncType) -> (res: Result<Vec<u8>, String>)
        requires
            encodable(enc, text@),
        ensures
            match res {
                Ok(bytes) => bytes@ == encoding_encode(enc, text@).0 && !encoding_encode(
                    enc,
                    text@,
                ).1,
                Err(msg) => encoding_encode(enc, text@).1 && msg@ == "Encoding error."@,
            },
            enc is Utf8 || is_ascii_chars(text@) ==> (res matches Ok(bytes) && bytes@
                == encode_utf8(text@)),
    {
        let (bytes, had_errors) = encode_text(enc, text);
        if had_errors {
            return Err("Encoding error.".to_owned());
        }
        Ok(bytes)
    }
}

/// The first byte of a scalar's UTF-8 encoding is never 0xFE or 0xFF, and
/// the encoding starts with the three bytes of a UTF-8 byte order mark only
/// for U+FEFF.
proof fn lemma_scalar_leading_byte(c: u32)
    requires
        is_scalar(c),
    ensures
        encode_scalar(c).len() >= 1,
        encode_scalar(c)[0] != 0xFEu8,
        encode_scalar(c)[0] != 0xFFu8,
        encode_scalar(c)[0] == 0xEFu8 ==> encode_scalar(c).len() == 3,
        encode_scalar(c)[0] == 0xEFu8 && encode_scalar(c)[1] == 0xBBu8 && encode_scalar(c)[2]
            == 0xBFu8 ==> c == 0xFEFFu32,
{
    if has_width_1_encoding(c) {
        assert(((c & 0x7F) as u8) < 0x80u8) by (bit_vector);
    } else if has_width_2_encoding(c) {
        assert((0xC0u8 | ((c >> 6) & 0x1F) as u8) <= 0xDFu8) by (bit_vector);
    } else if has_width_3_encoding(c) {
        assert((0xE0u8 | ((c >> 12) & 0x0F) as u8) <= 0xEFu8) by (bit_vector);
        assert((0xE0u8 | ((c >> 12) & 0x0F) as u8) == 0xEFu8 && (0x80u8 | ((c >> 6) & 0x3F) as u8)
            == 0xBBu8 && (0x80u8 | (c & 0x3F) as u8) == 0xBFu8 ==> c == 0xFEFFu32) by (bit_vector)
            requires
                0x800u32 <= c <= 0xFFFFu32,
        ;
    } else {
        assert((0xF0u8 | ((c >> 18) & 0x7) as u8) >= 0xF0u8 && (0xF0u8 | ((c >> 18) & 0x7) as u8)
            <= 0xF7u8) by (bit_vector);
    }
}

/// Law: text written as UTF-8 reads back unchanged as UTF-8, provided it
/// does not start with U+FEFF (which a reader takes for a byte order mark).
pub proof fn lemma_utf8_round_trip(text: Seq<char>)
    requires
        text.len() == 0 || text[0] as u32 != 0xFEFFu32,
    ensures
        is_plain_utf8(encode_utf8(text)),
        plain_utf8_text(encode_utf8(text)) == text,
        encodable(EncType::Utf8, text),
        decodable(EncType::Utf8, encode_utf8(text)),
{
    broadcast use encode_utf8_valid_utf8, encode_utf8_decode_utf8, char_is_scalar;

    let bytes = encode_utf8(text);
    if text.len() > 0 {
        let c = text[0] as u32;
        char_is_scalar(text[0]);
        lemma_scalar_leading_byte(c);
        let first = encode_scalar(c);
        assert(bytes == first + encode_utf8(text.drop_first()));
        assert(bytes[0] == first[0]);
        if first[0] == 0xEFu8 {
            assert(bytes[1] == first[1]);
            assert(bytes[2] == first[2]);
            if first[1] == 0xBBu8 && first[2] == 0xBFu8 {
                assert(c == 0xFEFFu32);
            }
        }
    }
    assert(!has_utf8_bom(bytes));
    assert(!has_utf16_bom(bytes));
}

/// Law: ASCII text written in any supported encoding reads back unchanged
/// in any supported encoding: its bytes are ASCII, one per character.
pub proof fn lemma_ascii_round_trip(text: Seq<char>)
    requires
        is_ascii_chars(text),
    ensures
        is_ascii_bytes(encode_utf8(text)),
        ascii_chars(encode_utf8(text)) == text,
{
    broadcast use is_ascii_chars_encode_utf8;

    let bytes = encode_utf8(text);
    assert forall|i: int| 0 <= i < bytes.len() implies #[trigger] bytes[i] < 0x80u8 by {
        let c = text[i];
        assert(c as u8 == bytes[i]);
        assert('\0' <= c <= '\u{7f}');
    }
    assert forall|i: int| 0 <= i < text.len() implies #[trigger] ascii_chars(bytes)[i] == text[i] by {
        let c = text[i];
        assert(c as u8 == bytes[i]);
        assert('\0' <= c <= '\u{7f}');
    }
    assert(ascii_chars(bytes) =~= text);
}

} // verus!
