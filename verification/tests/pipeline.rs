use encoding_resolver::detector::DetectionSource;
use encoding_resolver::errors::DecodeError;
use encoding_resolver::resolver::{
    decode_with_encoding, resolve_and_decode, resolve_detection, resolve_with_detection,
};

#[test]
fn detection_step_bom() {
    let (d, strip) = resolve_detection(&[0xFF, 0xFE, 0x41, 0x00]);
    assert_eq!(d.label, "utf-16le");
    assert_eq!(d.confidence_permille, 1000);
    assert_eq!(d.source, DetectionSource::Bom);
    assert_eq!(strip, 2);
}

#[test]
fn detection_step_statistical() {
    let (d, strip) = resolve_detection(b"plain text");
    assert_eq!(d.label, "ascii");
    assert_eq!(d.source, DetectionSource::Statistical);
    assert_eq!(strip, 0);
}

#[test]
fn resolve_utf8_bom_stripped() {
    let r = resolve_and_decode(&[0xEF, 0xBB, 0xBF, 0x68, 0x69]);
    assert_eq!(r.unwrap(), "hi");
}

#[test]
fn resolve_utf16le_bom() {
    let r = resolve_and_decode(&[0xFF, 0xFE, 0x41, 0x00, 0x42, 0x00]);
    assert_eq!(r.unwrap(), "AB");
}

#[test]
fn resolve_utf16be_bom() {
    let r = resolve_and_decode(&[0xFE, 0xFF, 0x00, 0x41, 0x00, 0x42]);
    assert_eq!(r.unwrap(), "AB");
}

#[test]
fn resolve_empty_buffer() {
    // no mark, detection falls back to "utf-8", and the empty buffer
    // decodes to the empty string
    let r = resolve_and_decode(&[]);
    assert_eq!(r.unwrap(), "");
}

#[test]
fn resolve_plain_ascii() {
    let r = resolve_and_decode(b"hello world");
    assert_eq!(r.unwrap(), "hello world");
}

#[test]
fn resolve_ascii_with_escape_byte() {
    // ASCII-with-escapes is the one stream the detector refuses to
    // classify; the resolver falls back to "utf-8"
    let r = resolve_and_decode(b"\x1b[1m bold");
    assert_eq!(r.unwrap(), "\x1b[1m bold");
}

#[test]
fn stubbed_detection_gbk_roundtrip() {
    // the GBK encoding of the two-character greeting
    let bytes = [0xC4, 0xE3, 0xBA, 0xC3];
    let r = resolve_with_detection(&bytes, "GB2312");
    assert_eq!(r.unwrap(), "\u{4F60}\u{597D}");
}

#[test]
fn decode_gbk_label_direct() {
    let bytes = [0xC4, 0xE3, 0xBA, 0xC3];
    let r = decode_with_encoding(&bytes, "gbk");
    assert_eq!(r.unwrap(), "\u{4F60}\u{597D}");
}

#[test]
fn decode_shift_jis_label() {
    // Shift-JIS bytes of the three-katakana word for "test"
    let bytes = [0x83, 0x65, 0x83, 0x58, 0x83, 0x67];
    let r = decode_with_encoding(&bytes, "shift-jis");
    assert_eq!(r.unwrap(), "\u{30C6}\u{30B9}\u{30C8}");
}

#[test]
fn decode_unknown_label_refused() {
    let r = decode_with_encoding(b"abc", "unknown-charset-xyz");
    match r {
        Err(DecodeError::UnsupportedEncoding { label }) => {
            assert_eq!(label, "unknown-charset-xyz");
        }
        other => panic!("expected UnsupportedEncoding, got {:?}", other),
    }
}

#[test]
fn decode_utf8_label_multibyte() {
    let r = decode_with_encoding("h\u{E9}llo".as_bytes(), "UTF-8");
    assert_eq!(r.unwrap(), "h\u{E9}llo");
}

#[test]
fn decode_malformed_utf8_transcode_failure() {
    let r = decode_with_encoding(&[0xFF, 0xFE, 0xFD], "utf-8");
    match r {
        Err(DecodeError::TranscodeFailed { encoding, codepage }) => {
            assert_eq!(encoding, "utf-8");
            assert_eq!(codepage, 65001);
        }
        other => panic!("expected TranscodeFailed, got {:?}", other),
    }
}

#[test]
fn decode_utf16_label_goes_to_utf16_decoder() {
    let r = decode_with_encoding(&[0x41, 0x00, 0x42], "Utf-16LE");
    assert_eq!(r.unwrap(), "AB");
}

#[test]
fn canonicalised_charset_name_is_used() {
    // the canonicaliser rewrites "CP932" to "windows-31j", which the fixed
    // table does not know: the failure must carry the rewritten label
    let r = resolve_with_detection(&[0x83, 0x65], "CP932");
    match r {
        Err(DecodeError::UnsupportedEncoding { label }) => {
            assert_eq!(label, "windows-31j");
        }
        other => panic!("expected UnsupportedEncoding, got {:?}", other),
    }
}

#[test]
fn resolve_latin1_label() {
    let r = decode_with_encoding(&[0x68, 0xE9], "latin1");
    assert_eq!(r.unwrap(), "h\u{E9}");
}

#[test]
fn resolve_big5_label() {
    // Big5 bytes of the two-character word for "Chinese (language)"
    let bytes = [0xA4, 0xA4, 0xA4, 0xE5];
    let r = decode_with_encoding(&bytes, "big5");
    assert_eq!(r.unwrap(), "\u{4E2D}\u{6587}");
}

#[test]
fn resolve_euc_kr_label() {
    // EUC-KR bytes of the Korean syllable "han"
    let bytes = [0xC7, 0xD1];
    let r = decode_with_encoding(&bytes, "euc-kr");
    assert_eq!(r.unwrap(), "\u{D55C}");
}
