use encoding_resolver::bom::sniff;
use encoding_resolver::strutil::{contains_sub, str_eq_check, to_lower};
use encoding_resolver::detector::{confidence_permille, detect, DetectionSource};
use encoding_resolver::errors::DecodeError;
use encoding_resolver::table::get_codepage;
use encoding_resolver::utf16::decode_utf16;

#[test]
fn sniff_utf8_bom() {
    let r = sniff(&[0xEF, 0xBB, 0xBF, 0x41]);
    assert_eq!(r, Some(("utf-8", 3)));
}

#[test]
fn sniff_utf16le_bom() {
    let r = sniff(&[0xFF, 0xFE, 0x41, 0x00]);
    assert_eq!(r, Some(("utf-16le", 2)));
}

#[test]
fn sniff_utf16be_bom() {
    let r = sniff(&[0xFE, 0xFF, 0x00, 0x41]);
    assert_eq!(r, Some(("utf-16be", 2)));
}

#[test]
fn sniff_no_bom() {
    assert_eq!(sniff(b"hello"), None);
    assert_eq!(sniff(&[]), None);
    assert_eq!(sniff(&[0xEF, 0xBB]), None);
}

#[test]
fn lowercase_and_contains() {
    assert_eq!(to_lower("UTF-16LE"), "utf-16le");
    assert_eq!(to_lower("Shift-JIS"), "shift-jis");
    assert_eq!(to_lower("\u{00DC}ber"), "\u{00DC}ber");
    assert!(contains_sub("utf-16le", "le"));
    assert!(contains_sub("utf-16le", "utf-16"));
    assert!(!contains_sub("utf-16le", "be"));
    assert!(contains_sub("anything", ""));
    assert!(str_eq_check("gbk", "gbk"));
    assert!(!str_eq_check("gbk", "gb2312"));
}

#[test]
fn lookup_case_insensitive() {
    let a = get_codepage("GBK");
    let b = get_codepage("gbk");
    let c = get_codepage("Gbk");
    assert_eq!(a, Some(936));
    assert_eq!(b, Some(936));
    assert_eq!(c, Some(936));
}

#[test]
fn lookup_known_entries() {
    assert_eq!(get_codepage("utf-8"), Some(65001));
    assert_eq!(get_codepage("utf8"), Some(65001));
    assert_eq!(get_codepage("utf-16le"), Some(1200));
    assert_eq!(get_codepage("utf-16be"), Some(1201));
    assert_eq!(get_codepage("gb2312"), Some(936));
    assert_eq!(get_codepage("gb18030"), Some(54936));
    assert_eq!(get_codepage("Big5"), Some(950));
    assert_eq!(get_codepage("SHIFT_JIS"), Some(932));
    assert_eq!(get_codepage("sjis"), Some(932));
    assert_eq!(get_codepage("euc-jp"), Some(51932));
    assert_eq!(get_codepage("iso-2022-jp"), Some(50220));
    assert_eq!(get_codepage("EUC-KR"), Some(51949));
    assert_eq!(get_codepage("ks_c_5601-1987"), Some(949));
    assert_eq!(get_codepage("windows-1252"), Some(1252));
    assert_eq!(get_codepage("latin1"), Some(28591));
    assert_eq!(get_codepage("iso-8859-1"), Some(28591));
    assert_eq!(get_codepage("ASCII"), Some(20127));
}

#[test]
fn lookup_unknown_label() {
    assert_eq!(get_codepage("unknown-charset-xyz"), None);
    assert_eq!(get_codepage("windows-31j"), None);
    assert_eq!(get_codepage(""), None);
}

#[test]
fn utf16_le_pairs() {
    let r = decode_utf16(&[0x41, 0x00, 0x42, 0x00], "utf-16le");
    assert_eq!(r.unwrap(), "AB");
}

#[test]
fn utf16_be_pairs() {
    let r = decode_utf16(&[0x00, 0x41, 0x00, 0x42], "utf-16be");
    assert_eq!(r.unwrap(), "AB");
}

#[test]
fn utf16_odd_length_tolerated() {
    // the dangling 0x42 is read as if a zero byte followed it
    let r = decode_utf16(&[0x41, 0x00, 0x42], "utf-16le");
    assert_eq!(r.unwrap(), "AB");
}

#[test]
fn utf16_odd_length_matches_padded() {
    let odd = decode_utf16(&[0x41, 0x00, 0x42], "utf-16le").unwrap();
    let padded = decode_utf16(&[0x41, 0x00, 0x42, 0x00], "utf-16le").unwrap();
    assert_eq!(odd, padded);
}

#[test]
fn utf16_empty_refused() {
    let r = decode_utf16(&[], "utf-16le");
    assert!(matches!(r, Err(DecodeError::EmptyInput)));
}

#[test]
fn utf16_unpaired_surrogate_refused() {
    let r = decode_utf16(&[0x00, 0xD8], "utf-16le");
    assert!(matches!(r, Err(DecodeError::InvalidUtf16Sequence)));
    let r2 = decode_utf16(&[0x00, 0xDC], "utf-16le");
    assert!(matches!(r2, Err(DecodeError::InvalidUtf16Sequence)));
}

#[test]
fn utf16_surrogate_pair_combined() {
    let r = decode_utf16(&[0x3D, 0xD8, 0x00, 0xDE], "utf-16le");
    assert_eq!(r.unwrap(), "\u{1F600}");
}

#[test]
fn utf16_bare_label_defaults_little_endian() {
    let r = decode_utf16(&[0x41, 0x00], "utf-16");
    assert_eq!(r.unwrap(), "A");
}

#[test]
fn utf16_label_selects_big_endian() {
    let r = decode_utf16(&[0x00, 0x41], "UTF-16BE");
    assert_eq!(r.unwrap(), "A");
}

#[test]
fn permille_exact_values() {
    assert_eq!(confidence_permille(0.0f32.to_bits()), 0);
    assert_eq!(confidence_permille(0.25f32.to_bits()), 250);
    assert_eq!(confidence_permille(0.5f32.to_bits()), 500);
    assert_eq!(confidence_permille(0.99f32.to_bits()), 990);
    assert_eq!(confidence_permille(1.0f32.to_bits()), 1000);
}

#[test]
fn permille_clamps_out_of_range_scores() {
    assert_eq!(confidence_permille((-0.5f32).to_bits()), 0);
    assert_eq!(confidence_permille(2.0f32.to_bits()), 1000);
    assert_eq!(confidence_permille(f32::INFINITY.to_bits()), 1000);
    assert_eq!(confidence_permille(1e-40f32.to_bits()), 0);
}

#[test]
fn detect_empty_falls_back_to_utf8() {
    let d = detect(&[]);
    assert_eq!(d.label, "utf-8");
    assert_eq!(d.confidence_permille, 0);
    assert_eq!(d.source, DetectionSource::Statistical);
}

#[test]
fn detect_pure_ascii() {
    let d = detect(b"hello world");
    assert_eq!(d.label, "ascii");
    assert_eq!(d.confidence_permille, 1000);
    assert_eq!(d.source, DetectionSource::Statistical);
}
