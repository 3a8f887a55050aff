use vstd::prelude::*;
use crate::bom::{sniff, spec_sniff};
use crate::detector::{
    canonical_of, canonicalize, detect, statistical_confidence, statistical_label,
    DetectionResult, DetectionSource,
};
use crate::errors::DecodeError;
use crate::strutil::{contains_seq, contains_sub, lower_seq, to_lower};
use crate::table::{get_codepage, lemma_table_codepage_has_label, spec_codepage};
use crate::transcode::{decode_with_codepage, generic_post};
use crate::utf16::{decode_utf16, utf16_post};

verus! {

/// A label that names any UTF-16 variant, case-insensitively.
pub open spec fn is_utf16_label(label: Seq<char>) -> bool {
    contains_seq(lower_seq(label), "utf-16"@) || contains_seq(lower_seq(label), "utf16"@)
}

/// What decoding under a label owes: a UTF-16 label goes to the UTF-16
/// decoder with the byte order the label names; any other label is looked
/// up in the table, an unknown one is refused with `UnsupportedEncoding`,
/// and a known one goes through the two-phase codepage decode.
pub open spec fn decode_post(b: Seq<u8>, label: Seq<char>, r: Result<String, DecodeError>) -> bool {
    if is_utf16_label(label) {
        utf16_post(b, label, r)
    } else {
        match spec_codepage(label) {
            None => (r matches Err(e) && (e matches DecodeError::UnsupportedEncoding { label: l }
                && l@ == label)),
            Some(cp) => generic_post(b, label, cp, r),
        }
    }
}

/// Decodes a buffer under an encoding label. A label naming a UTF-16
/// variant is decoded directly; every other label must resolve through the
/// codepage table.
pub fn decode_with_encoding(bytes: &[u8], encoding: &str) -> (r: Result<String, DecodeError>)
    requires
        bytes@.len() <= usize::MAX / 8,
    ensures
        decode_post(bytes@, encoding@, r),
{
    let lw = to_lower(encoding);
    if contains_sub(lw.as_str(), "utf-16") || contains_sub(lw.as_str(), "utf16") {
        return decode_utf16(bytes, encoding);
    }
    match get_codepage(encoding) {
        None => Err(DecodeError::UnsupportedEncoding { label: encoding.to_owned() }),
        Some(cp) => {
            proof {
                lemma_table_codepage_has_label(encoding@);
            }
            decode_with_codepage(bytes, cp, encoding)
        },
    }
}

/// The post-detection pipeline: canonicalises a charset name, as the
/// statistical collaborator reports one, into an encoding label, and
/// decodes the buffer under it. The buffer is the one detection ran on.
pub fn resolve_with_detection(bytes: &[u8], charset: &str) -> (r: Result<String, DecodeError>)
    requires
        bytes@.len() <= usize::MAX / 8,
    ensures
        decode_post(bytes@, canonical_of(charset@), r),
{
    let owned: String = charset.to_owned();
    let label = canonicalize(&owned);
    decode_with_encoding(bytes, label.as_str())
}

/// The resolver's detection step alone: a byte-order mark answers with a
/// confident label (its confidence is defined as the full thousand) and the
/// mark's length to strip; a markless buffer is answered statistically,
/// with nothing to strip.
pub fn resolve_detection(bytes: &[u8]) -> (r: (DetectionResult, usize))
    ensures
        match spec_sniff(bytes@) {
            Some(p) => r.0.label@ == p.0 && r.0.confidence_permille == 1000 && r.0.source
                == DetectionSource::Bom && r.1 == p.1,
            None => r.0.label@ == statistical_label(bytes@) && r.0.confidence_permille
                == statistical_confidence(bytes@) && r.0.source == DetectionSource::Statistical
                && r.1 == 0,
        },
{
    match sniff(bytes) {
        Some((label, strip)) => (
            DetectionResult {
                label: label.to_owned(),
                confidence_permille: 1000,
                source: DetectionSource::Bom,
            },
            strip,
        ),
        None => (detect(bytes), 0),
    }
}

/// What the resolver owes: with a byte-order mark, the marked bytes are
/// stripped and the rest decoded under the mark's label; with none, the
/// whole buffer is decoded under the statistically detected label.
pub open spec fn resolve_post(b: Seq<u8>, r: Result<String, DecodeError>) -> bool {
    match spec_sniff(b) {
        Some(p) => decode_post(b.skip(p.1), p.0, r),
        None => decode_post(b, statistical_label(b), r),
    }
}

/// The single entry point: resolves the most likely encoding of the buffer
/// and decodes it. Linear, no backtracking: a decode failure is final and
/// never re-triggers detection under another label.
pub fn resolve_and_decode(bytes: &[u8]) -> (r: Result<String, DecodeError>)
    requires
        bytes@.len() <= usize::MAX / 8,
    ensures
        resolve_post(bytes@, r),
{
    match sniff(bytes) {
        Some((label, strip)) => {
            let rest = &bytes[strip..bytes.len()];
            proof {
                assert(rest@ =~= bytes@.skip(spec_sniff(bytes@)->Some_0.1));
            }
            decode_with_encoding(rest, label)
        },
        None => {
            let d = detect(bytes);
            decode_with_encoding(bytes, d.label.as_str())
        },
    }
}

/// A buffer that begins with the UTF-8 mark `EF BB BF` is decoded under the
/// label "utf-8" with exactly the three mark bytes stripped.
pub proof fn lemma_resolve_bom_utf8(b: Seq<u8>, r: Result<String, DecodeError>)
    requires
        b.len() >= 3,
        b[0] == 0xef,
        b[1] == 0xbb,
        b[2] == 0xbf,
        resolve_post(b, r),
    ensures
        decode_post(b.skip(3), "utf-8"@, r),
{
}

/// A buffer that begins with `FF FE` is decoded under the label "utf-16le"
/// with exactly the two mark bytes stripped.
pub proof fn lemma_resolve_bom_utf16le(b: Seq<u8>, r: Result<String, DecodeError>)
    requires
        b.len() >= 2,
        b[0] == 0xff,
        b[1] == 0xfe,
        resolve_post(b, r),
    ensures
        decode_post(b.skip(2), "utf-16le"@, r),
{
}

/// A buffer that begins with `FE FF` is decoded under the label "utf-16be"
/// with exactly the two mark bytes stripped.
pub proof fn lemma_resolve_bom_utf16be(b: Seq<u8>, r: Result<String, DecodeError>)
    requires
        b.len() >= 2,
        b[0] == 0xfe,
        b[1] == 0xff,
        resolve_post(b, r),
    ensures
        decode_post(b.skip(2), "utf-16be"@, r),
{
}

} // verus!
