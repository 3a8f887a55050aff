use vstd::prelude::*;
use crate::errors::DecodeError;
use crate::table::{codepage_label, spec_codepage_label};
use crate::utf16::{assemble_utf16, utf16_decode, utf16_valid};

verus! {

/// The wide-character form the platform decoder gives a byte buffer under a
/// driving label, or nothing when the label is unknown to it or the bytes
/// are malformed for that encoding. The outcome depends on the label and the
/// bytes alone.
pub uninterp spec fn wide_units(label: Seq<char>, bytes: Seq<u8>) -> Option<Seq<u16>>;

/// The sizing pass of the two-phase transcode. Relies on
/// encoding_rs::Encoding::for_label, which resolves a driving label, and on
/// Encoding::decode_without_bom_handling_and_without_replacement, which
/// yields the decoded text exactly when the bytes are well-formed for the
/// encoding; both depend on their arguments alone. The length bound keeps
/// the decoder's internal size calculation from overflowing.
#[verifier::external_body]
fn transcode_size(label: &str, bytes: &[u8]) -> (r: Option<usize>)
    requires
        bytes@.len() <= usize::MAX / 8,
    ensures
        r is Some <==> wide_units(label@, bytes@) is Some,
        r matches Some(n) ==> (wide_units(label@, bytes@) matches Some(u) && u.len() == n),
{
    match encoding_rs::Encoding::for_label(label.as_bytes()) {
        None => None,
        Some(enc) => match enc.decode_without_bom_handling_and_without_replacement(bytes) {
            None => None,
            Some(text) => Some(text.encode_utf16().count()),
        },
    }
}

/// The conversion pass of the two-phase transcode: fills a wide buffer of
/// exactly the size the sizing pass reported. Relies on the same two
/// encoding_rs calls as the sizing pass.
#[verifier::external_body]
fn transcode_fill(label: &str, bytes: &[u8], size: usize) -> (r: Vec<u16>)
    requires
        bytes@.len() <= usize::MAX / 8,
        wide_units(label@, bytes@) matches Some(u) && u.len() == size,
    ensures
        wide_units(label@, bytes@) == Some(r@),
{
    match encoding_rs::Encoding::for_label(label.as_bytes()) {
        None => Vec::new(),
        Some(enc) => match enc.decode_without_bom_handling_and_without_replacement(bytes) {
            None => Vec::new(),
            Some(text) => text.encode_utf16().collect(),
        },
    }
}

/// What the codepage decode owes: under the codepage's driving label, a
/// refused transcode reports `TranscodeFailed` with the label and codepage;
/// a wide buffer that is valid Unicode is assembled into exactly its decoded
/// text, and one that is not is refused with `InvalidWideSequence`.
pub open spec fn generic_post(
    b: Seq<u8>,
    label: Seq<char>,
    cp: u32,
    r: Result<String, DecodeError>,
) -> bool {
    match spec_codepage_label(cp) {
        None => true,
        Some(wl) => match wide_units(wl, b) {
            None => (r matches Err(e) && (e matches DecodeError::TranscodeFailed {
                encoding,
                codepage,
            } && encoding@ == label && codepage == cp)),
            Some(u) => {
                &&& (utf16_valid(u) ==> (r matches Ok(s) && s@ == utf16_decode(u)))
                &&& (!utf16_valid(u) ==> (r matches Err(e) && e is InvalidWideSequence))
            },
        },
    }
}

/// Decodes a non-UTF-16 buffer through the platform transcoding primitive in
/// two phases: a sizing call, then a conversion call into a buffer of that
/// size, then assembly of the wide buffer into a Unicode string.
pub fn decode_with_codepage(bytes: &[u8], codepage: u32, encoding: &str) -> (r: Result<
    String,
    DecodeError,
>)
    requires
        bytes@.len() <= usize::MAX / 8,
        spec_codepage_label(codepage) is Some,
    ensures
        generic_post(bytes@, encoding@, codepage, r),
{
    match codepage_label(codepage) {
        None => {
            proof {
                assert(false);
            }
            Err(DecodeError::InvalidWideSequence)
        },
        Some(wl) => match transcode_size(wl, bytes) {
            None => Err(
                DecodeError::TranscodeFailed { encoding: encoding.to_owned(), codepage: codepage },
            ),
            Some(size) => {
                let wide = transcode_fill(wl, bytes, size);
                match assemble_utf16(&wide) {
                    Some(s) => Ok(s),
                    None => Err(DecodeError::InvalidWideSequence),
                }
            },
        },
    }
}

} // verus!
