use vstd::prelude::*;
use vstd::arithmetic::div_mod::lemma_basic_div;
use vstd::arithmetic::power2::{lemma2_to64, lemma2_to64_rest, lemma_pow2_strictly_increases, pow2};

verus! {

/// Where a detection answer came from.
#[derive(Debug, Clone, PartialEq, Eq, Structural)]
pub enum DetectionSource {
    Bom,
    Statistical,
}

/// A resolved detection: the encoding label to decode by, the detector's
/// confidence as a permille in 0..=1000, and where the answer came from.
#[derive(Debug, Clone)]
pub struct DetectionResult {
    pub label: String,
    pub confidence_permille: u16,
    pub source: DetectionSource,
}

/// The statistical guess the charset detector makes for a buffer: the
/// charset name, and the raw bits of its confidence score.
pub uninterp spec fn detection_of(bytes: Seq<u8>) -> (Seq<char>, u32);

/// The canonicalisation the detector library applies to a guessed charset
/// name: three names change spelling, every other name passes through
/// unchanged.
pub open spec fn canonical_of(s: Seq<char>) -> Seq<char> {
    if s == "CP932"@ {
        "windows-31j"@
    } else if s == "CP949"@ {
        "windows-949"@
    } else if s == "MacCyrillic"@ {
        "x-mac-cyrillic"@
    } else {
        s
    }
}

/// Buffers the statistical detector classifies: its closing step refuses a
/// stream that stays ASCII-with-escapes throughout, so a buffer holding an
/// escape byte is handed over only when a high byte moves the detector off
/// that state.
pub open spec fn chardet_safe(b: Seq<u8>) -> bool {
    (forall|i: int| 0 <= i < b.len() ==> b[i] != 0x1b) || (exists|i: int|
        0 <= i < b.len() && b[i] >= 0x80 && b[i] != 0xa0)
}

/// Relies on chardet::detect: the guessed charset name and its confidence;
/// the language guess is dropped. The guess depends on the bytes alone. The
/// precondition keeps the detector's closing step off the one input state it
/// refuses to classify.
#[verifier::external_body]
fn detect_charset(bytes: &[u8]) -> (r: (String, u32))
    requires
        chardet_safe(bytes@),
    ensures
        r.0@ == detection_of(bytes@).0,
        r.1 == detection_of(bytes@).1,
{
    let (charset, confidence, _language) = chardet::detect(bytes);
    (charset, confidence.to_bits())
}

/// Relies on chardet::charset2encoding: "CP932", "CP949" and "MacCyrillic"
/// are rewritten to their canonical encoding names; every other charset name
/// is handed back unchanged.
#[verifier::external_body]
pub(crate) fn canonicalize(charset: &String) -> (r: String)
    ensures
        r@ == canonical_of(charset@),
{
    chardet::charset2encoding(charset).to_string()
}

/// Whether the statistical detector classifies the buffer (see
/// `chardet_safe`).
pub fn chardet_safe_check(bytes: &[u8]) -> (r: bool)
    ensures
        r == chardet_safe(bytes@),
{
    let n = bytes.len();
    let mut has_esc = false;
    let mut has_high = false;
    let mut i: usize = 0;
    while i < n
        invariant
            n == bytes@.len(),
            i <= n,
            has_esc == exists|k: int| 0 <= k < i && bytes@[k] == 0x1b,
            has_high == exists|k: int| 0 <= k < i && bytes@[k] >= 0x80 && bytes@[k] != 0xa0,
        decreases n - i,
    {
        let b = bytes[i];
        if b == 0x1b {
            proof {
                assert(bytes@[i as int] == 0x1b);
            }
            has_esc = true;
        }
        if b >= 0x80 && b != 0xa0 {
            has_high = true;
        }
        i = i + 1;
    }
    !has_esc || has_high
}

/// The confidence score's raw IEEE bits read as a permille: the score times
/// a thousand, rounded down and clamped into 0..=1000 (negative scores to 0;
/// scores of one or more, infinities and the undefined score to 1000).
pub open spec fn permille_of_bits(bits: u32) -> u16 {
    let sign = bits / 0x80000000;
    let exp = (bits / 0x800000) % 256;
    let frac = bits % 0x800000;
    if sign == 1 {
        0u16
    } else if exp >= 127 {
        1000u16
    } else {
        let q = ((0x800000 + frac) * 1000) / (pow2((150 - exp) as nat) as int);
        if q > 1000 {
            1000u16
        } else {
            q as u16
        }
    }
}

/// Converts the detector's raw confidence bits to a permille in 0..=1000.
pub fn confidence_permille(bits: u32) -> (r: u16)
    ensures
        r == permille_of_bits(bits),
        r <= 1000,
{
    let sign = bits / 0x80000000;
    let exp = (bits / 0x800000) % 256;
    let frac = bits % 0x800000;
    if sign == 1 {
        0
    } else if exp >= 127 {
        1000
    } else if exp <= 116 {
        proof {
            let num = (0x800000 + frac as int) * 1000;
            let e = (150 - exp) as nat;
            lemma2_to64_rest();
            if e > 34 {
                lemma_pow2_strictly_increases(34, e);
            }
            assert(num < pow2(e));
            lemma_basic_div(num, pow2(e) as int);
        }
        0
    } else {
        let shift = 150 - exp;
        let den: u64 = if shift == 24 {
            16777216
        } else if shift == 25 {
            33554432
        } else if shift == 26 {
            67108864
        } else if shift == 27 {
            134217728
        } else if shift == 28 {
            268435456
        } else if shift == 29 {
            536870912
        } else if shift == 30 {
            1073741824
        } else if shift == 31 {
            2147483648
        } else if shift == 32 {
            4294967296
        } else {
            8589934592
        };
        proof {
            lemma2_to64();
            lemma2_to64_rest();
            assert(den == pow2(shift as nat));
        }
        let num: u64 = (0x800000 + frac as u64) * 1000;
        let q = num / den;
        if q > 1000 {
            1000
        } else {
            q as u16
        }
    }
}

/// The label the statistical path resolves a buffer to: the canonicalised
/// detector guess; an empty buffer, or one the detector refuses to
/// classify, falls back to the "utf-8" default.
pub open spec fn statistical_label(b: Seq<u8>) -> Seq<char> {
    if b.len() == 0 || !chardet_safe(b) {
        "utf-8"@
    } else {
        canonical_of(detection_of(b).0)
    }
}

/// The confidence the statistical path reports, as a permille; zero on the
/// fallback paths.
pub open spec fn statistical_confidence(b: Seq<u8>) -> u16 {
    if b.len() == 0 || !chardet_safe(b) {
        0u16
    } else {
        permille_of_bits(detection_of(b).1)
    }
}

/// Statistical detection over a buffer that excludes any byte-order mark:
/// delegates to the charset-guessing heuristic, canonicalises the guessed
/// name into an encoding label, and surfaces the confidence. Always returns
/// a result; weak inputs fall back to "utf-8" with confidence zero.
pub fn detect(bytes: &[u8]) -> (r: DetectionResult)
    ensures
        r.label@ == statistical_label(bytes@),
        r.confidence_permille == statistical_confidence(bytes@),
        r.source == DetectionSource::Statistical,
{
    if bytes.len() == 0 || !chardet_safe_check(bytes) {
        return DetectionResult {
            label: "utf-8".to_owned(),
            confidence_permille: 0,
            source: DetectionSource::Statistical,
        };
    }
    let (charset, conf_bits) = detect_charset(bytes);
    let label = canonicalize(&charset);
    let p = confidence_permille(conf_bits);
    DetectionResult { label, confidence_permille: p, source: DetectionSource::Statistical }
}

} // verus!
