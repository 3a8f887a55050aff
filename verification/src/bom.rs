use vstd::prelude::*;

verus! {

/// The byte-order-mark rule: a leading `EF BB BF` names "utf-8" and strips
/// three bytes; `FF FE` names "utf-16le" and `FE FF` names "utf-16be", each
/// stripping two bytes; anything else is no mark at all.
pub open spec fn spec_sniff(b: Seq<u8>) -> Option<(Seq<char>, int)> {
    if b.len() >= 3 && b[0] == 0xef && b[1] == 0xbb && b[2] == 0xbf {
        Some(("utf-8"@, 3int))
    } else if b.len() >= 2 && b[0] == 0xff && b[1] == 0xfe {
        Some(("utf-16le"@, 2int))
    } else if b.len() >= 2 && b[0] == 0xfe && b[1] == 0xff {
        Some(("utf-16be"@, 2int))
    } else {
        None
    }
}

/// Inspects the leading bytes of the buffer; when a byte-order mark is
/// present, hands back the confident encoding label and how many bytes the
/// caller must strip before decoding. Pure in the prefix bytes.
pub fn sniff(bytes: &[u8]) -> (r: Option<(&'static str, usize)>)
    ensures
        match r {
            Some(p) => spec_sniff(bytes@) matches Some(s) && p.0@ == s.0 && p.1 == s.1,
            None => spec_sniff(bytes@) is None,
        },
{
    if bytes.len() >= 3 && bytes[0] == 0xef && bytes[1] == 0xbb && bytes[2] == 0xbf {
        Some(("utf-8", 3))
    } else if bytes.len() >= 2 && bytes[0] == 0xff && bytes[1] == 0xfe {
        Some(("utf-16le", 2))
    } else if bytes.len() >= 2 && bytes[0] == 0xfe && bytes[1] == 0xff {
        Some(("utf-16be", 2))
    } else {
        None
    }
}

/// Every buffer that begins with the UTF-8 mark `EF BB BF` resolves to the
/// label "utf-8" with exactly three bytes stripped.
pub proof fn lemma_bom_utf8(b: Seq<u8>)
    requires
        b.len() >= 3,
        b[0] == 0xef,
        b[1] == 0xbb,
        b[2] == 0xbf,
    ensures
        spec_sniff(b) == Some(("utf-8"@, 3int)),
{
}

/// Every buffer that begins with `FF FE` resolves to "utf-16le" with exactly
/// two bytes stripped.
pub proof fn lemma_bom_utf16le(b: Seq<u8>)
    requires
        b.len() >= 2,
        b[0] == 0xff,
        b[1] == 0xfe,
    ensures
        spec_sniff(b) == Some(("utf-16le"@, 2int)),
{
}

/// Every buffer that begins with `FE FF` resolves to "utf-16be" with exactly
/// two bytes stripped.
pub proof fn lemma_bom_utf16be(b: Seq<u8>)
    requires
        b.len() >= 2,
        b[0] == 0xfe,
        b[1] == 0xff,
    ensures
        spec_sniff(b) == Some(("utf-16be"@, 2int)),
{
}

} // verus!
