use vstd::prelude::*;
use crate::errors::DecodeError;
use crate::strutil::{contains_seq, lower_seq, push_char, to_lower, contains_sub};

verus! {

broadcast use vstd::utf8::char_is_scalar, vstd::utf8::char_u32_cast;

/// The buffer with the documented parity tolerance applied: an odd-length
/// buffer is read as if one zero byte were appended.
pub open spec fn padded(b: Seq<u8>) -> Seq<u8> {
    if b.len() % 2 == 1 {
        b.push(0u8)
    } else {
        b
    }
}

/// The 16-bit code unit at pair position `i` of an even-length buffer, in
/// the given byte order.
pub open spec fn unit_at(b: Seq<u8>, i: int, le: bool) -> u16 {
    if le {
        (b[2 * i] + 256 * b[2 * i + 1]) as u16
    } else {
        (256 * b[2 * i] + b[2 * i + 1]) as u16
    }
}

/// The code units a byte buffer pairs into, after parity padding.
pub open spec fn utf16_units(b: Seq<u8>, le: bool) -> Seq<u16> {
    Seq::new((padded(b).len() / 2) as nat, |i: int| unit_at(padded(b), i, le))
}

pub open spec fn is_high_surrogate(u: u16) -> bool {
    0xd800 <= u && u < 0xdc00
}

pub open spec fn is_low_surrogate(u: u16) -> bool {
    0xdc00 <= u && u < 0xe000
}

/// A code-unit sequence forms valid Unicode: every high surrogate is
/// followed by a low surrogate, and no low surrogate stands alone.
pub open spec fn utf16_valid(s: Seq<u16>) -> bool
    decreases s.len(),
{
    if s.len() == 0 {
        true
    } else if !is_high_surrogate(s[0]) && !is_low_surrogate(s[0]) {
        utf16_valid(s.skip(1))
    } else if is_high_surrogate(s[0]) && s.len() >= 2 && is_low_surrogate(s[1]) {
        utf16_valid(s.skip(2))
    } else {
        false
    }
}

/// The scalar value a surrogate pair encodes.
pub open spec fn combine_surrogates(hi: u16, lo: u16) -> u32 {
    (0x10000 + (hi - 0xd800) * 0x400 + (lo - 0xdc00)) as u32
}

/// The character sequence a valid code-unit sequence decodes to.
pub open spec fn utf16_decode(s: Seq<u16>) -> Seq<char>
    decreases s.len(),
{
    if s.len() == 0 {
        Seq::empty()
    } else if !is_high_surrogate(s[0]) && !is_low_surrogate(s[0]) {
        seq![(s[0] as u32) as char] + utf16_decode(s.skip(1))
    } else if is_high_surrogate(s[0]) && s.len() >= 2 && is_low_surrogate(s[1]) {
        seq![(combine_surrogates(s[0], s[1]) as u32) as char] + utf16_decode(s.skip(2))
    } else {
        Seq::empty()
    }
}

/// Endianness inferred from a label, lower-cased: "le" anywhere selects
/// little-endian, and a label naming neither order defaults to it.
pub open spec fn spec_is_le(label: Seq<char>) -> bool {
    contains_seq(lower_seq(label), "le"@) || !contains_seq(lower_seq(label), "be"@)
}

/// What UTF-16 decoding owes for buffer `b` under label `label`: an empty
/// buffer is refused; otherwise the padded buffer is paired in the label's
/// byte order and decoded, and only an invalid code-unit sequence fails.
pub open spec fn utf16_post(b: Seq<u8>, label: Seq<char>, r: Result<String, DecodeError>) -> bool {
    let u = utf16_units(b, spec_is_le(label));
    &&& (b.len() == 0 ==> (r matches Err(e) && e is EmptyInput))
    &&& (b.len() > 0 && utf16_valid(u) ==> (r matches Ok(s) && s@ == utf16_decode(u)))
    &&& (b.len() > 0 && !utf16_valid(u) ==> (r matches Err(e) && e is InvalidUtf16Sequence))
}

/// Pairs the buffer's bytes into 16-bit code units in the given byte order,
/// reading an odd-length buffer as if one zero byte were appended.
fn pair_units(bytes: &[u8], le: bool) -> (r: Vec<u16>)
    ensures
        r@ == utf16_units(bytes@, le),
{
    let n = bytes.len();
    let m = n / 2;
    let mut out: Vec<u16> = Vec::new();
    let mut i: usize = 0;
    while i < m
        invariant
            n == bytes@.len(),
            m == n / 2,
            i <= m,
            out@ =~= utf16_units(bytes@, le).take(i as int),
        decreases m - i,
    {
        let b0 = bytes[2 * i];
        let b1 = bytes[2 * i + 1];
        let u: u16 = if le {
            b0 as u16 + 256 * (b1 as u16)
        } else {
            256 * (b0 as u16) + b1 as u16
        };
        out.push(u);
        i = i + 1;
        proof {
            assert(out@ =~= utf16_units(bytes@, le).take(i as int));
        }
    }
    if n % 2 == 1 {
        let b0 = bytes[n - 1];
        let u: u16 = if le {
            b0 as u16
        } else {
            256 * (b0 as u16)
        };
        out.push(u);
        proof {
            assert(out@ =~= utf16_units(bytes@, le));
        }
    } else {
        proof {
            assert(out@ =~= utf16_units(bytes@, le));
        }
    }
    out
}

/// Assembles a wide-character buffer into a string: `None` exactly when the
/// code-unit sequence is not valid Unicode.
pub fn assemble_utf16(units: &Vec<u16>) -> (r: Option<String>)
    ensures
        r is Some <==> utf16_valid(units@),
        r matches Some(s) ==> s@ == utf16_decode(units@),
{
    let n = units.len();
    let mut out = String::new();
    let mut i: usize = 0;
    proof {
        assert(units@.skip(0) =~= units@);
    }
    while i < n
        invariant
            n == units@.len(),
            i <= n,
            utf16_valid(units@) <==> utf16_valid(units@.skip(i as int)),
            utf16_valid(units@.skip(i as int)) ==> utf16_decode(units@) =~= out@ + utf16_decode(
                units@.skip(i as int),
            ),
        decreases n - i,
    {
        let u = units[i];
        proof {
            assert(units@.skip(i as int)[0] == units@[i as int]);
        }
        if u < 0xd800 || u >= 0xe000 {
            proof {
                assert(vstd::utf8::is_scalar(u as u32));
            }
            match char::from_u32(u as u32) {
                Some(c) => {
                    push_char(&mut out, c);
                    proof {
                        assert(units@.skip(i as int).skip(1) =~= units@.skip(i as int + 1));
                        assert((c as u32) == (u as u32));
                        vstd::utf8::char_u32_cast(c, u as u32);
                    }
                    i = i + 1;
                },
                None => {
                    proof {
                        assert(false);
                    }
                },
            }
        } else if u < 0xdc00 {
            if i + 1 < n {
                let u2 = units[i + 1];
                proof {
                    assert(units@.skip(i as int)[1] == units@[i as int + 1]);
                }
                if 0xdc00 <= u2 && u2 < 0xe000 {
                    let cp: u32 = 0x10000 + ((u - 0xd800) as u32) * 0x400 + ((u2 - 0xdc00) as u32);
                    proof {
                        assert(cp == combine_surrogates(u, u2));
                        assert(vstd::utf8::is_scalar(cp));
                    }
                    match char::from_u32(cp) {
                        Some(c) => {
                            push_char(&mut out, c);
                            proof {
                                assert(units@.skip(i as int).skip(2) =~= units@.skip(i as int + 2));
                                vstd::utf8::char_u32_cast(c, cp);
                            }
                            i = i + 2;
                        },
                        None => {
                            proof {
                                assert(false);
                            }
                        },
                    }
                } else {
                    proof {
                        assert(!utf16_valid(units@.skip(i as int)));
                    }
                    return None;
                }
            } else {
                proof {
                    assert(units@.skip(i as int).len() == 1);
                    assert(!utf16_valid(units@.skip(i as int)));
                }
                return None;
            }
        } else {
            proof {
                assert(!utf16_valid(units@.skip(i as int)));
            }
            return None;
        }
    }
    proof {
        assert(units@.skip(n as int) =~= Seq::<u16>::empty());
        assert(utf16_valid(units@.skip(n as int)));
        assert(utf16_decode(units@.skip(n as int)) =~= Seq::<char>::empty());
        assert(out@ =~= utf16_decode(units@));
    }
    Some(out)
}

/// Decodes a byte buffer as UTF-16. An empty buffer is refused with
/// `EmptyInput`; an odd-length buffer is read as if one zero byte were
/// appended, so length parity alone never fails; the byte order comes from
/// the label, defaulting to little-endian; a code-unit sequence that is not
/// valid Unicode is refused with `InvalidUtf16Sequence`.
pub fn decode_utf16(bytes: &[u8], encoding: &str) -> (r: Result<String, DecodeError>)
    ensures
        utf16_post(bytes@, encoding@, r),
{
    if bytes.len() == 0 {
        return Err(DecodeError::EmptyInput);
    }
    let lw = to_lower(encoding);
    let is_le = contains_sub(lw.as_str(), "le") || !contains_sub(lw.as_str(), "be");
    let units = pair_units(bytes, is_le);
    match assemble_utf16(&units) {
        Some(s) => Ok(s),
        None => Err(DecodeError::InvalidUtf16Sequence),
    }
}

/// Parity tolerance, stated on its own: an odd-length buffer pairs into
/// exactly the code units of the same buffer with one zero byte appended,
/// in either byte order.
pub proof fn lemma_odd_length_padded(b: Seq<u8>, le: bool)
    requires
        b.len() % 2 == 1,
    ensures
        utf16_units(b, le) == utf16_units(b.push(0u8), le),
{
    assert(padded(b) == b.push(0u8));
    assert(padded(b.push(0u8)) == b.push(0u8));
    assert(utf16_units(b, le) =~= utf16_units(b.push(0u8), le));
}

/// The same tolerance at the contract level: whatever UTF-16 decoding owes
/// for an odd-length buffer, it owes for that buffer with one zero byte
/// appended, under any label.
pub proof fn lemma_odd_decode_as_padded(
    b: Seq<u8>,
    label: Seq<char>,
    r: Result<String, DecodeError>,
)
    requires
        b.len() % 2 == 1,
    ensures
        utf16_post(b, label, r) == utf16_post(b.push(0u8), label, r),
{
    lemma_odd_length_padded(b, spec_is_le(label));
}

} // verus!
