use vstd::prelude::*;
use crate::strutil::{lower_seq, str_eq_check, to_lower};

verus! {

/// The fixed encoding-name table, over already lower-cased labels: each known
/// label maps to its numeric codepage identifier.
pub open spec fn table_lookup(l: Seq<char>) -> Option<u32> {
    if l == "utf-8"@ || l == "utf8"@ {
        Some(65001u32)
    } else if l == "utf-16le"@ {
        Some(1200u32)
    } else if l == "utf-16be"@ {
        Some(1201u32)
    } else if l == "gbk"@ || l == "gb2312"@ || l == "cp936"@ {
        Some(936u32)
    } else if l == "gb18030"@ {
        Some(54936u32)
    } else if l == "big5"@ || l == "cp950"@ {
        Some(950u32)
    } else if l == "shift-jis"@ || l == "shift_jis"@ || l == "sjis"@ || l == "cp932"@ {
        Some(932u32)
    } else if l == "euc-jp"@ {
        Some(51932u32)
    } else if l == "iso-2022-jp"@ {
        Some(50220u32)
    } else if l == "euc-kr"@ {
        Some(51949u32)
    } else if l == "cp949"@ || l == "ks_c_5601-1987"@ {
        Some(949u32)
    } else if l == "windows-1252"@ {
        Some(1252u32)
    } else if l == "iso-8859-1"@ || l == "latin1"@ {
        Some(28591u32)
    } else if l == "ascii"@ {
        Some(20127u32)
    } else {
        None
    }
}

/// The table lookup after normalisation: labels are lower-cased first, so the
/// lookup is case-insensitive.
pub open spec fn spec_codepage(s: Seq<char>) -> Option<u32> {
    table_lookup(lower_seq(s))
}

/// Looks an encoding label up in the fixed table. The label is lower-cased
/// before the lookup; an unrecognized label yields `None`, which the decode
/// path treats as a hard failure.
pub fn get_codepage(encoding: &str) -> (r: Option<u32>)
    ensures
        r == spec_codepage(encoding@),
{
    let lw = to_lower(encoding);
    let l = lw.as_str();
    if str_eq_check(l, "utf-8") || str_eq_check(l, "utf8") {
        Some(65001)
    } else if str_eq_check(l, "utf-16le") {
        Some(1200)
    } else if str_eq_check(l, "utf-16be") {
        Some(1201)
    } else if str_eq_check(l, "gbk") || str_eq_check(l, "gb2312") || str_eq_check(l, "cp936") {
        Some(936)
    } else if str_eq_check(l, "gb18030") {
        Some(54936)
    } else if str_eq_check(l, "big5") || str_eq_check(l, "cp950") {
        Some(950)
    } else if str_eq_check(l, "shift-jis") || str_eq_check(l, "shift_jis") || str_eq_check(
        l,
        "sjis",
    ) || str_eq_check(l, "cp932") {
        Some(932)
    } else if str_eq_check(l, "euc-jp") {
        Some(51932)
    } else if str_eq_check(l, "iso-2022-jp") {
        Some(50220)
    } else if str_eq_check(l, "euc-kr") {
        Some(51949)
    } else if str_eq_check(l, "cp949") || str_eq_check(l, "ks_c_5601-1987") {
        Some(949)
    } else if str_eq_check(l, "windows-1252") {
        Some(1252)
    } else if str_eq_check(l, "iso-8859-1") || str_eq_check(l, "latin1") {
        Some(28591)
    } else if str_eq_check(l, "ascii") {
        Some(20127)
    } else {
        None
    }
}

/// The table lookup is case-insensitive: any two labels with the same ASCII
/// lower-casing resolve to the same entry.
pub proof fn lemma_lookup_case_insensitive(a: Seq<char>, b: Seq<char>)
    requires
        lower_seq(a) == lower_seq(b),
    ensures
        spec_codepage(a) == spec_codepage(b),
{
}

/// The label the substitute platform decoder is driven by, for each codepage
/// of the table.
pub open spec fn spec_codepage_label(cp: u32) -> Option<Seq<char>> {
    if cp == 65001 {
        Some("utf-8"@)
    } else if cp == 1200 {
        Some("utf-16le"@)
    } else if cp == 1201 {
        Some("utf-16be"@)
    } else if cp == 936 {
        Some("gbk"@)
    } else if cp == 54936 {
        Some("gb18030"@)
    } else if cp == 950 {
        Some("big5"@)
    } else if cp == 932 {
        Some("shift_jis"@)
    } else if cp == 51932 {
        Some("euc-jp"@)
    } else if cp == 50220 {
        Some("iso-2022-jp"@)
    } else if cp == 51949 {
        Some("euc-kr"@)
    } else if cp == 949 {
        Some("windows-949"@)
    } else if cp == 1252 {
        Some("windows-1252"@)
    } else if cp == 28591 {
        Some("iso-8859-1"@)
    } else if cp == 20127 {
        Some("ascii"@)
    } else {
        None
    }
}

/// Maps a codepage of the table to the label that drives the platform
/// decoder; codepages outside the table have no label.
pub fn codepage_label(cp: u32) -> (r: Option<&'static str>)
    ensures
        match r {
            Some(l) => spec_codepage_label(cp) == Some(l@),
            None => spec_codepage_label(cp) is None,
        },
{
    if cp == 65001 {
        Some("utf-8")
    } else if cp == 1200 {
        Some("utf-16le")
    } else if cp == 1201 {
        Some("utf-16be")
    } else if cp == 936 {
        Some("gbk")
    } else if cp == 54936 {
        Some("gb18030")
    } else if cp == 950 {
        Some("big5")
    } else if cp == 932 {
        Some("shift_jis")
    } else if cp == 51932 {
        Some("euc-jp")
    } else if cp == 50220 {
        Some("iso-2022-jp")
    } else if cp == 51949 {
        Some("euc-kr")
    } else if cp == 949 {
        Some("windows-949")
    } else if cp == 1252 {
        Some("windows-1252")
    } else if cp == 28591 {
        Some("iso-8859-1")
    } else if cp == 20127 {
        Some("ascii")
    } else {
        None
    }
}

/// Every codepage the table can hand out has a driving label for the
/// platform decoder.
pub proof fn lemma_table_codepage_has_label(l: Seq<char>)
    ensures
        spec_codepage(l) matches Some(cp) ==> spec_codepage_label(cp) is Some,
{
}

} // verus!
