//! Mapping from a validated source-language code to the OCR engine's
//! language-pack identifier. Every code in the source set has exactly one
//! pack; anything else is rejected.

use vstd::prelude::*;

use crate::error::Error;
use crate::text::str_eq;
use crate::translate::is_source_code;

verus! {

/// The pack identifier for a source code, or the empty sequence for a code
/// outside the source set.
pub open spec fn pack_of(s: Seq<char>) -> Seq<char> {
    if s == "AR"@ {
        "ara"@
    } else if s == "BG"@ {
        "bul"@
    } else if s == "CS"@ {
        "ces"@
    } else if s == "DA"@ {
        "dan"@
    } else if s == "DE"@ {
        "deu"@
    } else if s == "EL"@ {
        "ell"@
    } else if s == "EN"@ {
        "eng"@
    } else if s == "ES"@ {
        "spa"@
    } else if s == "ET"@ {
        "est"@
    } else if s == "FI"@ {
        "fin"@
    } else if s == "FR"@ {
        "fra"@
    } else if s == "HE"@ {
        "heb"@
    } else if s == "HU"@ {
        "hun"@
    } else if s == "ID"@ {
        "ind"@
    } else if s == "IT"@ {
        "ita"@
    } else if s == "JA"@ {
        "jpn"@
    } else if s == "KO"@ {
        "kor"@
    } else if s == "LT"@ {
        "lit"@
    } else if s == "LV"@ {
        "lav"@
    } else if s == "NB"@ {
        "nor"@
    } else if s == "NL"@ {
        "nld"@
    } else if s == "PL"@ {
        "pol"@
    } else if s == "PT"@ {
        "por"@
    } else if s == "RO"@ {
        "ron"@
    } else if s == "RU"@ {
        "rus"@
    } else if s == "SK"@ {
        "slk"@
    } else if s == "SL"@ {
        "slv"@
    } else if s == "SV"@ {
        "swe"@
    } else if s == "TH"@ {
        "tha"@
    } else if s == "TR"@ {
        "tur"@
    } else if s == "UK"@ {
        "ukr"@
    } else if s == "VI"@ {
        "vie"@
    } else if s == "ZH"@ {
        "chi_sim"@
    } else {
        Seq::<char>::empty()
    }
}

/// Maps a validated source code to its OCR pack identifier. Total over the
/// source set; any other string is an internal-consistency error.
pub fn tesseract_pack_from_deepl_source(src: &str) -> (r: Result<String, Error>)
    ensures
        match r {
            Ok(p) => is_source_code(src@) && p@ == pack_of(src@),
            Err(Error::NoOcrPackMapping(s)) => s@ == src@ && !is_source_code(src@),
            Err(_) => false,
        },
        is_source_code(src@) ==> r is Ok,
{
    if str_eq(src, "AR") {
        Ok(String::from_str("ara"))
    } else if str_eq(src, "BG") {
        Ok(String::from_str("bul"))
    } else if str_eq(src, "CS") {
        Ok(String::from_str("ces"))
    } else if str_eq(src, "DA") {
        Ok(String::from_str("dan"))
    } else if str_eq(src, "DE") {
        Ok(String::from_str("deu"))
    } else if str_eq(src, "EL") {
        Ok(String::from_str("ell"))
    } else if str_eq(src, "EN") {
        Ok(String::from_str("eng"))
    } else if str_eq(src, "ES") {
        Ok(String::from_str("spa"))
    } else if str_eq(src, "ET") {
        Ok(String::from_str("est"))
    } else if str_eq(src, "FI") {
        Ok(String::from_str("fin"))
    } else if str_eq(src, "FR") {
        Ok(String::from_str("fra"))
    } else if str_eq(src, "HE") {
        Ok(String::from_str("heb"))
    } else if str_eq(src, "HU") {
        Ok(String::from_str("hun"))
    } else if str_eq(src, "ID") {
        Ok(String::from_str("ind"))
    } else if str_eq(src, "IT") {
        Ok(String::from_str("ita"))
    } else if str_eq(src, "JA") {
        Ok(String::from_str("jpn"))
    } else if str_eq(src, "KO") {
        Ok(String::from_str("kor"))
    } else if str_eq(src, "LT") {
        Ok(String::from_str("lit"))
    } else if str_eq(src, "LV") {
        Ok(String::from_str("lav"))
    } else if str_eq(src, "NB") {
        Ok(String::from_str("nor"))
    } else if str_eq(src, "NL") {
        Ok(String::from_str("nld"))
    } else if str_eq(src, "PL") {
        Ok(String::from_str("pol"))
    } else if str_eq(src, "PT") {
        Ok(String::from_str("por"))
    } else if str_eq(src, "RO") {
        Ok(String::from_str("ron"))
    } else if str_eq(src, "RU") {
        Ok(String::from_str("rus"))
    } else if str_eq(src, "SK") {
        Ok(String::from_str("slk"))
    } else if str_eq(src, "SL") {
        Ok(String::from_str("slv"))
    } else if str_eq(src, "SV") {
        Ok(String::from_str("swe"))
    } else if str_eq(src, "TH") {
        Ok(String::from_str("tha"))
    } else if str_eq(src, "TR") {
        Ok(String::from_str("tur"))
    } else if str_eq(src, "UK") {
        Ok(String::from_str("ukr"))
    } else if str_eq(src, "VI") {
        Ok(String::from_str("vie"))
    } else if str_eq(src, "ZH") {
        Ok(String::from_str("chi_sim"))
    } else {
        Err(Error::NoOcrPackMapping(String::from_str(src)))
    }
}

/// The mapping is total over the source set and never yields an empty pack
/// identifier: every one of the defined source codes has a non-empty,
/// fixed pack.
pub proof fn lemma_pack_total_and_nonempty(s: Seq<char>)
    ensures
        is_source_code(s) ==> pack_of(s).len() > 0,
{
    reveal_strlit("ara");
    reveal_strlit("bul");
    reveal_strlit("ces");
    reveal_strlit("dan");
    reveal_strlit("deu");
    reveal_strlit("ell");
    reveal_strlit("eng");
    reveal_strlit("spa");
    reveal_strlit("est");
    reveal_strlit("fin");
    reveal_strlit("fra");
    reveal_strlit("heb");
    reveal_strlit("hun");
    reveal_strlit("ind");
    reveal_strlit("ita");
    reveal_strlit("jpn");
    reveal_strlit("kor");
    reveal_strlit("lit");
    reveal_strlit("lav");
    reveal_strlit("nor");
    reveal_strlit("nld");
    reveal_strlit("pol");
    reveal_strlit("por");
    reveal_strlit("ron");
    reveal_strlit("rus");
    reveal_strlit("slk");
    reveal_strlit("slv");
    reveal_strlit("swe");
    reveal_strlit("tha");
    reveal_strlit("tur");
    reveal_strlit("ukr");
    reveal_strlit("vie");
    reveal_strlit("chi_sim");
}

/// The OCR pack used for a run: the caller-supplied override when present,
/// otherwise the pack mapped from the validated source code.
pub fn choose_ocr_pack(ocr_lang: Option<&str>, src: &str) -> (r: Result<String, Error>)
    ensures
        match ocr_lang {
            Some(p) => r matches Ok(q) && q@ == p@,
            None => match r {
                Ok(p) => is_source_code(src@) && p@ == pack_of(src@),
                Err(Error::NoOcrPackMapping(s)) => s@ == src@ && !is_source_code(src@),
                Err(_) => false,
            },
        },
{
    match ocr_lang {
        Some(p) => Ok(String::from_str(p)),
        None => tesseract_pack_from_deepl_source(src),
    }
}

} // verus!
