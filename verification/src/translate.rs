//! Translation-language codes and the translation request/response logic.
//!
//! A code is normalized (uppercased, `_` mapped to `-`) and then checked
//! against two fixed allow-lists: the source set, and the target set, which
//! adds regional variants. A regional variant supplied as a source is a
//! distinct error from an unknown code.

use vstd::prelude::*;

use crate::error::Error;
use crate::text::{chars_to_string, str_chars, str_eq, trim_spec, trim_str};

verus! {

/// Normalization of one character: `_` becomes `-`, ASCII lowercase becomes
/// uppercase, everything else is unchanged.
pub open spec fn norm_char(c: char) -> char {
    match c {
        '_' => '-',
        'a' => 'A',
        'b' => 'B',
        'c' => 'C',
        'd' => 'D',
        'e' => 'E',
        'f' => 'F',
        'g' => 'G',
        'h' => 'H',
        'i' => 'I',
        'j' => 'J',
        'k' => 'K',
        'l' => 'L',
        'm' => 'M',
        'n' => 'N',
        'o' => 'O',
        'p' => 'P',
        'q' => 'Q',
        'r' => 'R',
        's' => 'S',
        't' => 'T',
        'u' => 'U',
        'v' => 'V',
        'w' => 'W',
        'x' => 'X',
        'y' => 'Y',
        'z' => 'Z',
        _ => c,
    }
}

/// A whole code, normalized character by character.
pub open spec fn normalized(s: Seq<char>) -> Seq<char> {
    s.map_values(|c: char| norm_char(c))
}

/// Runtime normalization of one character.
fn normalize_char(c: char) -> (r: char)
    ensures
        r == norm_char(c),
{
    match c {
        '_' => '-',
        'a' => 'A',
        'b' => 'B',
        'c' => 'C',
        'd' => 'D',
        'e' => 'E',
        'f' => 'F',
        'g' => 'G',
        'h' => 'H',
        'i' => 'I',
        'j' => 'J',
        'k' => 'K',
        'l' => 'L',
        'm' => 'M',
        'n' => 'N',
        'o' => 'O',
        'p' => 'P',
        'q' => 'Q',
        'r' => 'R',
        's' => 'S',
        't' => 'T',
        'u' => 'U',
        'v' => 'V',
        'w' => 'W',
        'x' => 'X',
        'y' => 'Y',
        'z' => 'Z',
        _ => c,
    }
}

/// Normalizes a code for matching against the allow-lists.
pub fn normalize_code(code: &str) -> (r: String)
    ensures
        r@ == normalized(code@),
{
    let cs = str_chars(code);
    let mut out: Vec<char> = Vec::new();
    let mut i: usize = 0;
    while i < cs.len()
        invariant
            i <= cs.len(),
            cs@ == code@,
            out@ == normalized(code@.take(i as int)),
        decreases cs.len() - i,
    {
        out.push(normalize_char(cs[i]));
        proof {
            assert(normalized(code@.take(i + 1 as int)) =~= normalized(
                code@.take(i as int),
            ).push(norm_char(code@[i as int])));
        }
        i = i + 1;
    }
    proof {
        assert(code@.take(cs@.len() as int) =~= code@);
    }
    chars_to_string(&out)
}

/// The fixed source allow-list: the codes the translation service accepts
/// as an explicit source language. No regional variants.
pub open spec fn is_source_code(s: Seq<char>) -> bool {
    ||| s == "AR"@
    ||| s == "BG"@
    ||| s == "CS"@
    ||| s == "DA"@
    ||| s == "DE"@
    ||| s == "EL"@
    ||| s == "EN"@
    ||| s == "ES"@
    ||| s == "ET"@
    ||| s == "FI"@
    ||| s == "FR"@
    ||| s == "HE"@
    ||| s == "HU"@
    ||| s == "ID"@
    ||| s == "IT"@
    ||| s == "JA"@
    ||| s == "KO"@
    ||| s == "LT"@
    ||| s == "LV"@
    ||| s == "NB"@
    ||| s == "NL"@
    ||| s == "PL"@
    ||| s == "PT"@
    ||| s == "RO"@
    ||| s == "RU"@
    ||| s == "SK"@
    ||| s == "SL"@
    ||| s == "SV"@
    ||| s == "TH"@
    ||| s == "TR"@
    ||| s == "UK"@
    ||| s == "VI"@
    ||| s == "ZH"@
}

/// The regional variants the translation service accepts only as a target.
pub open spec fn is_target_only_code(s: Seq<char>) -> bool {
    ||| s == "EN-GB"@
    ||| s == "EN-US"@
    ||| s == "ES-419"@
    ||| s == "PT-BR"@
    ||| s == "PT-PT"@
    ||| s == "ZH-HANS"@
    ||| s == "ZH-HANT"@
}

/// The target allow-list: every source code plus the regional variants.
pub open spec fn is_target_code(s: Seq<char>) -> bool {
    is_source_code(s) || is_target_only_code(s)
}

/// Runtime membership test for the source set.
fn in_source_set(s: &String) -> (r: bool)
    ensures
        r == is_source_code(s@),
{
    str_eq(s.as_str(), "AR") || str_eq(s.as_str(), "BG") || str_eq(s.as_str(), "CS") || str_eq(
        s.as_str(),
        "DA",
    ) || str_eq(s.as_str(), "DE") || str_eq(s.as_str(), "EL") || str_eq(s.as_str(), "EN") || str_eq(
        s.as_str(),
        "ES",
    ) || str_eq(s.as_str(), "ET") || str_eq(s.as_str(), "FI") || str_eq(s.as_str(), "FR") || str_eq(
        s.as_str(),
        "HE",
    ) || str_eq(s.as_str(), "HU") || str_eq(s.as_str(), "ID") || str_eq(s.as_str(), "IT") || str_eq(
        s.as_str(),
        "JA",
    ) || str_eq(s.as_str(), "KO") || str_eq(s.as_str(), "LT") || str_eq(s.as_str(), "LV") || str_eq(
        s.as_str(),
        "NB",
    ) || str_eq(s.as_str(), "NL") || str_eq(s.as_str(), "PL") || str_eq(s.as_str(), "PT") || str_eq(
        s.as_str(),
        "RO",
    ) || str_eq(s.as_str(), "RU") || str_eq(s.as_str(), "SK") || str_eq(s.as_str(), "SL") || str_eq(
        s.as_str(),
        "SV",
    ) || str_eq(s.as_str(), "TH") || str_eq(s.as_str(), "TR") || str_eq(s.as_str(), "UK") || str_eq(
        s.as_str(),
        "VI",
    ) || str_eq(s.as_str(), "ZH")
}

/// Runtime membership test for the target-only regional variants.
fn in_target_only_set(s: &String) -> (r: bool)
    ensures
        r == is_target_only_code(s@),
{
    str_eq(s.as_str(), "EN-GB") || str_eq(s.as_str(), "EN-US") || str_eq(s.as_str(), "ES-419")
        || str_eq(s.as_str(), "PT-BR") || str_eq(s.as_str(), "PT-PT") || str_eq(
        s.as_str(),
        "ZH-HANS",
    ) || str_eq(s.as_str(), "ZH-HANT")
}

/// Validates a source-language code: normalizes it, then requires membership
/// in the source set. A target-only regional variant yields its own error.
pub fn deepl_source(code: &str) -> (r: Result<String, Error>)
    ensures
        ({
            let n = normalized(code@);
            match r {
                Ok(s) => s@ == n && is_source_code(n),
                Err(Error::TargetOnlySourceCode(s)) => s@ == n && is_target_only_code(n),
                Err(Error::UnsupportedSourceCode(s)) => s@ == n && !is_source_code(n)
                    && !is_target_only_code(n),
                Err(_) => false,
            }
        }),
        is_source_code(normalized(code@)) ==> r is Ok,
{
    let up = normalize_code(code);
    if in_source_set(&up) {
        Ok(up)
    } else if in_target_only_set(&up) {
        Err(Error::TargetOnlySourceCode(up))
    } else {
        Err(Error::UnsupportedSourceCode(up))
    }
}

/// Validates a target-language code: normalizes it, then requires membership
/// in the target set.
pub fn deepl_target(code: &str) -> (r: Result<String, Error>)
    ensures
        ({
            let n = normalized(code@);
            match r {
                Ok(s) => s@ == n && is_target_code(n),
                Err(Error::UnsupportedTargetCode(s)) => s@ == n && !is_target_code(n),
                Err(_) => false,
            }
        }),
        is_target_code(normalized(code@)) ==> r is Ok,
{
    let up = normalize_code(code);
    if in_source_set(&up) || in_target_only_set(&up) {
        Ok(up)
    } else {
        Err(Error::UnsupportedTargetCode(up))
    }
}

/// One translation returned by the service: the translated text and, when
/// the service detected the source language, its code.
pub struct DeeplTranslation {
    pub text: String,
    pub detected_source_language: Option<String>,
}

/// The endpoint for one translation request under the configured base URL.
pub fn translate_url(base_url: &str) -> (r: String)
    ensures
        r@ == base_url@ + "/v2/translate"@,
{
    let mut u = String::from_str(base_url);
    u.append("/v2/translate");
    u
}

/// The form fields of one translation request, in order: the credential,
/// the text, the target language, and the source language when supplied.
pub fn build_translate_form(api_key: &str, text: &str, target: &str, source: Option<&str>) -> (r:
    Vec<(String, String)>)
    ensures
        r@.len() == (if source is Some {
            4int
        } else {
            3int
        }),
        r@[0].0@ == "auth_key"@ && r@[0].1@ == api_key@,
        r@[1].0@ == "text"@ && r@[1].1@ == text@,
        r@[2].0@ == "target_lang"@ && r@[2].1@ == target@,
        source matches Some(s) ==> r@[3].0@ == "source_lang"@ && r@[3].1@ == s@,
{
    let mut form: Vec<(String, String)> = Vec::new();
    form.push((String::from_str("auth_key"), String::from_str(api_key)));
    form.push((String::from_str("text"), String::from_str(text)));
    form.push((String::from_str("target_lang"), String::from_str(target)));
    if let Some(s) = source {
        form.push((String::from_str("source_lang"), String::from_str(s)));
    }
    form
}

/// The text and detected source taken from a parsed response: only the
/// first translation counts, and its text is trimmed. A response without
/// any translation is an error.
pub fn first_translation(translations: Vec<DeeplTranslation>) -> (r: Result<
    (String, Option<String>),
    Error,
>)
    ensures
        match r {
            Ok(td) => translations@.len() > 0 && td.0@ == trim_spec(translations@[0].text@)
                && (match (td.1, translations@[0].detected_source_language) {
                (Some(d), Some(o)) => d@ == o@,
                (None, None) => true,
                _ => false,
            }),
            Err(Error::NoTranslation) => translations@.len() == 0,
            Err(_) => false,
        },
{
    if translations.len() == 0 {
        return Err(Error::NoTranslation);
    }
    let first = &translations[0];
    let text = String::from_str(trim_str(first.text.as_str()));
    let detected = match &first.detected_source_language {
        Some(d) => Some(d.clone()),
        None => None,
    };
    Ok((text, detected))
}

/// Normalization is idempotent: validating an already-validated code leaves
/// it unchanged, so `deepl_source` and `deepl_target` accept their own
/// output and return it verbatim.
pub proof fn lemma_normalized_idempotent(s: Seq<char>)
    ensures
        normalized(normalized(s)) == normalized(s),
{
    assert forall|c: char| #[trigger] norm_char(norm_char(c)) == norm_char(c) by {}
    assert(normalized(normalized(s)) =~= normalized(s));
}

/// Validation is case- and separator-insensitive: two codes whose
/// characters normalize alike are the same code after normalization, so
/// `deepl_source` and `deepl_target` treat them identically.
pub proof fn lemma_normalization_insensitive(s: Seq<char>, t: Seq<char>)
    requires
        s.len() == t.len(),
        forall|i: int| 0 <= i < s.len() ==> norm_char(s[i]) == norm_char(t[i]),
    ensures
        normalized(s) == normalized(t),
{
    assert(normalized(s) =~= normalized(t));
}

/// The source set and the target-only regional variants are disjoint, so
/// the mismatch error on `deepl_source` never coincides with the
/// unknown-code error: a target-only code is identifiably its own failure.
pub proof fn lemma_source_target_only_disjoint(s: Seq<char>)
    ensures
        !(is_source_code(s) && is_target_only_code(s)),
{
    reveal_strlit("AR");
    reveal_strlit("BG");
    reveal_strlit("CS");
    reveal_strlit("DA");
    reveal_strlit("DE");
    reveal_strlit("EL");
    reveal_strlit("EN");
    reveal_strlit("ES");
    reveal_strlit("ET");
    reveal_strlit("FI");
    reveal_strlit("FR");
    reveal_strlit("HE");
    reveal_strlit("HU");
    reveal_strlit("ID");
    reveal_strlit("IT");
    reveal_strlit("JA");
    reveal_strlit("KO");
    reveal_strlit("LT");
    reveal_strlit("LV");
    reveal_strlit("NB");
    reveal_strlit("NL");
    reveal_strlit("PL");
    reveal_strlit("PT");
    reveal_strlit("RO");
    reveal_strlit("RU");
    reveal_strlit("SK");
    reveal_strlit("SL");
    reveal_strlit("SV");
    reveal_strlit("TH");
    reveal_strlit("TR");
    reveal_strlit("UK");
    reveal_strlit("VI");
    reveal_strlit("ZH");
    reveal_strlit("EN-GB");
    reveal_strlit("EN-US");
    reveal_strlit("ES-419");
    reveal_strlit("PT-BR");
    reveal_strlit("PT-PT");
    reveal_strlit("ZH-HANS");
    reveal_strlit("ZH-HANT");
    assert("AR"@.len() == 2);
    assert("BG"@.len() == 2);
    assert("CS"@.len() == 2);
    assert("DA"@.len() == 2);
    assert("DE"@.len() == 2);
    assert("EL"@.len() == 2);
    assert("EN"@.len() == 2);
    assert("ES"@.len() == 2);
    assert("ET"@.len() == 2);
    assert("FI"@.len() == 2);
    assert("FR"@.len() == 2);
    assert("HE"@.len() == 2);
    assert("HU"@.len() == 2);
    assert("ID"@.len() == 2);
    assert("IT"@.len() == 2);
    assert("JA"@.len() == 2);
    assert("KO"@.len() == 2);
    assert("LT"@.len() == 2);
    assert("LV"@.len() == 2);
    assert("NB"@.len() == 2);
    assert("NL"@.len() == 2);
    assert("PL"@.len() == 2);
    assert("PT"@.len() == 2);
    assert("RO"@.len() == 2);
    assert("RU"@.len() == 2);
    assert("SK"@.len() == 2);
    assert("SL"@.len() == 2);
    assert("SV"@.len() == 2);
    assert("TH"@.len() == 2);
    assert("TR"@.len() == 2);
    assert("UK"@.len() == 2);
    assert("VI"@.len() == 2);
    assert("ZH"@.len() == 2);
    assert("EN-GB"@.len() == 5);
    assert("EN-US"@.len() == 5);
    assert("ES-419"@.len() == 6);
    assert("PT-BR"@.len() == 5);
    assert("PT-PT"@.len() == 5);
    assert("ZH-HANS"@.len() == 7);
    assert("ZH-HANT"@.len() == 7);
}

} // verus!
