//! The run's options, as plain values. Parsing the command line fills this
//! struct; the defaults here are the CLI's documented defaults.

use vstd::prelude::*;

verus! {

/// One run's options: the language codes as supplied (not yet validated),
/// whether to copy the translation to the clipboard, an optional override
/// for the OCR pack, and the optional CLI-supplied credential.
pub struct Args {
    pub source_lang: String,
    pub target_lang: String,
    pub copy: bool,
    pub ocr_lang: Option<String>,
    pub deepl_api_key: Option<String>,
}

impl Default for Args {
    /// The defaults when no flag is given: a generic English code for both
    /// source and target, no copy, no overrides.
    fn default() -> (r: Args)
        ensures
            r.source_lang@ == "EN"@,
            r.target_lang@ == "EN"@,
            !r.copy,
            r.ocr_lang is None,
            r.deepl_api_key is None,
    {
        Args {
            source_lang: String::from_str("EN"),
            target_lang: String::from_str("EN"),
            copy: false,
            ocr_lang: None,
            deepl_api_key: None,
        }
    }
}

} // verus!
