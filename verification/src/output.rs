//! Pure formatting of the final result: the OCR text under a label naming
//! the validated source code and pack, and the translation under a label
//! naming the target code and, when present, the detected source code.

use vstd::prelude::*;

use crate::text::{trim_spec, trim_str};

verus! {

/// The rendered result, exactly as printed.
pub open spec fn render_spec(
    ocr_lang: Seq<char>,
    ocr_text: Seq<char>,
    target: Seq<char>,
    translation: Seq<char>,
    detected_src: Option<Seq<char>>,
) -> Seq<char> {
    let head = "=== OCR (lang: "@ + ocr_lang + ") ===\n"@ + trim_spec(ocr_text) + "\n\n"@;
    let tail = match detected_src {
        Some(d) => "=== Translation \u{2192} "@ + target + " (detected: "@ + d + ") ===\n"@
            + translation + "\n\n"@,
        None => "=== Translation \u{2192} "@ + target + " ===\n"@ + translation + "\n\n"@,
    };
    head + tail
}

/// Renders the two labeled sections. Pure formatting: the only change to
/// any input is that the OCR text is trimmed.
pub fn render_result(
    ocr_lang: &str,
    ocr_text: &str,
    target: &str,
    translation: &str,
    detected_src: Option<&str>,
) -> (r: String)
    ensures
        ({
            let d = match detected_src {
                Some(x) => Some(x@),
                None => None::<Seq<char>>,
            };
            r@ == render_spec(ocr_lang@, ocr_text@, target@, translation@, d)
        }),
{
    let mut s = String::new();
    s.append("=== OCR (lang: ");
    s.append(ocr_lang);
    s.append(") ===\n");
    s.append(trim_str(ocr_text));
    s.append("\n\n");
    match detected_src {
        Some(d) => {
            s.append("=== Translation \u{2192} ");
            s.append(target);
            s.append(" (detected: ");
            s.append(d);
            s.append(") ===\n");
            s.append(translation);
            s.append("\n\n");
            proof {
                assert(s@ =~= render_spec(
                    ocr_lang@,
                    ocr_text@,
                    target@,
                    translation@,
                    Some(d@),
                ));
            }
        },
        None => {
            s.append("=== Translation \u{2192} ");
            s.append(target);
            s.append(" ===\n");
            s.append(translation);
            s.append("\n\n");
            proof {
                assert(s@ =~= render_spec(
                    ocr_lang@,
                    ocr_text@,
                    target@,
                    translation@,
                    None::<Seq<char>>,
                ));
            }
        },
    }
    s
}

/// The label over the OCR section: the validated source code and the pack,
/// joined by a slash.
pub fn ocr_label(src: &str, pack: &str) -> (r: String)
    ensures
        r@ == src@ + " / "@ + pack@,
{
    let mut s = String::from_str(src);
    s.append(" / ");
    s.append(pack);
    proof {
        assert(s@ =~= src@ + " / "@ + pack@);
    }
    s
}

} // verus!
