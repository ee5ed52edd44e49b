//! The failure cases of the pipeline. Every fallible library function
//! reports one of these variants; the caller renders the message and
//! decides how to abort.

use vstd::prelude::*;

verus! {

/// The message reported for each failure, naming the failing stage and,
/// where one exists, the remediation.
pub open spec fn message_spec(e: Error) -> Seq<char> {
    match e {
        Error::TargetOnlySourceCode(code) => "\u{2018}"@ + code@
            + "\u{2019} is a target-only DeepL code. Use the source variant (e.g., EN / PT / ZH) for --source-lang."@,
        Error::UnsupportedSourceCode(code) => "Unsupported DeepL source code: "@ + code@,
        Error::UnsupportedTargetCode(code) => "Unsupported DeepL target code: "@ + code@,
        Error::NoOcrPackMapping(code) => "No Tesseract pack mapping for DeepL source "@ + code@,
        Error::EmptySelection => "No selection geometry received from `slurp`."@,
        Error::NoTextRecognized => "OCR returned no text. Try a larger or clearer selection, or adjust --ocr-lang."@,
        Error::NoTranslation => "No translation in response"@,
        Error::MissingApiKey => "Set your DeepL key via --deepl-api-key, $DEEPL_API_KEY, or a config file at $XDG_CONFIG_HOME/trein/config.toml (or $HOME/.config/trein/config.toml) with a single line: DEEPL_API_KEY=..."@,
        Error::NotWayland => "This tool must run under Wayland (Hyprland). $WAYLAND_DISPLAY is not set."@,
    }
}

/// A failure of one pipeline stage. Variants carrying a `String` hold the
/// offending value (a normalized language code).
#[derive(Debug)]
pub enum Error {
    /// The code is valid only as a translation target, not as a source.
    TargetOnlySourceCode(String),
    /// The code is not in the source allow-list at all.
    UnsupportedSourceCode(String),
    /// The code is not in the target allow-list.
    UnsupportedTargetCode(String),
    /// A validated source code has no OCR pack mapping.
    NoOcrPackMapping(String),
    /// The region selector produced no geometry.
    EmptySelection,
    /// OCR produced no text after normalization.
    NoTextRecognized,
    /// The translation response held no translation.
    NoTranslation,
    /// No credential was supplied by flag, environment, or config file.
    MissingApiKey,
    /// The session is not running under the expected display protocol.
    NotWayland,
}

impl Error {
    /// The human-readable message for this failure.
    pub fn message(&self) -> (r: String)
        ensures
            r@ == message_spec(*self),
    {
        match self {
            Error::TargetOnlySourceCode(code) => {
                let mut m = String::from_str("\u{2018}");
                m.append(code.as_str());
                m.append(
                    "\u{2019} is a target-only DeepL code. Use the source variant (e.g., EN / PT / ZH) for --source-lang.",
                );
                m
            },
            Error::UnsupportedSourceCode(code) => {
                let mut m = String::from_str("Unsupported DeepL source code: ");
                m.append(code.as_str());
                m
            },
            Error::UnsupportedTargetCode(code) => {
                let mut m = String::from_str("Unsupported DeepL target code: ");
                m.append(code.as_str());
                m
            },
            Error::NoOcrPackMapping(code) => {
                let mut m = String::from_str("No Tesseract pack mapping for DeepL source ");
                m.append(code.as_str());
                m
            },
            Error::EmptySelection => String::from_str(
                "No selection geometry received from `slurp`.",
            ),
            Error::NoTextRecognized => String::from_str(
                "OCR returned no text. Try a larger or clearer selection, or adjust --ocr-lang.",
            ),
            Error::NoTranslation => String::from_str("No translation in response"),
            Error::MissingApiKey => String::from_str(
                "Set your DeepL key via --deepl-api-key, $DEEPL_API_KEY, or a config file at $XDG_CONFIG_HOME/trein/config.toml (or $HOME/.config/trein/config.toml) with a single line: DEEPL_API_KEY=...",
            ),
            Error::NotWayland => String::from_str(
                "This tool must run under Wayland (Hyprland). $WAYLAND_DISPLAY is not set.",
            ),
        }
    }
}

} // verus!
