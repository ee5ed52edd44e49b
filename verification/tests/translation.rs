use trein::error::Error;
use trein::translate::{build_translate_form, first_translation, translate_url, DeeplTranslation};

#[test]
fn request_goes_to_the_translate_path() {
    assert_eq!(
        translate_url("https://api-free.deepl.com"),
        "https://api-free.deepl.com/v2/translate"
    );
    assert_eq!(translate_url("https://example.invalid"), "https://example.invalid/v2/translate");
}

#[test]
fn form_holds_credential_text_target_and_source() {
    let form = build_translate_form("dummy-key", "Hello", "FR", Some("EN"));
    assert_eq!(form.len(), 4);
    assert_eq!(form[0], ("auth_key".to_string(), "dummy-key".to_string()));
    assert_eq!(form[1], ("text".to_string(), "Hello".to_string()));
    assert_eq!(form[2], ("target_lang".to_string(), "FR".to_string()));
    assert_eq!(form[3], ("source_lang".to_string(), "EN".to_string()));

    let form = build_translate_form("k", "t", "DE", None);
    assert_eq!(form.len(), 3);
}

#[test]
fn first_translation_is_used_and_trimmed() {
    // The parsed shape of {"translations":[{"text":"Bonjour",
    // "detected_source_language":"EN"}]} for a "Hello" -> FR request.
    let parsed = vec![DeeplTranslation {
        text: "Bonjour".to_string(),
        detected_source_language: Some("EN".to_string()),
    }];
    let (text, detected) = first_translation(parsed).unwrap();
    assert_eq!(text, "Bonjour");
    assert_eq!(detected.as_deref(), Some("EN"));

    let parsed = vec![
        DeeplTranslation { text: "  Bonjour \n".to_string(), detected_source_language: None },
        DeeplTranslation {
            text: "ignored".to_string(),
            detected_source_language: Some("XX".to_string()),
        },
    ];
    let (text, detected) = first_translation(parsed).unwrap();
    assert_eq!(text, "Bonjour");
    assert_eq!(detected, None);
}

#[test]
fn empty_translation_list_is_an_error() {
    let err = first_translation(Vec::new()).unwrap_err();
    assert!(matches!(err, Error::NoTranslation));
}
