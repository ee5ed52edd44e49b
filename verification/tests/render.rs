use trein::output::{ocr_label, render_result};

#[test]
fn render_with_detected_source() {
    let out = render_result("EN / eng", "hello", "FR", "bonjour", Some("EN"));
    assert!(out.contains("=== OCR (lang: EN / eng) ==="));
    assert!(out.contains("hello"));
    assert!(out.contains("Translation \u{2192} FR (detected: EN)"));
    assert!(out.contains("bonjour"));
}

#[test]
fn render_without_detected_source() {
    let out = render_result("ZH / chi_sim", "\u{4F60}\u{597D}", "EN-GB", "hello", None);
    assert!(out.contains("=== OCR (lang: ZH / chi_sim) ==="));
    assert!(out.contains("Translation \u{2192} EN-GB ==="));
    assert!(out.contains("hello"));
}

#[test]
fn render_is_exact_and_trims_the_ocr_text() {
    let out = render_result("EN / eng", " hello \n", "FR", "bonjour", Some("EN"));
    assert_eq!(
        out,
        "=== OCR (lang: EN / eng) ===\nhello\n\n\
         === Translation \u{2192} FR (detected: EN) ===\nbonjour\n\n"
    );
    let out = render_result("EN / eng", "hi", "DE", "hallo", None);
    assert_eq!(
        out,
        "=== OCR (lang: EN / eng) ===\nhi\n\n=== Translation \u{2192} DE ===\nhallo\n\n"
    );
}

#[test]
fn label_joins_source_and_pack() {
    assert_eq!(ocr_label("EN", "eng"), "EN / eng");
}
