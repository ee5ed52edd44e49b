use trein::cli::Args;
use trein::error::Error;
use trein::wayland::require_wayland;

#[test]
fn wayland_display_is_a_hard_precondition() {
    assert!(require_wayland(Some("wayland-1")).is_ok());
    assert!(matches!(require_wayland(None).unwrap_err(), Error::NotWayland));
}

#[test]
fn default_args_use_english_and_copy_nothing() {
    let args = Args::default();
    assert_eq!(args.source_lang, "EN");
    assert_eq!(args.target_lang, "EN");
    assert!(!args.copy);
    assert!(args.ocr_lang.is_none());
    assert!(args.deepl_api_key.is_none());
}
