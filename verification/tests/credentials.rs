use trein::config::{deepl_base_url, resolve_deepl_api_key};
use trein::error::Error;

#[test]
fn cli_wins_over_env_and_config() {
    let got = resolve_deepl_api_key(
        Some("CLI_VAL"),
        Some("ENV_VAL"),
        Some("DEEPL_API_KEY=FILE_VAL"),
        Some("HOME_FILE_VAL"),
    )
    .unwrap();
    assert_eq!(got, "CLI_VAL");
}

#[test]
fn env_used_when_cli_missing_or_empty() {
    // Empty CLI should be ignored
    let got = resolve_deepl_api_key(Some(""), Some("ENV_KEY"), None, None).unwrap();
    assert_eq!(got, "ENV_KEY");

    // Or when CLI is absent
    let got2 = resolve_deepl_api_key(None, Some("ENV_KEY"), None, None).unwrap();
    assert_eq!(got2, "ENV_KEY");
}

#[test]
fn whitespace_only_env_is_ignored_then_xdg_config_is_used_raw_value() {
    // Raw value (no DEEPL_API_KEY= prefix)
    let got = resolve_deepl_api_key(None, Some("   "), Some("FILE_KEY"), None).unwrap();
    assert_eq!(got, "FILE_KEY");
}

#[test]
fn home_config_with_prefix_is_read() {
    let got = resolve_deepl_api_key(None, None, None, Some("DEEPL_API_KEY=ABC123\n")).unwrap();
    assert_eq!(got, "ABC123");
}

#[test]
fn empty_config_values_fall_through() {
    // A prefixed line with nothing after the equals sign counts as absent,
    // so the next candidate is read.
    let got = resolve_deepl_api_key(
        None,
        None,
        Some("DEEPL_API_KEY=   "),
        Some("HOME_VAL"),
    )
    .unwrap();
    assert_eq!(got, "HOME_VAL");
    // A blank file falls through too.
    let got2 = resolve_deepl_api_key(None, None, Some("  \n"), Some("HOME_VAL")).unwrap();
    assert_eq!(got2, "HOME_VAL");
}

#[test]
fn errors_when_no_sources_available() {
    let err = resolve_deepl_api_key(None, None, None, None).unwrap_err();
    let msg = err.message();
    assert!(
        msg.contains("Set your DeepL key via --deepl-api-key")
            && msg.contains("$XDG_CONFIG_HOME/trein/config.toml")
            && msg.contains("$HOME/.config/trein/config.toml"),
        "unexpected error message: {msg}"
    );
    assert!(matches!(err, Error::MissingApiKey));
    let err2 = resolve_deepl_api_key(Some(""), Some("  "), None, None).unwrap_err();
    assert!(matches!(err2, Error::MissingApiKey));
}

#[test]
fn deepl_base_url_default_and_override() {
    assert_eq!(deepl_base_url(None), "https://api-free.deepl.com");
    assert_eq!(deepl_base_url(Some("https://example.invalid")), "https://example.invalid");
}
