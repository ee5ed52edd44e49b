use trein::error::Error;
use trein::tesseract::{choose_ocr_pack, tesseract_pack_from_deepl_source};
use trein::translate::{deepl_source, deepl_target};

#[test]
fn maps_known_codes() {
    assert_eq!(tesseract_pack_from_deepl_source("EN").unwrap(), "eng");
    assert_eq!(tesseract_pack_from_deepl_source("ZH").unwrap(), "chi_sim");
}

#[test]
fn errors_on_unknown_code() {
    let err = tesseract_pack_from_deepl_source("XX").unwrap_err();
    assert!(err.message().contains("mapping"));
    assert!(matches!(err, Error::NoOcrPackMapping(code) if code == "XX"));
}

#[test]
fn deepl_code_normalization_and_validation() {
    // source
    assert_eq!(deepl_source("en").unwrap(), "EN");
    assert_eq!(deepl_source("zh").unwrap(), "ZH");
    // target-only code should error for source
    assert!(deepl_source("en-gb").is_err());

    // target
    assert_eq!(deepl_target("pl").unwrap(), "PL");
    assert_eq!(deepl_target("zh-hant").unwrap(), "ZH-HANT");
    assert!(deepl_target("xx").is_err());
}

#[test]
fn every_source_code_has_a_nonempty_pack() {
    let cases = [
        ("AR", "ara"),
        ("BG", "bul"),
        ("CS", "ces"),
        ("DA", "dan"),
        ("DE", "deu"),
        ("EL", "ell"),
        ("EN", "eng"),
        ("ES", "spa"),
        ("ET", "est"),
        ("FI", "fin"),
        ("FR", "fra"),
        ("HE", "heb"),
        ("HU", "hun"),
        ("ID", "ind"),
        ("IT", "ita"),
        ("JA", "jpn"),
        ("KO", "kor"),
        ("LT", "lit"),
        ("LV", "lav"),
        ("NB", "nor"),
        ("NL", "nld"),
        ("PL", "pol"),
        ("PT", "por"),
        ("RO", "ron"),
        ("RU", "rus"),
        ("SK", "slk"),
        ("SL", "slv"),
        ("SV", "swe"),
        ("TH", "tha"),
        ("TR", "tur"),
        ("UK", "ukr"),
        ("VI", "vie"),
        ("ZH", "chi_sim"),
    ];
    for (code, pack) in cases {
        let validated = deepl_source(code).unwrap();
        assert_eq!(validated, code);
        let got = tesseract_pack_from_deepl_source(&validated).unwrap();
        assert!(!got.is_empty());
        assert_eq!(got, pack);
    }
}

#[test]
fn target_only_code_gets_a_distinct_source_error() {
    let mismatched = deepl_source("EN_gb").unwrap_err();
    assert!(matches!(mismatched, Error::TargetOnlySourceCode(code) if code == "EN-GB"));
    let unknown = deepl_source("QQ").unwrap_err();
    assert!(matches!(unknown, Error::UnsupportedSourceCode(code) if code == "QQ"));
}

#[test]
fn validation_is_case_and_separator_insensitive_and_idempotent() {
    assert_eq!(deepl_source("en").unwrap(), deepl_source("EN").unwrap());
    assert_eq!(deepl_source("eN").unwrap(), "EN");
    assert_eq!(deepl_target("en_gb").unwrap(), "EN-GB");
    assert_eq!(deepl_target("en-gb").unwrap(), "EN-GB");
    assert_eq!(deepl_target("EN_GB").unwrap(), "EN-GB");

    let once = deepl_source("ja").unwrap();
    let twice = deepl_source(&once).unwrap();
    assert_eq!(twice, once);
    let once = deepl_target("pt_br").unwrap();
    let twice = deepl_target(&once).unwrap();
    assert_eq!(twice, once);
}

#[test]
fn pack_override_wins_over_the_mapping() {
    assert_eq!(choose_ocr_pack(Some("chi_tra"), "EN").unwrap(), "chi_tra");
    assert_eq!(choose_ocr_pack(None, "ZH").unwrap(), "chi_sim");
    assert!(matches!(
        choose_ocr_pack(None, "XX").unwrap_err(),
        Error::NoOcrPackMapping(code) if code == "XX"
    ));
}
