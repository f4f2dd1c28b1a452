use audio_detector::language::Language;
use audio_detector::language::detect_language_from_country;
use audio_detector::models::Artist;
use audio_detector::models::Track;

#[test]
fn test_detect_english_countries() {
    assert_eq!(
        detect_language_from_country(Some("US")).language,
        Language::English
    );
    assert_eq!(
        detect_language_from_country(Some("GB")).language,
        Language::English
    );
    assert_eq!(
        detect_language_from_country(Some("AU")).language,
        Language::English
    );
}

#[test]
fn test_detect_spanish_countries() {
    assert_eq!(
        detect_language_from_country(Some("ES")).language,
        Language::Spanish
    );
    assert_eq!(
        detect_language_from_country(Some("MX")).language,
        Language::Spanish
    );
    assert_eq!(
        detect_language_from_country(Some("AR")).language,
        Language::Spanish
    );
}

#[test]
fn test_detect_asian_countries() {
    assert_eq!(
        detect_language_from_country(Some("JP")).language,
        Language::Japanese
    );
    assert_eq!(
        detect_language_from_country(Some("KR")).language,
        Language::Korean
    );
    assert_eq!(
        detect_language_from_country(Some("VN")).language,
        Language::Vietnamese
    );
    assert_eq!(
        detect_language_from_country(Some("CN")).language,
        Language::Chinese
    );
}

#[test]
fn test_detect_european_countries() {
    assert_eq!(
        detect_language_from_country(Some("FR")).language,
        Language::French
    );
    assert_eq!(
        detect_language_from_country(Some("DE")).language,
        Language::German
    );
    assert_eq!(
        detect_language_from_country(Some("IT")).language,
        Language::Italian
    );
    assert_eq!(
        detect_language_from_country(Some("PT")).language,
        Language::Portuguese
    );
}

#[test]
fn test_detect_middle_eastern_countries() {
    assert_eq!(
        detect_language_from_country(Some("SA")).language,
        Language::Arabic
    );
    assert_eq!(
        detect_language_from_country(Some("TR")).language,
        Language::Turkish
    );
}

#[test]
fn test_case_insensitive() {
    assert_eq!(
        detect_language_from_country(Some("us")).language,
        Language::English
    );
    assert_eq!(
        detect_language_from_country(Some("jp")).language,
        Language::Japanese
    );
}

#[test]
fn test_unknown_country() {
    assert_eq!(
        detect_language_from_country(Some("XX")).language,
        Language::Unknown
    );
}

#[test]
fn test_none_country() {
    assert_eq!(
        detect_language_from_country(None).language,
        Language::Unknown
    );
}

#[test]
fn test_language_code() {
    assert_eq!(Language::English.code(), "en");
    assert_eq!(Language::Spanish.code(), "es");
    assert_eq!(Language::Vietnamese.code(), "vi");
    assert_eq!(Language::Japanese.code(), "ja");
}

#[test]
fn test_language_str() {
    assert_eq!(Language::English.as_str(), "English");
    assert_eq!(Language::Vietnamese.as_str(), "Vietnamese");
    assert_eq!(Language::Unknown.as_str(), "Unknown");
}

#[test]
fn test_country_code_preservation() {
    let result = detect_language_from_country(Some("US"));
    assert_eq!(result.country_code, Some("US".to_string()));
    assert_eq!(result.language, Language::English);
}

#[test]
fn test_none_country_echoes_nothing() {
    let result = detect_language_from_country(None);
    assert_eq!(result.language, Language::Unknown);
    assert_eq!(result.country_code, None);
}

#[test]
fn test_lowercase_code_echoed_with_original_casing() {
    // The lookup upper-cases its own copy; the echoed code keeps the
    // caller's casing.
    let result = detect_language_from_country(Some("us"));
    assert_eq!(result.language, Language::English);
    assert_eq!(result.country_code, Some("us".to_string()));
}

#[test]
fn test_ambiguous_codes_resolve_by_table_order() {
    // "CA" is listed under English and French, "CH" under French, German
    // and Italian; the first match of the fixed table order wins.
    assert_eq!(
        detect_language_from_country(Some("CA")).language,
        Language::English
    );
    assert_eq!(
        detect_language_from_country(Some("CH")).language,
        Language::French
    );
}

#[test]
fn test_nordic_codes_resolve_to_english() {
    assert_eq!(
        detect_language_from_country(Some("NO")).language,
        Language::English
    );
    assert_eq!(
        detect_language_from_country(Some("DK")).language,
        Language::English
    );
    assert_eq!(
        detect_language_from_country(Some("SE")).language,
        Language::Swedish
    );
}

#[test]
fn test_three_letter_code_is_unknown() {
    assert_eq!(
        detect_language_from_country(Some("USA")).language,
        Language::Unknown
    );
    assert_eq!(
        detect_language_from_country(Some("")).language,
        Language::Unknown
    );
}

#[test]
fn test_models_carry_classifier_inputs() {
    let artist = Artist {
        name: "Example Artist".to_string(),
        genres: vec!["indie".to_string(), "rock".to_string()],
    };
    let track = Track {
        name: "Example Track".to_string(),
        artists: vec![artist.name.clone()],
    };
    assert_eq!(artist.genres.len(), 2);
    assert_eq!(track.artists[0], "Example Artist");
}
