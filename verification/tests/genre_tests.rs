use audio_detector::features::AudioFeatures;
use audio_detector::genre::Genre;
use audio_detector::genre::detect_genre;

/// Build a feature vector from values in the source's conventional units
/// (beats per minute, normalized fractions, decibels), converting to the
/// library's fixed-point thousandths.
fn feat(
    tempo: f64,
    energy: f64,
    valence: f64,
    danceability: f64,
    acousticness: f64,
    instrumentalness: f64,
    loudness: f64,
    speechiness: f64,
) -> AudioFeatures {
    AudioFeatures {
        tempo: (tempo * 1000.0).round() as i32,
        energy: (energy * 1000.0).round() as i32,
        valence: (valence * 1000.0).round() as i32,
        danceability: (danceability * 1000.0).round() as i32,
        acousticness: (acousticness * 1000.0).round() as i32,
        instrumentalness: (instrumentalness * 1000.0).round() as i32,
        loudness: (loudness * 1000.0).round() as i32,
        speechiness: (speechiness * 1000.0).round() as i32,
    }
}

fn sample_features() -> AudioFeatures {
    feat(100.0, 0.5, 0.5, 0.5, 0.5, 0.3, -8.0, 0.1)
}

fn confidence(milli: u32) -> f64 {
    milli as f64 / 1000.0
}

#[test]
fn test_ballad_detection() {
    let features = feat(70.0, 0.3, 0.3, 0.2, 0.7, 0.1, -12.0, 0.05);

    let result = detect_genre(features, &[], 50);
    assert_eq!(result.genre, Genre::Ballad);
    assert!(confidence(result.confidence_milli) > 0.3);
}

#[test]
fn test_pop_detection() {
    let features = feat(120.0, 0.7, 0.8, 0.75, 0.2, 0.1, -6.0, 0.05);

    let result = detect_genre(features, &[], 80);
    assert_eq!(result.genre, Genre::Pop);
    assert!(confidence(result.confidence_milli) > 0.3);
}

#[test]
fn test_artist_genre_bonus() {
    let features = sample_features();
    let genres = vec!["electronic".to_string(), "edm".to_string()];

    let result = detect_genre(features, &genres, 70);
    assert_eq!(result.genre, Genre::Edm);
    assert!(confidence(result.confidence_milli) > 0.4);
}

#[test]
fn test_acoustic_detection() {
    let features = feat(100.0, 0.25, 0.6, 0.3, 0.95, 0.2, -10.0, 0.08);

    let result = detect_genre(features, &[], 60);
    assert_eq!(result.genre, Genre::Acoustic);
}

#[test]
fn test_lofi_detection() {
    let features = feat(80.0, 0.25, 0.4, 0.3, 0.4, 0.6, -15.0, 0.05);

    let result = detect_genre(features, &[], 40);
    assert_eq!(result.genre, Genre::LoFi);
}

#[test]
fn test_classical_detection() {
    let features = feat(100.0, 0.15, 0.4, 0.05, 0.8, 0.95, -25.0, 0.0);

    let genres = vec!["classical".to_string()];
    let result = detect_genre(features, &genres, 50);
    assert_eq!(result.genre, Genre::Classical);
}

#[test]
fn test_rock_detection() {
    let features = feat(140.0, 0.8, 0.6, 0.4, 0.15, 0.3, -4.0, 0.08);

    let result = detect_genre(features, &[], 70);
    assert_eq!(result.genre, Genre::Rock);
}

#[test]
fn test_hiphop_detection() {
    let features = feat(95.0, 0.6, 0.5, 0.6, 0.1, 0.05, -5.0, 0.45);

    let genres = vec!["hip hop".to_string()];
    let result = detect_genre(features, &genres, 75);
    assert_eq!(result.genre, Genre::HipHop);
}

#[test]
fn genre_test_no_strong_match_returns_unknown() {
    let features = feat(100.0, 0.5, 0.5, 0.5, 0.5, 0.5, -10.0, 0.15);

    let result = detect_genre(features, &[], 50);
    // Should be unknown or a weak match
    assert!(
        confidence(result.confidence_milli) < 0.5
            || matches!(result.genre, Genre::Unknown | Genre::Pop)
    );
}

#[test]
fn genre_test_score_transparency() {
    let features = sample_features();
    let result = detect_genre(features, &[], 50);

    // All scores should be accessible for transparency
    assert!(result.scores.ballad as i64 >= 0);
    assert!(result.scores.pop as i64 >= 0);
    assert!(result.scores.rock as i64 >= 0);
}

#[test]
fn test_tag_match_is_case_insensitive() {
    // The bonus must fire on an upper-cased tag: "ELECTRONIC" matches the
    // "electronic" keyword only after lower-casing.
    let features = sample_features();
    let genres = vec!["ELECTRONIC".to_string()];

    let result = detect_genre(features, &genres, 70);
    assert_eq!(result.genre, Genre::Edm);
    assert_eq!(result.scores.edm, 5);
}

#[test]
fn test_tag_match_is_substring_containment() {
    // "classic rock" is not equal to any keyword, but it contains "rock".
    let features = sample_features();
    let genres = vec!["classic rock".to_string()];

    let result = detect_genre(features, &genres, 70);
    assert_eq!(result.genre, Genre::Rock);
    assert_eq!(result.scores.rock, 6);
    assert_eq!(result.scores.metal, 5);
}

#[test]
fn test_genre_confidence_exact_value() {
    // Ballad scores 4 of the fixed ceiling of 12: 4000 / 12 = 333.
    let features = feat(70.0, 0.3, 0.3, 0.2, 0.7, 0.1, -12.0, 0.05);
    let result = detect_genre(features, &[], 50);
    assert_eq!(result.scores.ballad, 4);
    assert_eq!(result.confidence_milli, 333);
}

#[test]
fn test_genre_idempotent_on_identical_inputs() {
    let features = feat(95.0, 0.55, 0.45, 0.6, 0.4, 0.2, -7.0, 0.12);
    let genres = vec!["Alternative Rock".to_string()];
    let first = detect_genre(features, &genres, 55);
    let second = detect_genre(features, &genres, 55);
    assert_eq!(first, second);
}

#[test]
fn test_genre_tie_resolves_to_earlier_label() {
    // Jazz and Classical both score exactly 5 through their tag bonus; the
    // tie goes to Jazz, which is earlier in the enumeration order.
    let features = feat(150.0, 0.62, 0.65, 0.45, 0.35, 0.4, -2.0, 0.25);
    let genres = vec!["jazz".to_string(), "symphony".to_string()];
    let result = detect_genre(features, &genres, 80);
    assert_eq!(result.scores.jazz, 5);
    assert_eq!(result.scores.classical, 5);
    assert_eq!(result.genre, Genre::Jazz);
}

#[test]
fn test_genre_as_str_names() {
    assert_eq!(Genre::Ballad.as_str(), "Ballad");
    assert_eq!(Genre::HipHop.as_str(), "Hip-Hop");
    assert_eq!(Genre::RnB.as_str(), "R&B");
    assert_eq!(Genre::LoFi.as_str(), "Lo-Fi");
    assert_eq!(Genre::Unknown.as_str(), "Unknown");
}
