use audio_detector::features::AudioFeatures;
use audio_detector::mood::Mood;
use audio_detector::mood::detect_mood;

/// Build a feature vector from values in the source's conventional units
/// (beats per minute, normalized fractions, decibels), converting to the
/// library's fixed-point thousandths.
fn mood_feat(
    tempo: f64,
    energy: f64,
    valence: f64,
    danceability: f64,
    acousticness: f64,
    instrumentalness: f64,
    loudness: f64,
    speechiness: f64,
) -> AudioFeatures {
    AudioFeatures {
        tempo: (tempo * 1000.0).round() as i32,
        energy: (energy * 1000.0).round() as i32,
        valence: (valence * 1000.0).round() as i32,
        danceability: (danceability * 1000.0).round() as i32,
        acousticness: (acousticness * 1000.0).round() as i32,
        instrumentalness: (instrumentalness * 1000.0).round() as i32,
        loudness: (loudness * 1000.0).round() as i32,
        speechiness: (speechiness * 1000.0).round() as i32,
    }
}

fn mood_confidence(milli: u32) -> f64 {
    milli as f64 / 1000.0
}

#[test]
fn test_sad_detection() {
    let features = mood_feat(70.0, 0.3, 0.2, 0.2, 0.7, 0.1, -12.0, 0.05);

    let result = detect_mood(features);
    assert_eq!(result.mood, Mood::Sad);
    assert!(mood_confidence(result.confidence_milli) > 0.4);
}

#[test]
fn test_energetic_detection() {
    let features = mood_feat(140.0, 0.9, 0.7, 0.8, 0.1, 0.2, -4.0, 0.1);

    let result = detect_mood(features);
    assert_eq!(result.mood, Mood::Energetic);
    assert!(mood_confidence(result.confidence_milli) > 0.4);
}

#[test]
fn test_calm_detection() {
    let features = mood_feat(80.0, 0.3, 0.65, 0.25, 0.6, 0.3, -12.0, 0.05);

    let result = detect_mood(features);
    assert_eq!(result.mood, Mood::Calm);
    assert!(mood_confidence(result.confidence_milli) > 0.4);
}

#[test]
fn test_angry_detection() {
    let features = mood_feat(135.0, 0.88, 0.2, 0.5, 0.1, 0.1, -3.0, 0.2);

    let result = detect_mood(features);
    assert_eq!(result.mood, Mood::Angry);
    assert!(mood_confidence(result.confidence_milli) > 0.3);
}

#[test]
fn test_romantic_detection() {
    let features = mood_feat(95.0, 0.45, 0.7, 0.55, 0.5, 0.2, -7.0, 0.08);

    let result = detect_mood(features);
    assert_eq!(result.mood, Mood::Romantic);
    assert!(mood_confidence(result.confidence_milli) > 0.35);
}

#[test]
fn mood_test_score_transparency() {
    let features = mood_feat(100.0, 0.5, 0.5, 0.5, 0.5, 0.3, -8.0, 0.1);
    let result = detect_mood(features);

    // All scores should be accessible for transparency
    assert!(result.scores.happy as i64 >= 0);
    assert!(result.scores.sad as i64 >= 0);
    assert!(result.scores.energetic as i64 >= 0);
    assert!(result.scores.calm as i64 >= 0);
}

#[test]
fn test_high_valence_high_energy_track() {
    // Both the happy and the energetic rule sets fire on this bright, loud
    // track; energetic collects six points against happy's five, so the
    // energetic label wins outright.
    let features = mood_feat(130.0, 0.8, 0.85, 0.75, 0.2, 0.1, -5.0, 0.05);

    let result = detect_mood(features);
    assert_eq!(result.scores.happy, 5);
    assert_eq!(result.scores.energetic, 6);
    assert_eq!(result.mood, Mood::Energetic);
    assert_eq!(result.confidence_milli, 750);
}

#[test]
fn test_quiet_positive_track_tie_goes_to_calm() {
    // A quiet, slow, positive track scores six for calm and six for
    // peaceful; the exact tie resolves to Calm, the earlier label in the
    // fixed enumeration order.
    let features = mood_feat(60.0, 0.2, 0.75, 0.15, 0.8, 0.6, -15.0, 0.02);

    let result = detect_mood(features);
    assert_eq!(result.scores.calm, 6);
    assert_eq!(result.scores.peaceful, 6);
    assert_eq!(result.mood, Mood::Calm);
}

#[test]
fn test_low_valence_acoustic_track_tie_goes_to_sad() {
    // A slow, low-valence acoustic track scores six for sad and six for
    // melancholic; the exact tie resolves to Sad, the earlier label in the
    // fixed enumeration order.
    let features = mood_feat(85.0, 0.45, 0.35, 0.35, 0.65, 0.4, -10.0, 0.1);

    let result = detect_mood(features);
    assert_eq!(result.scores.sad, 6);
    assert_eq!(result.scores.melancholic, 6);
    assert_eq!(result.mood, Mood::Sad);
}

#[test]
fn test_neutral_track_scores_romantic() {
    // The flat romantic rules are permissive: a neutral track still
    // satisfies five of them, so nothing about this input is "unknown".
    let features = mood_feat(100.0, 0.5, 0.5, 0.5, 0.5, 0.5, -10.0, 0.5);

    let result = detect_mood(features);
    assert_eq!(result.scores.romantic, 5);
    assert_eq!(result.mood, Mood::Romantic);
    assert_eq!(result.confidence_milli, 625);
}

#[test]
fn test_mood_idempotent_on_identical_inputs() {
    let features = mood_feat(105.0, 0.55, 0.48, 0.62, 0.33, 0.21, -6.5, 0.11);
    let first = detect_mood(features);
    let second = detect_mood(features);
    assert_eq!(first, second);
}

#[test]
fn test_mood_as_str_names() {
    assert_eq!(Mood::Happy.as_str(), "Happy");
    assert_eq!(Mood::Melancholic.as_str(), "Melancholic");
    assert_eq!(Mood::Romantic.as_str(), "Romantic");
    assert_eq!(Mood::Unknown.as_str(), "Unknown");
}
