use vstd::prelude::*;

use crate::features::AudioFeatures;

verus! {

/// The fixed mood enumeration. Ties between raw scores are broken by this
/// declaration order: the earlier label wins.
#[derive(Debug, Clone, Copy, PartialEq, Eq, Structural)]
pub enum Mood {
    Happy,
    Sad,
    Energetic,
    Calm,
    Angry,
    Melancholic,
    Peaceful,
    Romantic,
    Unknown,
}

pub open spec fn spec_mood_name(m: Mood) -> Seq<char> {
    match m {
        Mood::Happy => "Happy"@,
        Mood::Sad => "Sad"@,
        Mood::Energetic => "Energetic"@,
        Mood::Calm => "Calm"@,
        Mood::Angry => "Angry"@,
        Mood::Melancholic => "Melancholic"@,
        Mood::Peaceful => "Peaceful"@,
        Mood::Romantic => "Romantic"@,
        Mood::Unknown => "Unknown"@,
    }
}

impl Mood {
    pub fn as_str(&self) -> (s: &'static str)
        ensures
            s@ == spec_mood_name(*self),
    {
        match self {
            Mood::Happy => "Happy",
            Mood::Sad => "Sad",
            Mood::Energetic => "Energetic",
            Mood::Calm => "Calm",
            Mood::Angry => "Angry",
            Mood::Melancholic => "Melancholic",
            Mood::Peaceful => "Peaceful",
            Mood::Romantic => "Romantic",
            Mood::Unknown => "Unknown",
        }
    }
}

/// Raw score of every mood class, always populated so that a caller can
/// inspect why a label was chosen.
#[derive(Debug, Clone, Copy, PartialEq, Eq, Structural)]
pub struct MoodScores {
    pub happy: u32,
    pub sad: u32,
    pub energetic: u32,
    pub calm: u32,
    pub angry: u32,
    pub melancholic: u32,
    pub peaceful: u32,
    pub romantic: u32,
}

/// Mood detection result: the winning label, the confidence in
/// thousandths (`0` to `1000`), and the full score breakdown.
#[derive(Debug, Clone, Copy, PartialEq, Eq, Structural)]
pub struct MoodDetection {
    pub mood: Mood,
    pub confidence_milli: u32,
    pub scores: MoodScores,
}

pub open spec fn spec_score_happy(f: AudioFeatures) -> int {
    (if f.valence > 700 {
        2int
    } else if f.valence > 500 {
        1int
    } else {
        0int
    }) + (if f.energy > 600 {
        1int
    } else {
        0int
    }) + (if f.danceability > 600 {
        1int
    } else {
        0int
    }) + (if f.loudness > -8_000 && f.loudness < 0 {
        1int
    } else {
        0int
    })
}

pub open spec fn spec_score_sad(f: AudioFeatures) -> int {
    (if f.valence < 400 {
        2int
    } else if f.valence < 600 {
        1int
    } else {
        0int
    }) + (if f.tempo < 90_000 {
        1int
    } else {
        0int
    }) + (if f.energy < 500 {
        1int
    } else {
        0int
    }) + (if f.danceability < 400 {
        1int
    } else {
        0int
    }) + (if f.acousticness > 500 {
        1int
    } else {
        0int
    })
}

pub open spec fn spec_score_energetic(f: AudioFeatures) -> int {
    (if f.energy > 750 {
        2int
    } else if f.energy > 600 {
        1int
    } else {
        0int
    }) + (if f.tempo > 120_000 {
        1int
    } else {
        0int
    }) + (if f.danceability > 600 {
        1int
    } else {
        0int
    }) + (if f.loudness > -6_000 {
        1int
    } else {
        0int
    }) + (if f.acousticness < 300 {
        1int
    } else {
        0int
    })
}

pub open spec fn spec_score_calm(f: AudioFeatures) -> int {
    (if f.energy < 400 {
        2int
    } else if f.energy < 600 {
        1int
    } else {
        0int
    }) + (if f.tempo < 100_000 {
        1int
    } else {
        0int
    }) + (if f.danceability < 400 {
        1int
    } else {
        0int
    }) + (if f.valence > 500 {
        1int
    } else {
        0int
    }) + (if f.loudness < -8_000 {
        1int
    } else {
        0int
    })
}

pub open spec fn spec_score_angry(f: AudioFeatures) -> int {
    (if f.energy > 800 {
        2int
    } else if f.energy > 650 {
        1int
    } else {
        0int
    }) + (if f.valence < 300 {
        2int
    } else if f.valence < 500 {
        1int
    } else {
        0int
    }) + (if f.tempo > 120_000 {
        1int
    } else {
        0int
    }) + (if f.loudness > -5_000 {
        1int
    } else {
        0int
    })
}

pub open spec fn spec_score_melancholic(f: AudioFeatures) -> int {
    (if f.valence < 500 {
        1int
    } else {
        0int
    }) + (if f.energy < 600 && f.energy > 300 {
        1int
    } else {
        0int
    }) + (if f.tempo < 110_000 {
        1int
    } else {
        0int
    }) + (if f.acousticness > 400 {
        1int
    } else {
        0int
    }) + (if f.danceability < 500 {
        1int
    } else {
        0int
    }) + (if f.instrumentalness > 200 {
        1int
    } else {
        0int
    })
}

pub open spec fn spec_score_peaceful(f: AudioFeatures) -> int {
    (if f.energy < 450 {
        2int
    } else if f.energy < 600 {
        1int
    } else {
        0int
    }) + (if f.tempo < 95_000 {
        1int
    } else {
        0int
    }) + (if f.valence > 600 {
        1int
    } else {
        0int
    }) + (if f.loudness < -10_000 {
        1int
    } else {
        0int
    }) + (if f.acousticness > 500 || f.instrumentalness > 400 {
        1int
    } else {
        0int
    })
}

pub open spec fn spec_score_romantic(f: AudioFeatures) -> int {
    (if f.valence > 600 {
        1int
    } else {
        0int
    }) + (if 80_000 <= f.tempo <= 110_000 {
        1int
    } else {
        0int
    }) + (if f.energy < 650 {
        1int
    } else {
        0int
    }) + (if f.danceability > 400 && f.danceability < 700 {
        1int
    } else {
        0int
    }) + (if f.acousticness > 300 {
        1int
    } else {
        0int
    }) + (if f.loudness < -4_000 {
        1int
    } else {
        0int
    }) + (if f.speechiness < 200 {
        1int
    } else {
        0int
    })
}

fn score_happy(f: &AudioFeatures) -> (score: u32)
    ensures
        score as int == spec_score_happy(*f),
{
    let mut score: u32 = 0;
    if f.valence > 700 {
        score = score + 2;
    } else if f.valence > 500 {
        score = score + 1;
    }
    if f.energy > 600 {
        score = score + 1;
    }
    if f.danceability > 600 {
        score = score + 1;
    }
    if f.loudness > -8_000 && f.loudness < 0 {
        score = score + 1;
    }
    score
}

fn score_sad(f: &AudioFeatures) -> (score: u32)
    ensures
        score as int == spec_score_sad(*f),
{
    let mut score: u32 = 0;
    if f.valence < 400 {
        score = score + 2;
    } else if f.valence < 600 {
        score = score + 1;
    }
    if f.tempo < 90_000 {
        score = score + 1;
    }
    if f.energy < 500 {
        score = score + 1;
    }
    if f.danceability < 400 {
        score = score + 1;
    }
    if f.acousticness > 500 {
        score = score + 1;
    }
    score
}

fn score_energetic(f: &AudioFeatures) -> (score: u32)
    ensures
        score as int == spec_score_energetic(*f),
{
    let mut score: u32 = 0;
    if f.energy > 750 {
        score = score + 2;
    } else if f.energy > 600 {
        score = score + 1;
    }
    if f.tempo > 120_000 {
        score = score + 1;
    }
    if f.danceability > 600 {
        score = score + 1;
    }
    if f.loudness > -6_000 {
        score = score + 1;
    }
    if f.acousticness < 300 {
        score = score + 1;
    }
    score
}

fn score_calm(f: &AudioFeatures) -> (score: u32)
    ensures
        score as int == spec_score_calm(*f),
{
    let mut score: u32 = 0;
    if f.energy < 400 {
        score = score + 2;
    } else if f.energy < 600 {
        score = score + 1;
    }
    if f.tempo < 100_000 {
        score = score + 1;
    }
    if f.danceability < 400 {
        score = score + 1;
    }
    if f.valence > 500 {
        score = score + 1;
    }
    if f.loudness < -8_000 {
        score = score + 1;
    }
    score
}

fn score_angry(f: &AudioFeatures) -> (score: u32)
    ensures
        score as int == spec_score_angry(*f),
{
    let mut score: u32 = 0;
    if f.energy > 800 {
        score = score + 2;
    } else if f.energy > 650 {
        score = score + 1;
    }
    if f.valence < 300 {
        score = score + 2;
    } else if f.valence < 500 {
        score = score + 1;
    }
    if f.tempo > 120_000 {
        score = score + 1;
    }
    if f.loudness > -5_000 {
        score = score + 1;
    }
    score
}

fn score_melancholic(f: &AudioFeatures) -> (score: u32)
    ensures
        score as int == spec_score_melancholic(*f),
{
    let mut score: u32 = 0;
    if f.valence < 500 {
        score = score + 1;
    }
    if f.energy < 600 && f.energy > 300 {
        score = score + 1;
    }
    if f.tempo < 110_000 {
        score = score + 1;
    }
    if f.acousticness > 400 {
        score = score + 1;
    }
    if f.danceability < 500 {
        score = score + 1;
    }
    if f.instrumentalness > 200 {
        score = score + 1;
    }
    score
}

fn score_peaceful(f: &AudioFeatures) -> (score: u32)
    ensures
        score as int == spec_score_peaceful(*f),
{
    let mut score: u32 = 0;
    if f.energy < 450 {
        score = score + 2;
    } else if f.energy < 600 {
        score = score + 1;
    }
    if f.tempo < 95_000 {
        score = score + 1;
    }
    if f.valence > 600 {
        score = score + 1;
    }
    if f.loudness < -10_000 {
        score = score + 1;
    }
    if f.acousticness > 500 || f.instrumentalness > 400 {
        score = score + 1;
    }
    score
}

fn score_romantic(f: &AudioFeatures) -> (score: u32)
    ensures
        score as int == spec_score_romantic(*f),
{
    let mut score: u32 = 0;
    if f.valence > 600 {
        score = score + 1;
    }
    if 80_000 <= f.tempo && f.tempo <= 110_000 {
        score = score + 1;
    }
    if f.energy < 650 {
        score = score + 1;
    }
    if f.danceability > 400 && f.danceability < 700 {
        score = score + 1;
    }
    if f.acousticness > 300 {
        score = score + 1;
    }
    if f.loudness < -4_000 {
        score = score + 1;
    }
    if f.speechiness < 200 {
        score = score + 1;
    }
    score
}

/// The largest raw score across all mood classes.
pub open spec fn spec_mood_max(s: MoodScores) -> int {
    vstd::math::max(
        s.happy as int,
        vstd::math::max(
            s.sad as int,
            vstd::math::max(
                s.energetic as int,
                vstd::math::max(
                    s.calm as int,
                    vstd::math::max(
                        s.angry as int,
                        vstd::math::max(
                            s.melancholic as int,
                            vstd::math::max(s.peaceful as int, s.romantic as int),
                        ),
                    ),
                ),
            ),
        ),
    )
}

/// The label the classifier reports: `Unknown` when no rule fired,
/// otherwise the first label in declaration order whose raw score attains
/// the maximum.
pub open spec fn spec_mood_label(s: MoodScores) -> Mood {
    let m = spec_mood_max(s);
    if m <= 0 {
        Mood::Unknown
    } else if s.happy as int == m {
        Mood::Happy
    } else if s.sad as int == m {
        Mood::Sad
    } else if s.energetic as int == m {
        Mood::Energetic
    } else if s.calm as int == m {
        Mood::Calm
    } else if s.angry as int == m {
        Mood::Angry
    } else if s.melancholic as int == m {
        Mood::Melancholic
    } else if s.peaceful as int == m {
        Mood::Peaceful
    } else if s.romantic as int == m {
        Mood::Romantic
    } else {
        Mood::Unknown
    }
}

/// Everything `detect_mood` promises of its result: each raw score equals
/// its rule sum, the label is the tie-broken argmax, and the confidence is
/// the maximum score normalized by the fixed ceiling of 8.
pub open spec fn mood_detection_ok(r: MoodDetection, f: AudioFeatures) -> bool {
    &&& r.scores.happy as int == spec_score_happy(f)
    &&& r.scores.sad as int == spec_score_sad(f)
    &&& r.scores.energetic as int == spec_score_energetic(f)
    &&& r.scores.calm as int == spec_score_calm(f)
    &&& r.scores.angry as int == spec_score_angry(f)
    &&& r.scores.melancholic as int == spec_score_melancholic(f)
    &&& r.scores.peaceful as int == spec_score_peaceful(f)
    &&& r.scores.romantic as int == spec_score_romantic(f)
    &&& r.mood == spec_mood_label(r.scores)
    &&& r.confidence_milli as int == spec_mood_max(r.scores) * 1000 / 8
    &&& r.confidence_milli <= 1000
    &&& (r.confidence_milli == 0 <==> spec_mood_max(r.scores) == 0)
    &&& (r.mood == Mood::Unknown <==> spec_mood_max(r.scores) == 0)
}

/// Detect the mood of a track from its audio features alone. Never fails:
/// when no rule fires the label is `Unknown` with zero confidence.
#[verifier::rlimit(50)]
pub fn detect_mood(features: AudioFeatures) -> (r: MoodDetection)
    ensures
        mood_detection_ok(r, features),
{
    let scores = MoodScores {
        happy: score_happy(&features),
        sad: score_sad(&features),
        energetic: score_energetic(&features),
        calm: score_calm(&features),
        angry: score_angry(&features),
        melancholic: score_melancholic(&features),
        peaceful: score_peaceful(&features),
        romantic: score_romantic(&features),
    };
    let mut max_score: u32 = scores.happy;
    if scores.sad > max_score {
        max_score = scores.sad;
    }
    if scores.energetic > max_score {
        max_score = scores.energetic;
    }
    if scores.calm > max_score {
        max_score = scores.calm;
    }
    if scores.angry > max_score {
        max_score = scores.angry;
    }
    if scores.melancholic > max_score {
        max_score = scores.melancholic;
    }
    if scores.peaceful > max_score {
        max_score = scores.peaceful;
    }
    if scores.romantic > max_score {
        max_score = scores.romantic;
    }
    assert(max_score as int == spec_mood_max(scores));
    assert(max_score <= 7);
    let mood = if max_score == 0 {
        Mood::Unknown
    } else if scores.happy == max_score {
        Mood::Happy
    } else if scores.sad == max_score {
        Mood::Sad
    } else if scores.energetic == max_score {
        Mood::Energetic
    } else if scores.calm == max_score {
        Mood::Calm
    } else if scores.angry == max_score {
        Mood::Angry
    } else if scores.melancholic == max_score {
        Mood::Melancholic
    } else if scores.peaceful == max_score {
        Mood::Peaceful
    } else if scores.romantic == max_score {
        Mood::Romantic
    } else {
        Mood::Unknown
    };
    let confidence_milli = max_score * 1000 / 8;
    MoodDetection { mood, confidence_milli, scores }
}

/// Position of a mood label in the fixed tie-break order.
pub open spec fn spec_mood_rank(m: Mood) -> int {
    match m {
        Mood::Happy => 0,
        Mood::Sad => 1,
        Mood::Energetic => 2,
        Mood::Calm => 3,
        Mood::Angry => 4,
        Mood::Melancholic => 5,
        Mood::Peaceful => 6,
        Mood::Romantic => 7,
        Mood::Unknown => 8,
    }
}

/// The raw score recorded for a mood label (`Unknown` carries none).
pub open spec fn spec_mood_score_of(s: MoodScores, m: Mood) -> int {
    match m {
        Mood::Happy => s.happy as int,
        Mood::Sad => s.sad as int,
        Mood::Energetic => s.energetic as int,
        Mood::Calm => s.calm as int,
        Mood::Angry => s.angry as int,
        Mood::Melancholic => s.melancholic as int,
        Mood::Peaceful => s.peaceful as int,
        Mood::Romantic => s.romantic as int,
        Mood::Unknown => 0,
    }
}

/// Every mood class's raw score is non-negative, for all inputs.
pub proof fn lemma_mood_scores_nonneg(f: AudioFeatures)
    ensures
        spec_score_happy(f) >= 0,
        spec_score_sad(f) >= 0,
        spec_score_energetic(f) >= 0,
        spec_score_calm(f) >= 0,
        spec_score_angry(f) >= 0,
        spec_score_melancholic(f) >= 0,
        spec_score_peaceful(f) >= 0,
        spec_score_romantic(f) >= 0,
{
}

/// Tie-break determinism: whenever any rule fired, the reported label
/// attains the maximum raw score, and every label strictly earlier in the
/// fixed enumeration order scores strictly below the maximum — so an exact
/// tie always resolves to the earlier label.
pub proof fn lemma_mood_tie_break(s: MoodScores)
    requires
        spec_mood_max(s) > 0,
    ensures
        spec_mood_label(s) != Mood::Unknown,
        spec_mood_score_of(s, spec_mood_label(s)) == spec_mood_max(s),
        forall|m: Mood|
            spec_mood_rank(m) < spec_mood_rank(spec_mood_label(s)) ==> spec_mood_score_of(s, m)
                < spec_mood_max(s),
{
}

/// Purity: the mood classifier's outcome is a function of its input alone,
/// so two detections for identical inputs are identical in every field.
pub proof fn lemma_mood_deterministic(r1: MoodDetection, r2: MoodDetection, f: AudioFeatures)
    requires
        mood_detection_ok(r1, f),
        mood_detection_ok(r2, f),
    ensures
        r1 == r2,
{
}

} // verus!
