use vstd::prelude::*;

use crate::features::AudioFeatures;
use crate::text::spec_any_tag_contains;
use crate::text::any_tag_contains;

verus! {

/// The fixed genre enumeration. Ties between raw scores are broken by this
/// declaration order: the earlier label wins.
#[derive(Debug, Clone, Copy, PartialEq, Eq, Structural)]
pub enum Genre {
    Ballad,
    Pop,
    Rock,
    Edm,
    HipHop,
    RnB,
    Jazz,
    Classical,
    Acoustic,
    LoFi,
    Indie,
    Metal,
    Unknown,
}

pub open spec fn spec_genre_name(g: Genre) -> Seq<char> {
    match g {
        Genre::Ballad => "Ballad"@,
        Genre::Pop => "Pop"@,
        Genre::Rock => "Rock"@,
        Genre::Edm => "Edm"@,
        Genre::HipHop => "Hip-Hop"@,
        Genre::RnB => "R&B"@,
        Genre::Jazz => "Jazz"@,
        Genre::Classical => "Classical"@,
        Genre::Acoustic => "Acoustic"@,
        Genre::LoFi => "Lo-Fi"@,
        Genre::Indie => "Indie"@,
        Genre::Metal => "Metal"@,
        Genre::Unknown => "Unknown"@,
    }
}

impl Genre {
    pub fn as_str(&self) -> (s: &'static str)
        ensures
            s@ == spec_genre_name(*self),
    {
        match self {
            Genre::Ballad => "Ballad",
            Genre::Pop => "Pop",
            Genre::Rock => "Rock",
            Genre::Edm => "Edm",
            Genre::HipHop => "Hip-Hop",
            Genre::RnB => "R&B",
            Genre::Jazz => "Jazz",
            Genre::Classical => "Classical",
            Genre::Acoustic => "Acoustic",
            Genre::LoFi => "Lo-Fi",
            Genre::Indie => "Indie",
            Genre::Metal => "Metal",
            Genre::Unknown => "Unknown",
        }
    }
}

/// Raw score of every genre class, always populated so that a caller can
/// inspect why a label was chosen.
#[derive(Debug, Clone, Copy, PartialEq, Eq, Structural)]
pub struct GenreScores {
    pub ballad: u32,
    pub pop: u32,
    pub rock: u32,
    pub edm: u32,
    pub hiphop: u32,
    pub rnb: u32,
    pub jazz: u32,
    pub classical: u32,
    pub acoustic: u32,
    pub lofi: u32,
    pub indie: u32,
    pub metal: u32,
}

/// Genre detection result: the winning label, the confidence in
/// thousandths (`0` to `1000`), and the full score breakdown.
#[derive(Debug, Clone, Copy, PartialEq, Eq, Structural)]
pub struct GenreDetection {
    pub genre: Genre,
    pub confidence_milli: u32,
    pub scores: GenreScores,
}

pub open spec fn spec_ballad_tag_match(tags: Seq<Seq<char>>) -> bool {
    spec_any_tag_contains(tags, "ballad"@)
}

pub open spec fn spec_rock_tag_match(tags: Seq<Seq<char>>) -> bool {
    spec_any_tag_contains(tags, "rock"@)
}

pub open spec fn spec_edm_tag_match(tags: Seq<Seq<char>>) -> bool {
    ||| spec_any_tag_contains(tags, "edm"@)
    ||| spec_any_tag_contains(tags, "house"@)
    ||| spec_any_tag_contains(tags, "techno"@)
    ||| spec_any_tag_contains(tags, "electronic"@)
}

pub open spec fn spec_hiphop_tag_match(tags: Seq<Seq<char>>) -> bool {
    ||| spec_any_tag_contains(tags, "hip hop"@)
    ||| spec_any_tag_contains(tags, "hip-hop"@)
    ||| spec_any_tag_contains(tags, "rap"@)
}

pub open spec fn spec_rnb_tag_match(tags: Seq<Seq<char>>) -> bool {
    ||| spec_any_tag_contains(tags, "r&b"@)
    ||| spec_any_tag_contains(tags, "rnb"@)
    ||| spec_any_tag_contains(tags, "r&b/soul"@)
}

pub open spec fn spec_jazz_tag_match(tags: Seq<Seq<char>>) -> bool {
    spec_any_tag_contains(tags, "jazz"@)
}

pub open spec fn spec_classical_tag_match(tags: Seq<Seq<char>>) -> bool {
    ||| spec_any_tag_contains(tags, "classical"@)
    ||| spec_any_tag_contains(tags, "orchestra"@)
    ||| spec_any_tag_contains(tags, "symphony"@)
}

pub open spec fn spec_indie_tag_match(tags: Seq<Seq<char>>) -> bool {
    ||| spec_any_tag_contains(tags, "indie"@)
    ||| spec_any_tag_contains(tags, "alternative"@)
}

pub open spec fn spec_metal_tag_match(tags: Seq<Seq<char>>) -> bool {
    ||| spec_any_tag_contains(tags, "metal"@)
    ||| spec_any_tag_contains(tags, "heavy metal"@)
    ||| spec_any_tag_contains(tags, "rock"@)
}

pub open spec fn spec_score_ballad(f: AudioFeatures, tags: Seq<Seq<char>>) -> int {
    (if spec_ballad_tag_match(tags) { 5int } else { 0int })
        + (if f.tempo < 90_000 { 1int } else { 0int })
        + (if f.energy < 450 { 1int } else { 0int })
        + (if f.acousticness > 400 { 1int } else { 0int })
        + (if f.valence < 600 { 1int } else { 0int })
}

pub open spec fn spec_score_pop(f: AudioFeatures) -> int {
    (if 90_000 <= f.tempo <= 130_000 { 1int } else { 0int })
        + (if 400 <= f.energy <= 800 { 1int } else { 0int })
        + (if f.danceability > 500 { 1int } else { 0int })
        + (if f.valence > 400 { 1int } else { 0int })
}

pub open spec fn spec_score_rock(f: AudioFeatures, tags: Seq<Seq<char>>) -> int {
    (if spec_rock_tag_match(tags) { 5int } else { 0int })
        + (if f.energy > 650 { 1int } else { 0int })
        + (if f.loudness > -8_000 { 1int } else { 0int })
        + (if f.acousticness < 300 { 1int } else { 0int })
        + (if 90_000 <= f.tempo <= 160_000 { 1int } else { 0int })
}

pub open spec fn spec_score_edm(f: AudioFeatures, tags: Seq<Seq<char>>) -> int {
    (if spec_edm_tag_match(tags) { 5int } else { 0int })
        + (if f.danceability > 700 { 1int } else { 0int })
        + (if f.energy > 750 { 1int } else { 0int })
        + (if f.tempo > 120_000 { 1int } else { 0int })
        + (if f.acousticness < 200 { 1int } else { 0int })
}

pub open spec fn spec_score_hiphop(f: AudioFeatures, tags: Seq<Seq<char>>) -> int {
    (if spec_hiphop_tag_match(tags) { 5int } else { 0int })
        + (if 70_000 <= f.tempo <= 110_000 { 1int } else { 0int })
        + (if f.speechiness > 330 { 1int } else { 0int })
        + (if f.energy > 400 { 1int } else { 0int })
}

pub open spec fn spec_score_rnb(f: AudioFeatures, tags: Seq<Seq<char>>) -> int {
    (if spec_rnb_tag_match(tags) { 5int } else { 0int })
        + (if f.tempo < 100_000 { 1int } else { 0int })
        + (if 300 <= f.energy <= 600 { 1int } else { 0int })
        + (if f.danceability > 500 { 1int } else { 0int })
        + (if f.valence < 600 { 1int } else { 0int })
}

pub open spec fn spec_score_jazz(f: AudioFeatures, tags: Seq<Seq<char>>) -> int {
    (if spec_jazz_tag_match(tags) { 5int } else { 0int })
        + (if f.instrumentalness > 500 { 1int } else { 0int })
        + (if f.energy < 500 { 1int } else { 0int })
        + (if f.tempo < 120_000 { 1int } else { 0int })
}

pub open spec fn spec_score_classical(f: AudioFeatures, tags: Seq<Seq<char>>) -> int {
    (if spec_classical_tag_match(tags) { 5int } else { 0int })
        + (if f.instrumentalness > 700 { 1int } else { 0int })
        + (if f.energy < 300 { 1int } else { 0int })
        + (if f.loudness < -20_000 { 1int } else { 0int })
}

pub open spec fn spec_score_acoustic(f: AudioFeatures) -> int {
    (if f.acousticness > 750 { 2int } else { 0int })
        + (if f.energy < 500 { 1int } else { 0int })
}

pub open spec fn spec_score_lofi(f: AudioFeatures) -> int {
    (if f.tempo < 85_000 { 1int } else { 0int })
        + (if f.energy < 400 { 1int } else { 0int })
        + (if f.loudness < -10_000 { 1int } else { 0int })
        + (if f.instrumentalness > 300 { 1int } else { 0int })
}

pub open spec fn spec_score_indie(f: AudioFeatures, tags: Seq<Seq<char>>, popularity: u32) -> int {
    (if spec_indie_tag_match(tags) { 5int } else { 0int })
        + (if 400 <= f.energy <= 700 { 1int } else { 0int })
        + (if 300 <= f.acousticness <= 600 { 1int } else { 0int })
        + (if popularity < 60 { 1int } else { 0int })
}

pub open spec fn spec_score_metal(f: AudioFeatures, tags: Seq<Seq<char>>) -> int {
    (if spec_metal_tag_match(tags) { 5int } else { 0int })
        + (if f.energy > 800 { 1int } else { 0int })
        + (if f.loudness > -5_000 { 1int } else { 0int })
        + (if f.tempo > 120_000 { 1int } else { 0int })
}

fn score_ballad(f: &AudioFeatures, tags: &[String]) -> (score: u32)
    ensures
        score as int == spec_score_ballad(*f, tags.deep_view()),
{
    let mut score: u32 = 0;
    if any_tag_contains(tags, "ballad") {
        score = score + 5;
    }
    if f.tempo < 90_000 {
        score = score + 1;
    }
    if f.energy < 450 {
        score = score + 1;
    }
    if f.acousticness > 400 {
        score = score + 1;
    }
    if f.valence < 600 {
        score = score + 1;
    }
    score
}

fn score_pop(f: &AudioFeatures) -> (score: u32)
    ensures
        score as int == spec_score_pop(*f),
{
    let mut score: u32 = 0;
    if 90_000 <= f.tempo && f.tempo <= 130_000 {
        score = score + 1;
    }
    if 400 <= f.energy && f.energy <= 800 {
        score = score + 1;
    }
    if f.danceability > 500 {
        score = score + 1;
    }
    if f.valence > 400 {
        score = score + 1;
    }
    score
}

fn score_rock(f: &AudioFeatures, tags: &[String]) -> (score: u32)
    ensures
        score as int == spec_score_rock(*f, tags.deep_view()),
{
    let mut score: u32 = 0;
    if any_tag_contains(tags, "rock") {
        score = score + 5;
    }
    if f.energy > 650 {
        score = score + 1;
    }
    if f.loudness > -8_000 {
        score = score + 1;
    }
    if f.acousticness < 300 {
        score = score + 1;
    }
    if 90_000 <= f.tempo && f.tempo <= 160_000 {
        score = score + 1;
    }
    score
}

fn score_edm(f: &AudioFeatures, tags: &[String]) -> (score: u32)
    ensures
        score as int == spec_score_edm(*f, tags.deep_view()),
{
    let mut score: u32 = 0;
    if any_tag_contains(tags, "edm") || any_tag_contains(tags, "house") || any_tag_contains(
        tags,
        "techno",
    ) || any_tag_contains(tags, "electronic") {
        score = score + 5;
    }
    if f.danceability > 700 {
        score = score + 1;
    }
    if f.energy > 750 {
        score = score + 1;
    }
    if f.tempo > 120_000 {
        score = score + 1;
    }
    if f.acousticness < 200 {
        score = score + 1;
    }
    score
}

fn score_hiphop(f: &AudioFeatures, tags: &[String]) -> (score: u32)
    ensures
        score as int == spec_score_hiphop(*f, tags.deep_view()),
{
    let mut score: u32 = 0;
    if any_tag_contains(tags, "hip hop") || any_tag_contains(tags, "hip-hop") || any_tag_contains(
        tags,
        "rap",
    ) {
        score = score + 5;
    }
    if 70_000 <= f.tempo && f.tempo <= 110_000 {
        score = score + 1;
    }
    if f.speechiness > 330 {
        score = score + 1;
    }
    if f.energy > 400 {
        score = score + 1;
    }
    score
}

fn score_rnb(f: &AudioFeatures, tags: &[String]) -> (score: u32)
    ensures
        score as int == spec_score_rnb(*f, tags.deep_view()),
{
    let mut score: u32 = 0;
    if any_tag_contains(tags, "r&b") || any_tag_contains(tags, "rnb") || any_tag_contains(
        tags,
        "r&b/soul",
    ) {
        score = score + 5;
    }
    if f.tempo < 100_000 {
        score = score + 1;
    }
    if 300 <= f.energy && f.energy <= 600 {
        score = score + 1;
    }
    if f.danceability > 500 {
        score = score + 1;
    }
    if f.valence < 600 {
        score = score + 1;
    }
    score
}

fn score_jazz(f: &AudioFeatures, tags: &[String]) -> (score: u32)
    ensures
        score as int == spec_score_jazz(*f, tags.deep_view()),
{
    let mut score: u32 = 0;
    if any_tag_contains(tags, "jazz") {
        score = score + 5;
    }
    if f.instrumentalness > 500 {
        score = score + 1;
    }
    if f.energy < 500 {
        score = score + 1;
    }
    if f.tempo < 120_000 {
        score = score + 1;
    }
    score
}

fn score_classical(f: &AudioFeatures, tags: &[String]) -> (score: u32)
    ensures
        score as int == spec_score_classical(*f, tags.deep_view()),
{
    let mut score: u32 = 0;
    if any_tag_contains(tags, "classical") || any_tag_contains(tags, "orchestra")
        || any_tag_contains(tags, "symphony") {
        score = score + 5;
    }
    if f.instrumentalness > 700 {
        score = score + 1;
    }
    if f.energy < 300 {
        score = score + 1;
    }
    if f.loudness < -20_000 {
        score = score + 1;
    }
    score
}

fn score_acoustic(f: &AudioFeatures) -> (score: u32)
    ensures
        score as int == spec_score_acoustic(*f),
{
    let mut score: u32 = 0;
    if f.acousticness > 750 {
        score = score + 2;
    }
    if f.energy < 500 {
        score = score + 1;
    }
    score
}

fn score_lofi(f: &AudioFeatures) -> (score: u32)
    ensures
        score as int == spec_score_lofi(*f),
{
    let mut score: u32 = 0;
    if f.tempo < 85_000 {
        score = score + 1;
    }
    if f.energy < 400 {
        score = score + 1;
    }
    if f.loudness < -10_000 {
        score = score + 1;
    }
    if f.instrumentalness > 300 {
        score = score + 1;
    }
    score
}

fn score_indie(f: &AudioFeatures, tags: &[String], popularity: u32) -> (score: u32)
    ensures
        score as int == spec_score_indie(*f, tags.deep_view(), popularity),
{
    let mut score: u32 = 0;
    if any_tag_contains(tags, "indie") || any_tag_contains(tags, "alternative") {
        score = score + 5;
    }
    if 400 <= f.energy && f.energy <= 700 {
        score = score + 1;
    }
    if 300 <= f.acousticness && f.acousticness <= 600 {
        score = score + 1;
    }
    if popularity < 60 {
        score = score + 1;
    }
    score
}

fn score_metal(f: &AudioFeatures, tags: &[String]) -> (score: u32)
    ensures
        score as int == spec_score_metal(*f, tags.deep_view()),
{
    let mut score: u32 = 0;
    if any_tag_contains(tags, "metal") || any_tag_contains(tags, "heavy metal") || any_tag_contains(
        tags,
        "rock",
    ) {
        score = score + 5;
    }
    if f.energy > 800 {
        score = score + 1;
    }
    if f.loudness > -5_000 {
        score = score + 1;
    }
    if f.tempo > 120_000 {
        score = score + 1;
    }
    score
}

/// The largest raw score across all genre classes.
pub open spec fn spec_genre_max(s: GenreScores) -> int {
    vstd::math::max(
        s.ballad as int,
        vstd::math::max(
            s.pop as int,
            vstd::math::max(
                s.rock as int,
                vstd::math::max(
                    s.edm as int,
                    vstd::math::max(
                        s.hiphop as int,
                        vstd::math::max(
                            s.rnb as int,
                            vstd::math::max(
                                s.jazz as int,
                                vstd::math::max(
                                    s.classical as int,
                                    vstd::math::max(
                                        s.acoustic as int,
                                        vstd::math::max(
                                            s.lofi as int,
                                            vstd::math::max(s.indie as int, s.metal as int),
                                        ),
                                    ),
                                ),
                            ),
                        ),
                    ),
                ),
            ),
        ),
    )
}

/// The label the classifier reports: `Unknown` when no rule fired,
/// otherwise the first label in declaration order whose raw score attains
/// the maximum.
pub open spec fn spec_genre_label(s: GenreScores) -> Genre {
    let m = spec_genre_max(s);
    if m <= 0 {
        Genre::Unknown
    } else if s.ballad as int == m {
        Genre::Ballad
    } else if s.pop as int == m {
        Genre::Pop
    } else if s.rock as int == m {
        Genre::Rock
    } else if s.edm as int == m {
        Genre::Edm
    } else if s.hiphop as int == m {
        Genre::HipHop
    } else if s.rnb as int == m {
        Genre::RnB
    } else if s.jazz as int == m {
        Genre::Jazz
    } else if s.classical as int == m {
        Genre::Classical
    } else if s.acoustic as int == m {
        Genre::Acoustic
    } else if s.lofi as int == m {
        Genre::LoFi
    } else if s.indie as int == m {
        Genre::Indie
    } else if s.metal as int == m {
        Genre::Metal
    } else {
        Genre::Unknown
    }
}

/// Everything `detect_genre` promises of its result: each raw score equals
/// its rule sum, the label is the tie-broken argmax, and the confidence is
/// the maximum score normalized by the fixed ceiling of 12.
pub open spec fn genre_detection_ok(
    r: GenreDetection,
    f: AudioFeatures,
    tags: Seq<Seq<char>>,
    popularity: u32,
) -> bool {
    &&& r.scores.ballad as int == spec_score_ballad(f, tags)
    &&& r.scores.pop as int == spec_score_pop(f)
    &&& r.scores.rock as int == spec_score_rock(f, tags)
    &&& r.scores.edm as int == spec_score_edm(f, tags)
    &&& r.scores.hiphop as int == spec_score_hiphop(f, tags)
    &&& r.scores.rnb as int == spec_score_rnb(f, tags)
    &&& r.scores.jazz as int == spec_score_jazz(f, tags)
    &&& r.scores.classical as int == spec_score_classical(f, tags)
    &&& r.scores.acoustic as int == spec_score_acoustic(f)
    &&& r.scores.lofi as int == spec_score_lofi(f)
    &&& r.scores.indie as int == spec_score_indie(f, tags, popularity)
    &&& r.scores.metal as int == spec_score_metal(f, tags)
    &&& r.genre == spec_genre_label(r.scores)
    &&& r.confidence_milli as int == spec_genre_max(r.scores) * 1000 / 12
    &&& r.confidence_milli <= 1000
    &&& (r.confidence_milli == 0 <==> spec_genre_max(r.scores) == 0)
    &&& (r.genre == Genre::Unknown <==> spec_genre_max(r.scores) == 0)
}

/// Detect the genre of a track from its audio features, its artist's
/// free-text genre tags (matched case-insensitively as substrings, worth a
/// bonus of 5 points) and its popularity (0 to 100; only the indie rule
/// reads it). Never fails: when no rule fires the label is `Unknown` with
/// zero confidence.
#[verifier::rlimit(50)]
pub fn detect_genre(features: AudioFeatures, artist_genres: &[String], popularity: u32) -> (r:
    GenreDetection)
    ensures
        genre_detection_ok(r, features, artist_genres.deep_view(), popularity),
{
    let scores = GenreScores {
        ballad: score_ballad(&features, artist_genres),
        pop: score_pop(&features),
        rock: score_rock(&features, artist_genres),
        edm: score_edm(&features, artist_genres),
        hiphop: score_hiphop(&features, artist_genres),
        rnb: score_rnb(&features, artist_genres),
        jazz: score_jazz(&features, artist_genres),
        classical: score_classical(&features, artist_genres),
        acoustic: score_acoustic(&features),
        lofi: score_lofi(&features),
        indie: score_indie(&features, artist_genres, popularity),
        metal: score_metal(&features, artist_genres),
    };
    let mut max_score: u32 = scores.ballad;
    if scores.pop > max_score {
        max_score = scores.pop;
    }
    if scores.rock > max_score {
        max_score = scores.rock;
    }
    if scores.edm > max_score {
        max_score = scores.edm;
    }
    if scores.hiphop > max_score {
        max_score = scores.hiphop;
    }
    if scores.rnb > max_score {
        max_score = scores.rnb;
    }
    if scores.jazz > max_score {
        max_score = scores.jazz;
    }
    if scores.classical > max_score {
        max_score = scores.classical;
    }
    if scores.acoustic > max_score {
        max_score = scores.acoustic;
    }
    if scores.lofi > max_score {
        max_score = scores.lofi;
    }
    if scores.indie > max_score {
        max_score = scores.indie;
    }
    if scores.metal > max_score {
        max_score = scores.metal;
    }
    assert(max_score as int == spec_genre_max(scores));
    assert(max_score <= 9);
    let genre = if max_score == 0 {
        Genre::Unknown
    } else if scores.ballad == max_score {
        Genre::Ballad
    } else if scores.pop == max_score {
        Genre::Pop
    } else if scores.rock == max_score {
        Genre::Rock
    } else if scores.edm == max_score {
        Genre::Edm
    } else if scores.hiphop == max_score {
        Genre::HipHop
    } else if scores.rnb == max_score {
        Genre::RnB
    } else if scores.jazz == max_score {
        Genre::Jazz
    } else if scores.classical == max_score {
        Genre::Classical
    } else if scores.acoustic == max_score {
        Genre::Acoustic
    } else if scores.lofi == max_score {
        Genre::LoFi
    } else if scores.indie == max_score {
        Genre::Indie
    } else if scores.metal == max_score {
        Genre::Metal
    } else {
        Genre::Unknown
    };
    let confidence_milli = max_score * 1000 / 12;
    GenreDetection { genre, confidence_milli, scores }
}

/// Position of a genre label in the fixed tie-break order.
pub open spec fn spec_genre_rank(g: Genre) -> int {
    match g {
        Genre::Ballad => 0,
        Genre::Pop => 1,
        Genre::Rock => 2,
        Genre::Edm => 3,
        Genre::HipHop => 4,
        Genre::RnB => 5,
        Genre::Jazz => 6,
        Genre::Classical => 7,
        Genre::Acoustic => 8,
        Genre::LoFi => 9,
        Genre::Indie => 10,
        Genre::Metal => 11,
        Genre::Unknown => 12,
    }
}

/// The raw score recorded for a genre label (`Unknown` carries none).
pub open spec fn spec_genre_score_of(s: GenreScores, g: Genre) -> int {
    match g {
        Genre::Ballad => s.ballad as int,
        Genre::Pop => s.pop as int,
        Genre::Rock => s.rock as int,
        Genre::Edm => s.edm as int,
        Genre::HipHop => s.hiphop as int,
        Genre::RnB => s.rnb as int,
        Genre::Jazz => s.jazz as int,
        Genre::Classical => s.classical as int,
        Genre::Acoustic => s.acoustic as int,
        Genre::LoFi => s.lofi as int,
        Genre::Indie => s.indie as int,
        Genre::Metal => s.metal as int,
        Genre::Unknown => 0,
    }
}

/// Every genre class's raw score is non-negative, for all inputs.
pub proof fn lemma_genre_scores_nonneg(f: AudioFeatures, tags: Seq<Seq<char>>, popularity: u32)
    ensures
        spec_score_ballad(f, tags) >= 0,
        spec_score_pop(f) >= 0,
        spec_score_rock(f, tags) >= 0,
        spec_score_edm(f, tags) >= 0,
        spec_score_hiphop(f, tags) >= 0,
        spec_score_rnb(f, tags) >= 0,
        spec_score_jazz(f, tags) >= 0,
        spec_score_classical(f, tags) >= 0,
        spec_score_acoustic(f) >= 0,
        spec_score_lofi(f) >= 0,
        spec_score_indie(f, tags, popularity) >= 0,
        spec_score_metal(f, tags) >= 0,
{
}

/// Tie-break determinism: whenever any rule fired, the reported label
/// attains the maximum raw score, and every label strictly earlier in the
/// fixed enumeration order scores strictly below the maximum — so an exact
/// tie always resolves to the earlier label.
pub proof fn lemma_genre_tie_break(s: GenreScores)
    requires
        spec_genre_max(s) > 0,
    ensures
        spec_genre_label(s) != Genre::Unknown,
        spec_genre_score_of(s, spec_genre_label(s)) == spec_genre_max(s),
        forall|g: Genre|
            spec_genre_rank(g) < spec_genre_rank(spec_genre_label(s)) ==> spec_genre_score_of(
                s,
                g,
            ) < spec_genre_max(s),
{
}

/// Purity: the genre classifier's outcome is a function of its inputs
/// alone, so two detections for identical inputs are identical in every
/// field.
pub proof fn lemma_genre_deterministic(
    r1: GenreDetection,
    r2: GenreDetection,
    f: AudioFeatures,
    tags: Seq<Seq<char>>,
    popularity: u32,
)
    requires
        genre_detection_ok(r1, f, tags, popularity),
        genre_detection_ok(r2, f, tags, popularity),
    ensures
        r1 == r2,
{
}

} // verus!
