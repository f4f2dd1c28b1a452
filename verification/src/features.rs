use vstd::prelude::*;

verus! {

/// Audio feature vector for one track, in fixed-point thousandths.
///
/// `tempo` holds thousandths of a beat per minute (so 120 BPM is
/// `120_000`), `loudness` thousandths of a decibel (typically negative),
/// and the remaining fields thousandths of their normalized `[0, 1]`
/// value (so an energy of `0.45` is `450`).
///
/// No range is enforced: a value outside its conventional range is
/// accepted and simply satisfies fewer scoring rules.
#[derive(Debug, Clone, Copy, PartialEq, Eq, Structural)]
pub struct AudioFeatures {
    pub tempo: i32,
    pub energy: i32,
    pub valence: i32,
    pub danceability: i32,
    pub acousticness: i32,
    pub instrumentalness: i32,
    pub loudness: i32,
    pub speechiness: i32,
}

} // verus!
