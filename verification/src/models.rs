use vstd::prelude::*;

verus! {

/// A track as the classifiers' caller sees it: a display name and the
/// names of its artists.
#[derive(Debug, Clone)]
pub struct Track {
    pub name: String,
    pub artists: Vec<String>,
}

/// An artist with its free-text genre tags — the tag list is what
/// `detect_genre` matches its keyword bonus against.
#[derive(Debug, Clone)]
pub struct Artist {
    pub name: String,
    pub genres: Vec<String>,
}

} // verus!
