//! Rule-based audio classification.
//!
//! Two independent multi-class scorers (genre detection and mood detection)
//! and a deterministic country-to-language lookup. Each classifier is a pure
//! function of its inputs: it returns a label, a confidence, and the full
//! per-class score breakdown, and never fails — inputs that match no rule
//! simply yield the `Unknown` label with zero confidence.
//!
//! Audio features are fixed-point values in thousandths, so that every
//! scoring rule is an exact integer comparison.

pub mod features;
pub mod genre;
pub mod language;
pub mod models;
pub mod mood;
pub mod text;
