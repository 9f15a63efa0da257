//! Typed error kinds: every failure of the pipeline is a value of
//! [`Error`], surfaced to the caller instead of aborting the process.

use vstd::prelude::*;

verus! {

/// The error kinds a calculation can end with. Each is terminal for the
/// call that produced it; nothing is retried internally.
#[derive(Clone, Copy, Debug, PartialEq, Eq, Structural)]
pub enum Error {
    /// The beatmap file path does not exist.
    FileNotFound,
    /// The beatmap file exists but cannot be read.
    IoError,
    /// The map parser cannot interpret the file contents.
    ParseError,
    /// The derived perfect-hit count would be negative, or the given
    /// accuracy lies outside the unit interval.
    InvalidScoreStats,
    /// The difficulty-attribute provider returned attributes for a game
    /// mode whose performance model is not supported.
    UnsupportedMode,
    /// The difficulty-attribute provider returned attributes that are
    /// inconsistent with the beatmap: a non-positive maximum combo, or
    /// one below the beatmap's object count.
    InvalidAttributes,
}

} // verus!
