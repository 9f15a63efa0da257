//! Performance-point (PP) calculation for rhythm-game beatmaps.
//!
//! The library takes a parsed beatmap's base attributes, a difficulty
//! rating produced by an external difficulty-attribute provider, a mod
//! bitmask and score statistics, and computes a single performance value
//! together with per-skill contributions.
//!
//! All quantities are modeled as fixed-point integers:
//! - beatmap attributes (AR, CS, HP, OD) and star ratings in hundredths
//!   (`650` means `6.50`),
//! - accuracy and multiplicative factors in basis points (`10000` means
//!   `100%`),
//! - performance values in thousandths of a point.

pub mod adjust;
pub mod beatmap;
pub mod engine;
pub mod error;
pub mod facade;
pub mod fixed;
pub mod mods;
pub mod score;

pub use beatmap::Beatmap;
pub use beatmap::DifficultyAttributes;
pub use beatmap::GameMode;
pub use engine::PPResult;
pub use error::Error;
pub use facade::BeatmapInfo;
pub use facade::calculate_pp_with_accuracy;
pub use facade::calculate_pp_with_counts;
pub use facade::get_beatmap_info;
pub use mods::Mods;
pub use score::ScoreStats;
