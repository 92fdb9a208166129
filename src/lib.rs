//! Duration formatting and split classification for a speedrun timer.
//!
//! - [`pattern`] resolves a compact format pattern (such as `h:m:s.dd`) from
//!   display flags, optionally adapted to the magnitude of a duration.
//! - [`render`] renders a millisecond duration against such a pattern.
//! - [`defaults`] renders with the fixed default pattern.
//! - [`splits`] classifies a segment against its comparison and best times.
pub mod pattern;
pub mod render;
pub mod splits;
pub mod defaults;
