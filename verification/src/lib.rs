//! A textual music-staff grid: glyph classification, noise-driven note
//! placement, grid rendering, and the frame sequence of a tempo-paced
//! playback animation.

pub mod glyphs;
pub mod table;
