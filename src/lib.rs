//! Builds the two 16-row bit patterns of a dual-tone 16x16 icon from a
//! bitmap image: one pattern for fully lit dots, one for half-tone dots.

pub mod image;
pub mod laws;
pub mod pattern;
