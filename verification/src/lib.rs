//! Font quantification: the decisions that turn facts read from a font
//! (its character map, its OpenType layout features, what the shaper makes
//! of short strings) into metrics about the font's design.
pub mod unicode;
pub mod tag;
pub mod text;
pub mod font;
pub mod features;
pub mod shaping;
pub mod casing;
pub mod numerals;
pub mod appearance;
