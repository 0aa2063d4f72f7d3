//! Parsing of shell-prompt configuration: colors, icons and feature toggles.
//!
//! The central piece is the color grammar: named colors, `#`-prefixed hex
//! colors (short and long form) and decimal ANSI palette indices. Around it
//! sits a flat record of prompt settings, each field with a fixed default.

pub mod color;
pub mod config;
pub mod strutil;
