//! A typed, contract-checked surface over the BearLibTerminal native
//! console library: structured colours, screen geometry, configuration
//! builders with their textual wire form, and decoding of the raw integer
//! event codes the native library reports.

pub mod colors;
pub mod geometry;
pub mod terminal;
pub mod textfmt;

pub use colors::Color;
