//! Offline sprite-sheet asset pipeline.
//!
//! Stage one parses editor-exported sheet descriptions and derives
//! sprite-sheet, animation-definition and animation assets; stage two
//! serializes those assets into fixed-layout binary resources keyed by a
//! numeric identifier derived from each asset's name.

pub mod asset;
pub mod bytes;
pub mod json;
pub mod resource;
pub mod sid;
pub mod sid_aseprite;
pub mod strutil;
