//! A pretty-printer for CD cue sheets.
//!
//! The library owns the logic of the tool: a timecode converter that turns
//! absolute frame counts into `MM:SS:FF` fields at 75 frames per second, and
//! a renderer that re-emits a parsed disc model as normalized cue-sheet text
//! with fixed field order and indentation. Reading the input, parsing it into
//! the disc model, and writing the output are left to the binary around the
//! library.

pub mod config;
pub mod error;
pub mod model;
pub mod render;
pub mod text;
pub mod timecode;
