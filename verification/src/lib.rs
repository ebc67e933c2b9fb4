//! Playback core of a tracker music player.
//!
//! A `module::Module` holds samples, patterns and a playlist. A `player::Player` over it
//! gives one mixed output frame per call of `process`: it moves 64 `channel::Channel`
//! voices through their samples, counts frames into ticks and ticks into rows, enters
//! rows, and runs the effects of each tick. Frequencies and positions are Q32.32 numbers
//! (`fixed_point`), pitches and slides come from the tables in `lut`, and `format` makes
//! the text of a row's cells.

pub mod channel;
pub mod fixed_point;
pub mod format;
pub mod lut;
pub mod module;
pub mod player;
