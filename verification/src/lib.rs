//! Upcoming spaceflight launches, from the record of a catalogue to the text
//! shown to a reader.
//!
//! - `timestamp`: instants of UTC and the strict codec for timestamps of the
//!   form `YYYYMMDDTHHMMSSZ`.
//! - `launch`: a launch with its rocket and missions, and the decoding of
//!   the records in which launches arrive.
//! - `duration`: a span of time as a short text such as `T-00:00:05` or
//!   `D+1 01:03`.
//! - `render`: the text of a launch, compact or extended.
//! - `palette`: what highlights the parts of that text.
//! - `laws`: what is proved of every timestamp and of every rendering.
//! - `text`, `units`: numerals and whole units, on which the others rest.
//! - `chrono_calls`: the calls into `chrono`, with what is taken from it.

pub mod chrono_calls;
pub mod duration;
pub mod launch;
pub mod laws;
pub mod palette;
pub mod render;
pub mod text;
pub mod timestamp;
pub mod units;

pub use duration::duration_display;
pub use launch::{Launch, LaunchRecord, Launches, LaunchesRecord, Mission, Rocket};
pub use palette::{Accent, Palette, Tint};
pub use render::Mode;
pub use timestamp::{deserialize, DecodeError, Instant};
