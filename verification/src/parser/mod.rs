//! Reading what FFmpeg prints while it runs.

pub mod progress;

pub use progress::{DurationStamp, LineReading, ProgressFields, ProgressParser, SizeReading};
