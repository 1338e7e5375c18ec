//! Running FFmpeg and FFprobe: the executors' settings, the arguments they
//! pass, and the decisions taken on what the processes report.

pub mod ffmpeg;
pub mod ffprobe;
pub mod process;

pub use ffmpeg::{ExecutionMonitor, FFMpegExecutor};
pub use ffprobe::{FFProbeExecutor, RawFormat, RawProbeOutput, RawStream};
pub use process::ProcessError;
