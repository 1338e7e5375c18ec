//! Domain models: codecs, formats, filters, commands and jobs.

pub mod codec;
pub mod command;
pub mod filter;
pub mod format;
pub mod job;

pub use codec::{AudioCodec, VideoCodec};
pub use command::{
    CommandBuildError, CommandBuilder, FFMpegCommand, GlobalOptions, HardwareAccel, InputConfig,
    LogLevel, OutputConfig,
};
pub use filter::{
    AudioFilter, DenoiseStrength, FadeType, Filter, FilterChain, RotationAngle, ScaleDimension,
    VideoFilter,
};
pub use format::{ContainerFormat, EncodingPreset, OutputFormat};
pub use job::{
    format_duration, Job, JobConfig, JobId, JobPriority, JobProgress, JobResult, JobStatus,
};
pub mod media_info;
pub use media_info::{AudioStream, DataStream, FormatInfo, MediaInfo, StreamInfo, SubtitleStream, VideoStream};
