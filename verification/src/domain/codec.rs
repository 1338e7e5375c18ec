//! Codec definitions for audio and video.

use vstd::prelude::*;

verus! {

/// Video codec options.
#[derive(Debug, Clone, Copy, PartialEq, Eq, Hash, Structural)]
pub enum VideoCodec {
    H264,
    H265,
    Vp9,
    Av1,
    ProRes,
    Mpeg4,
    Copy,
    /// No video stream in the output.
    NoVideo,
}

impl VideoCodec {
    /// The FFmpeg encoder name of the codec.
    pub open spec fn spec_ffmpeg_name(self) -> Seq<char> {
        match self {
            VideoCodec::H264 => "libx264"@,
            VideoCodec::H265 => "libx265"@,
            VideoCodec::Vp9 => "libvpx-vp9"@,
            VideoCodec::Av1 => "libaom-av1"@,
            VideoCodec::ProRes => "prores_ks"@,
            VideoCodec::Mpeg4 => "mpeg4"@,
            VideoCodec::Copy => "copy"@,
            VideoCodec::NoVideo => "none"@,
        }
    }

    /// Returns the codec name used on the FFmpeg command line.
    pub fn ffmpeg_name(&self) -> (res: &'static str)
        ensures
            res@ == self.spec_ffmpeg_name(),
    {
        match self {
            VideoCodec::H264 => "libx264",
            VideoCodec::H265 => "libx265",
            VideoCodec::Vp9 => "libvpx-vp9",
            VideoCodec::Av1 => "libaom-av1",
            VideoCodec::ProRes => "prores_ks",
            VideoCodec::Mpeg4 => "mpeg4",
            VideoCodec::Copy => "copy",
            VideoCodec::NoVideo => "none",
        }
    }

    /// The codecs that can be chosen, in the order they are cycled through.
    pub open spec fn spec_all() -> Seq<VideoCodec> {
        seq![
            VideoCodec::H264,
            VideoCodec::H265,
            VideoCodec::Vp9,
            VideoCodec::Av1,
            VideoCodec::ProRes,
            VideoCodec::Mpeg4,
            VideoCodec::Copy,
        ]
    }

    /// Returns the selectable codecs (every codec but `NoVideo`).
    pub fn all() -> (res: &'static [VideoCodec])
        ensures
            res@ == Self::spec_all(),
    {
        &[
            VideoCodec::H264,
            VideoCodec::H265,
            VideoCodec::Vp9,
            VideoCodec::Av1,
            VideoCodec::ProRes,
            VideoCodec::Mpeg4,
            VideoCodec::Copy,
        ]
    }

    /// Whether the codec takes a constant rate factor.
    pub open spec fn spec_supports_crf(self) -> bool {
        self is H264 || self is H265 || self is Vp9 || self is Av1
    }

    /// Returns whether the codec supports CRF quality.
    pub fn supports_crf(&self) -> (res: bool)
        ensures
            res == self.spec_supports_crf(),
    {
        matches!(self, VideoCodec::H264 | VideoCodec::H265 | VideoCodec::Vp9 | VideoCodec::Av1)
    }

    /// The human-readable name of the codec.
    pub open spec fn spec_display_name(self) -> Seq<char> {
        match self {
            VideoCodec::H264 => "H.264 (AVC)"@,
            VideoCodec::H265 => "H.265 (HVEC)"@,
            VideoCodec::Vp9 => "VP9"@,
            VideoCodec::Av1 => "AV1"@,
            VideoCodec::ProRes => "ProRes"@,
            VideoCodec::Mpeg4 => "MPEG-4"@,
            VideoCodec::Copy => "Copy (No Re encode)"@,
            VideoCodec::NoVideo => "No Video"@,
        }
    }

    /// Returns the human-readable name of the codec.
    pub fn display_name(&self) -> (res: &'static str)
        ensures
            res@ == self.spec_display_name(),
    {
        match self {
            VideoCodec::H264 => "H.264 (AVC)",
            VideoCodec::H265 => "H.265 (HVEC)",
            VideoCodec::Vp9 => "VP9",
            VideoCodec::Av1 => "AV1",
            VideoCodec::ProRes => "ProRes",
            VideoCodec::Mpeg4 => "MPEG-4",
            VideoCodec::Copy => "Copy (No Re encode)",
            VideoCodec::NoVideo => "No Video",
        }
    }
}

impl Default for VideoCodec {
    fn default() -> (res: Self)
        ensures
            res == VideoCodec::H264,
    {
        VideoCodec::H264
    }
}

/// Audio codec options.
#[derive(Debug, Clone, Copy, PartialEq, Eq, Hash, Structural)]
pub enum AudioCodec {
    Aac,
    Mp3,
    Opus,
    Vorbis,
    Flac,
    Pcm,
    Ac3,
    Copy,
    /// No audio stream in the output.
    NoAudio,
}

impl AudioCodec {
    /// The FFmpeg encoder name of the codec.
    pub open spec fn spec_ffmpeg_name(self) -> Seq<char> {
        match self {
            AudioCodec::Aac => "aac"@,
            AudioCodec::Mp3 => "libmp3lame"@,
            AudioCodec::Opus => "libopus"@,
            AudioCodec::Vorbis => "libvorbis"@,
            AudioCodec::Flac => "flac"@,
            AudioCodec::Pcm => "pcm_s16le"@,
            AudioCodec::Ac3 => "ac3"@,
            AudioCodec::Copy => "copy"@,
            AudioCodec::NoAudio => "none"@,
        }
    }

    /// Returns the codec name used on the FFmpeg command line.
    pub fn ffmpeg_name(&self) -> (res: &'static str)
        ensures
            res@ == self.spec_ffmpeg_name(),
    {
        match self {
            AudioCodec::Aac => "aac",
            AudioCodec::Mp3 => "libmp3lame",
            AudioCodec::Opus => "libopus",
            AudioCodec::Vorbis => "libvorbis",
            AudioCodec::Flac => "flac",
            AudioCodec::Pcm => "pcm_s16le",
            AudioCodec::Ac3 => "ac3",
            AudioCodec::Copy => "copy",
            AudioCodec::NoAudio => "none",
        }
    }

    /// The codecs that can be chosen, in the order they are cycled through.
    pub open spec fn spec_all() -> Seq<AudioCodec> {
        seq![
            AudioCodec::Aac,
            AudioCodec::Mp3,
            AudioCodec::Opus,
            AudioCodec::Vorbis,
            AudioCodec::Flac,
            AudioCodec::Pcm,
            AudioCodec::Ac3,
            AudioCodec::Copy,
        ]
    }

    /// Returns all selectable codecs (every codec but `NoAudio`).
    pub fn all() -> (res: &'static [AudioCodec])
        ensures
            res@ == Self::spec_all(),
    {
        &[
            AudioCodec::Aac,
            AudioCodec::Mp3,
            AudioCodec::Opus,
            AudioCodec::Vorbis,
            AudioCodec::Flac,
            AudioCodec::Pcm,
            AudioCodec::Ac3,
            AudioCodec::Copy,
        ]
    }

    /// The default bitrate of the codec in kbps; 0 for lossless, copied or absent audio.
    pub open spec fn spec_default_bitrate(self) -> u32 {
        match self {
            AudioCodec::Aac | AudioCodec::Mp3 => 192,
            AudioCodec::Opus => 128,
            AudioCodec::Vorbis => 160,
            AudioCodec::Ac3 => 384,
            AudioCodec::Flac | AudioCodec::Pcm | AudioCodec::Copy | AudioCodec::NoAudio => 0,
        }
    }

    /// Returns the default bitrate for the codec in kbps.
    pub fn default_bitrate(&self) -> (res: u32)
        ensures
            res == self.spec_default_bitrate(),
    {
        match self {
            AudioCodec::Aac | AudioCodec::Mp3 => 192,
            AudioCodec::Opus => 128,
            AudioCodec::Vorbis => 160,
            AudioCodec::Ac3 => 384,
            AudioCodec::Flac | AudioCodec::Pcm | AudioCodec::Copy | AudioCodec::NoAudio => 0,
        }
    }

    /// The human-readable name of the codec.
    pub open spec fn spec_display_name(self) -> Seq<char> {
        match self {
            AudioCodec::Aac => "AAC"@,
            AudioCodec::Mp3 => "MP3"@,
            AudioCodec::Opus => "Opus"@,
            AudioCodec::Vorbis => "Vorbis"@,
            AudioCodec::Flac => "Flac"@,
            AudioCodec::Pcm => "PCM"@,
            AudioCodec::Ac3 => "AC3"@,
            AudioCodec::Copy => "Copy (NO Re encode)"@,
            AudioCodec::NoAudio => "No audio"@,
        }
    }

    /// Returns the human-readable name of the codec.
    pub fn display_name(&self) -> (res: &'static str)
        ensures
            res@ == self.spec_display_name(),
    {
        match self {
            AudioCodec::Aac => "AAC",
            AudioCodec::Mp3 => "MP3",
            AudioCodec::Opus => "Opus",
            AudioCodec::Vorbis => "Vorbis",
            AudioCodec::Flac => "Flac",
            AudioCodec::Pcm => "PCM",
            AudioCodec::Ac3 => "AC3",
            AudioCodec::Copy => "Copy (NO Re encode)",
            AudioCodec::NoAudio => "No audio",
        }
    }
}

impl Default for AudioCodec {
    fn default() -> (res: Self)
        ensures
            res == AudioCodec::Aac,
    {
        AudioCodec::Aac
    }
}

} // verus!
