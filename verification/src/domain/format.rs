//! Container formats and encoding speed presets.

use vstd::prelude::*;
use crate::text::{all_ascii, ascii_lower, str_eq, to_lowercase, unicode_lowercase};

verus! {

/// Output container format.
#[derive(Debug, Clone, Copy, PartialEq, Eq, Hash, Structural)]
pub enum ContainerFormat {
    Mp4,
    Mkv,
    Webm,
    Mov,
    Avi,
    Flv,
    Ts,
    Mp3,
    Flac,
    Wav,
    Ogg,
}

impl ContainerFormat {
    /// The file extension of the format.
    pub open spec fn spec_extension(self) -> Seq<char> {
        match self {
            ContainerFormat::Mp4 => "mp4"@,
            ContainerFormat::Mkv => "mkv"@,
            ContainerFormat::Webm => "webm"@,
            ContainerFormat::Mov => "mov"@,
            ContainerFormat::Avi => "avi"@,
            ContainerFormat::Flv => "flv"@,
            ContainerFormat::Ts => "ts"@,
            ContainerFormat::Mp3 => "mp3"@,
            ContainerFormat::Flac => "flac"@,
            ContainerFormat::Wav => "wav"@,
            ContainerFormat::Ogg => "ogg"@,
        }
    }

    /// Returns the file extension of the format.
    pub fn extension(&self) -> (res: &'static str)
        ensures
            res@ == self.spec_extension(),
            no_separator(res@),
    {
        proof {
            lemma_extension_has_no_separator(*self);
        }
        match self {
            ContainerFormat::Mp4 => "mp4",
            ContainerFormat::Mkv => "mkv",
            ContainerFormat::Webm => "webm",
            ContainerFormat::Mov => "mov",
            ContainerFormat::Avi => "avi",
            ContainerFormat::Flv => "flv",
            ContainerFormat::Ts => "ts",
            ContainerFormat::Mp3 => "mp3",
            ContainerFormat::Flac => "flac",
            ContainerFormat::Wav => "wav",
            ContainerFormat::Ogg => "ogg",
        }
    }

    /// The FFmpeg muxer name of the format.
    pub open spec fn spec_ffmpeg_name(self) -> Seq<char> {
        match self {
            ContainerFormat::Mp4 => "mp4"@,
            ContainerFormat::Mkv => "matroska"@,
            ContainerFormat::Webm => "webm"@,
            ContainerFormat::Mov => "mov"@,
            ContainerFormat::Avi => "avi"@,
            ContainerFormat::Flv => "flv"@,
            ContainerFormat::Ts => "mpegts"@,
            ContainerFormat::Mp3 => "mp3"@,
            ContainerFormat::Flac => "flac"@,
            ContainerFormat::Wav => "wav"@,
            ContainerFormat::Ogg => "ogg"@,
        }
    }

    /// Returns the FFmpeg muxer name (the argument of `-f`).
    pub fn ffmpeg_name(&self) -> (res: &'static str)
        ensures
            res@ == self.spec_ffmpeg_name(),
    {
        match self {
            ContainerFormat::Mp4 => "mp4",
            ContainerFormat::Mkv => "matroska",
            ContainerFormat::Webm => "webm",
            ContainerFormat::Mov => "mov",
            ContainerFormat::Avi => "avi",
            ContainerFormat::Flv => "flv",
            ContainerFormat::Ts => "mpegts",
            ContainerFormat::Mp3 => "mp3",
            ContainerFormat::Flac => "flac",
            ContainerFormat::Wav => "wav",
            ContainerFormat::Ogg => "ogg",
        }
    }

    /// The formats that carry video, in the order they are cycled through.
    pub open spec fn spec_video_formats() -> Seq<ContainerFormat> {
        seq![
            ContainerFormat::Mp4,
            ContainerFormat::Mkv,
            ContainerFormat::Webm,
            ContainerFormat::Mov,
            ContainerFormat::Avi,
            ContainerFormat::Flv,
            ContainerFormat::Ts,
        ]
    }

    /// Returns the formats that carry video.
    pub fn video_formats() -> (res: &'static [ContainerFormat])
        ensures
            res@ == Self::spec_video_formats(),
    {
        &[
            ContainerFormat::Mp4,
            ContainerFormat::Mkv,
            ContainerFormat::Webm,
            ContainerFormat::Mov,
            ContainerFormat::Avi,
            ContainerFormat::Flv,
            ContainerFormat::Ts,
        ]
    }

    /// The audio-only formats.
    pub open spec fn spec_audio_formats() -> Seq<ContainerFormat> {
        seq![ContainerFormat::Mp3, ContainerFormat::Flac, ContainerFormat::Wav, ContainerFormat::Ogg]
    }

    /// Returns the audio-only formats.
    pub fn audio_formats() -> (res: &'static [ContainerFormat])
        ensures
            res@ == Self::spec_audio_formats(),
    {
        &[ContainerFormat::Mp3, ContainerFormat::Flac, ContainerFormat::Wav, ContainerFormat::Ogg]
    }

    /// Whether the format carries video.
    pub open spec fn spec_supports_video(self) -> bool {
        self is Mp4 || self is Mkv || self is Webm || self is Mov || self is Avi || self is Flv
            || self is Ts
    }

    /// Returns whether the format has video support.
    pub fn supports_video(&self) -> (res: bool)
        ensures
            res == self.spec_supports_video(),
    {
        matches!(
            self,
            ContainerFormat::Mp4 | ContainerFormat::Mkv | ContainerFormat::Webm
                | ContainerFormat::Mov | ContainerFormat::Avi | ContainerFormat::Flv
                | ContainerFormat::Ts
        )
    }

    /// The format that a lowercase extension names, if any.
    pub open spec fn spec_from_lower_extension(ext: Seq<char>) -> Option<ContainerFormat> {
        if ext == "mp4"@ || ext == "m4v"@ {
            Some(ContainerFormat::Mp4)
        } else if ext == "mkv"@ {
            Some(ContainerFormat::Mkv)
        } else if ext == "webm"@ {
            Some(ContainerFormat::Webm)
        } else if ext == "mov"@ {
            Some(ContainerFormat::Mov)
        } else if ext == "avi"@ {
            Some(ContainerFormat::Avi)
        } else if ext == "flv"@ {
            Some(ContainerFormat::Flv)
        } else if ext == "ts"@ || ext == "mts"@ {
            Some(ContainerFormat::Ts)
        } else if ext == "mp3"@ {
            Some(ContainerFormat::Mp3)
        } else if ext == "flac"@ {
            Some(ContainerFormat::Flac)
        } else if ext == "wav"@ {
            Some(ContainerFormat::Wav)
        } else if ext == "ogg"@ {
            Some(ContainerFormat::Ogg)
        } else {
            None
        }
    }

    /// The format an extension names, compared without regard to case.
    pub open spec fn spec_from_extension(ext: Seq<char>) -> Option<ContainerFormat> {
        Self::spec_from_lower_extension(unicode_lowercase(ext))
    }

    /// Tries to determine the format from a file extension, ignoring case.
    pub fn from_extension(ext: &str) -> (res: Option<ContainerFormat>)
        ensures
            res == Self::spec_from_extension(ext@),
            all_ascii(ext@) ==> res == Self::spec_from_lower_extension(
                ext@.map_values(|c: char| ascii_lower(c)),
            ),
    {
        let lower = to_lowercase(ext);
        let e = lower.as_str();
        if str_eq(e, "mp4") || str_eq(e, "m4v") {
            Some(ContainerFormat::Mp4)
        } else if str_eq(e, "mkv") {
            Some(ContainerFormat::Mkv)
        } else if str_eq(e, "webm") {
            Some(ContainerFormat::Webm)
        } else if str_eq(e, "mov") {
            Some(ContainerFormat::Mov)
        } else if str_eq(e, "avi") {
            Some(ContainerFormat::Avi)
        } else if str_eq(e, "flv") {
            Some(ContainerFormat::Flv)
        } else if str_eq(e, "ts") || str_eq(e, "mts") {
            Some(ContainerFormat::Ts)
        } else if str_eq(e, "mp3") {
            Some(ContainerFormat::Mp3)
        } else if str_eq(e, "flac") {
            Some(ContainerFormat::Flac)
        } else if str_eq(e, "wav") {
            Some(ContainerFormat::Wav)
        } else if str_eq(e, "ogg") {
            Some(ContainerFormat::Ogg)
        } else {
            None
        }
    }

    /// The human-readable name of the format.
    pub open spec fn spec_display_name(self) -> Seq<char> {
        match self {
            ContainerFormat::Mp4 => "MP4"@,
            ContainerFormat::Mp3 => "MP3"@,
            ContainerFormat::Mkv => "Matroska (MKV)"@,
            ContainerFormat::Webm => "WebM"@,
            ContainerFormat::Mov => "Quicktime (MOV)"@,
            ContainerFormat::Avi => "AVI"@,
            ContainerFormat::Flv => "Flash Video (FLV)"@,
            ContainerFormat::Ts => "MPEG-TS"@,
            ContainerFormat::Wav => "WAV"@,
            ContainerFormat::Ogg => "Ogg"@,
            ContainerFormat::Flac => "FLAC"@,
        }
    }

    /// Returns the human-readable name of the format.
    pub fn display_name(&self) -> (res: &'static str)
        ensures
            res@ == self.spec_display_name(),
    {
        match self {
            ContainerFormat::Mp4 => "MP4",
            ContainerFormat::Mp3 => "MP3",
            ContainerFormat::Mkv => "Matroska (MKV)",
            ContainerFormat::Webm => "WebM",
            ContainerFormat::Mov => "Quicktime (MOV)",
            ContainerFormat::Avi => "AVI",
            ContainerFormat::Flv => "Flash Video (FLV)",
            ContainerFormat::Ts => "MPEG-TS",
            ContainerFormat::Wav => "WAV",
            ContainerFormat::Ogg => "Ogg",
            ContainerFormat::Flac => "FLAC",
        }
    }
}

impl Default for ContainerFormat {
    fn default() -> (res: Self)
        ensures
            res == ContainerFormat::Mp4,
    {
        ContainerFormat::Mp4
    }
}

/// A format's extension written in any mix of ASCII upper and lower case
/// is read back as that format: lowering it gives the extension itself.
pub proof fn law_extension_in_any_case(f: ContainerFormat, s: Seq<char>)
    requires
        all_ascii(s),
        s.map_values(|c: char| ascii_lower(c)) == f.spec_extension(),
    ensures
        ContainerFormat::spec_from_lower_extension(s.map_values(|c: char| ascii_lower(c))) == Some(f),
{
    law_extension_round_trip(f);
    let e = f.spec_extension();
    assert(e.map_values(|c: char| ascii_lower(c)) =~= e) by {
        assert forall|i: int| 0 <= i < e.len() implies ascii_lower(e[i]) == e[i] by {
            assert(e[i] == ascii_lower(s[i]));
        }
    }
}

/// A lowercase extension that is read as a format is that format's own
/// extension, except for the aliases `m4v` (MP4) and `mts` (MPEG-TS).
pub proof fn law_extension_names_its_format(e: Seq<char>)
    requires
        ContainerFormat::spec_from_lower_extension(e) is Some,
        e != "m4v"@,
        e != "mts"@,
    ensures
        ContainerFormat::spec_from_lower_extension(e).unwrap().spec_extension() == e,
{
}

/// Whether a text holds no path separator: no slash and no backslash.
pub open spec fn no_separator(s: Seq<char>) -> bool {
    !s.contains('/') && !s.contains('\\')
}

/// No format's extension holds a path separator.
pub proof fn lemma_extension_has_no_separator(f: ContainerFormat)
    ensures
        no_separator(f.spec_extension()),
{
    reveal_strlit("mp4");
    reveal_strlit("mkv");
    reveal_strlit("webm");
    reveal_strlit("mov");
    reveal_strlit("avi");
    reveal_strlit("flv");
    reveal_strlit("ts");
    reveal_strlit("mp3");
    reveal_strlit("flac");
    reveal_strlit("wav");
    reveal_strlit("ogg");
    let e = f.spec_extension();
    assert(forall|i: int| 0 <= i < e.len() ==> e[i] != '/' && e[i] != '\\');
}

/// Every format's own extension is ASCII with no uppercase letter, so reading
/// it back with `from_extension` gives the format again.
pub proof fn law_extension_round_trip(f: ContainerFormat)
    ensures
        all_ascii(f.spec_extension()),
        ContainerFormat::spec_from_lower_extension(
            f.spec_extension().map_values(|c: char| ascii_lower(c)),
        ) == Some(f),
{
    reveal_strlit("mp4");
    reveal_strlit("m4v");
    reveal_strlit("mkv");
    reveal_strlit("webm");
    reveal_strlit("mov");
    reveal_strlit("avi");
    reveal_strlit("flv");
    reveal_strlit("ts");
    reveal_strlit("mts");
    reveal_strlit("mp3");
    reveal_strlit("flac");
    reveal_strlit("wav");
    reveal_strlit("ogg");
    let e = f.spec_extension();
    assert(e.map_values(|c: char| ascii_lower(c)) =~= e);
    match f {
        ContainerFormat::Mp4 => {
        },
        ContainerFormat::Mkv => {
            assert("mkv"@[1] != "mp4"@[1]);
            assert("mkv"@[1] != "m4v"@[1]);
        },
        ContainerFormat::Webm => {
        },
        ContainerFormat::Mov => {
            assert("mov"@[1] != "mp4"@[1]);
            assert("mov"@[1] != "m4v"@[1]);
            assert("mov"@[1] != "mkv"@[1]);
        },
        ContainerFormat::Avi => {
            assert("avi"@[0] != "mp4"@[0]);
            assert("avi"@[0] != "m4v"@[0]);
            assert("avi"@[0] != "mkv"@[0]);
            assert("avi"@[0] != "mov"@[0]);
        },
        ContainerFormat::Flv => {
            assert("flv"@[0] != "mp4"@[0]);
            assert("flv"@[0] != "m4v"@[0]);
            assert("flv"@[0] != "mkv"@[0]);
            assert("flv"@[0] != "mov"@[0]);
            assert("flv"@[0] != "avi"@[0]);
        },
        ContainerFormat::Ts => {
        },
        ContainerFormat::Mp3 => {
            assert("mp3"@[2] != "mp4"@[2]);
            assert("mp3"@[1] != "m4v"@[1]);
            assert("mp3"@[1] != "mkv"@[1]);
            assert("mp3"@[1] != "mov"@[1]);
            assert("mp3"@[0] != "avi"@[0]);
            assert("mp3"@[0] != "flv"@[0]);
            assert("mp3"@[1] != "mts"@[1]);
        },
        ContainerFormat::Flac => {
            assert("flac"@[0] != "webm"@[0]);
        },
        ContainerFormat::Wav => {
            assert("wav"@[0] != "mp4"@[0]);
            assert("wav"@[0] != "m4v"@[0]);
            assert("wav"@[0] != "mkv"@[0]);
            assert("wav"@[0] != "mov"@[0]);
            assert("wav"@[0] != "avi"@[0]);
            assert("wav"@[0] != "flv"@[0]);
            assert("wav"@[0] != "mts"@[0]);
            assert("wav"@[0] != "mp3"@[0]);
        },
        ContainerFormat::Ogg => {
            assert("ogg"@[0] != "mp4"@[0]);
            assert("ogg"@[0] != "m4v"@[0]);
            assert("ogg"@[0] != "mkv"@[0]);
            assert("ogg"@[0] != "mov"@[0]);
            assert("ogg"@[0] != "avi"@[0]);
            assert("ogg"@[0] != "flv"@[0]);
            assert("ogg"@[0] != "mts"@[0]);
            assert("ogg"@[0] != "mp3"@[0]);
            assert("ogg"@[0] != "wav"@[0]);
        },
    }
}

/// Encoding speed preset.
#[derive(Debug, Clone, Copy, PartialEq, Eq, Hash, Structural)]
pub enum EncodingPreset {
    UltraFast,
    SuperFast,
    VeryFast,
    Faster,
    Fast,
    Medium,
    Slow,
    Slower,
    VerySlow,
    Placebo,
}

impl EncodingPreset {
    /// The x264/x265 preset name.
    pub open spec fn spec_ffmpeg_name(self) -> Seq<char> {
        match self {
            EncodingPreset::UltraFast => "ultrafast"@,
            EncodingPreset::SuperFast => "superfast"@,
            EncodingPreset::VeryFast => "veryfast"@,
            EncodingPreset::Faster => "faster"@,
            EncodingPreset::Fast => "fast"@,
            EncodingPreset::Medium => "medium"@,
            EncodingPreset::Slow => "slow"@,
            EncodingPreset::Slower => "slower"@,
            EncodingPreset::VerySlow => "veryslow"@,
            EncodingPreset::Placebo => "placebo"@,
        }
    }

    /// Returns the preset name used after `-preset`; it is also the display name.
    pub fn ffmpeg_name(&self) -> (res: &'static str)
        ensures
            res@ == self.spec_ffmpeg_name(),
    {
        match self {
            EncodingPreset::UltraFast => "ultrafast",
            EncodingPreset::SuperFast => "superfast",
            EncodingPreset::VeryFast => "veryfast",
            EncodingPreset::Faster => "faster",
            EncodingPreset::Fast => "fast",
            EncodingPreset::Medium => "medium",
            EncodingPreset::Slow => "slow",
            EncodingPreset::Slower => "slower",
            EncodingPreset::VerySlow => "veryslow",
            EncodingPreset::Placebo => "placebo",
        }
    }

    /// The presets that can be chosen, fastest first (`Placebo` is not among them).
    pub open spec fn spec_all() -> Seq<EncodingPreset> {
        seq![
            EncodingPreset::UltraFast,
            EncodingPreset::SuperFast,
            EncodingPreset::VeryFast,
            EncodingPreset::Faster,
            EncodingPreset::Fast,
            EncodingPreset::Medium,
            EncodingPreset::Slow,
            EncodingPreset::Slower,
            EncodingPreset::VerySlow,
        ]
    }

    /// Returns the selectable presets.
    pub fn all() -> (res: &'static [EncodingPreset])
        ensures
            res@ == Self::spec_all(),
    {
        &[
            EncodingPreset::UltraFast,
            EncodingPreset::SuperFast,
            EncodingPreset::VeryFast,
            EncodingPreset::Faster,
            EncodingPreset::Fast,
            EncodingPreset::Medium,
            EncodingPreset::Slow,
            EncodingPreset::Slower,
            EncodingPreset::VerySlow,
        ]
    }
}

impl Default for EncodingPreset {
    fn default() -> (res: Self)
        ensures
            res == EncodingPreset::Medium,
    {
        EncodingPreset::Medium
    }
}

/// Output format settings.
#[derive(Debug, Clone, Copy)]
pub struct OutputFormat {
    pub container: ContainerFormat,
    pub video_bitrate: Option<u32>,
    pub audio_bitrate: Option<u32>,
    pub crf: Option<u8>,
    pub preset: Option<EncodingPreset>,
}

impl Default for OutputFormat {
    fn default() -> (res: Self)
        ensures
            res.container == ContainerFormat::Mp4,
            res.video_bitrate.is_none(),
            res.audio_bitrate.is_none(),
            res.crf == Some(23u8),
            res.preset == Some(EncodingPreset::Medium),
    {
        OutputFormat {
            container: ContainerFormat::Mp4,
            video_bitrate: None,
            audio_bitrate: None,
            crf: Some(23),
            preset: Some(EncodingPreset::Medium),
        }
    }
}

} // verus!
