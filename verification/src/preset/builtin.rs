//! Presets: named settings for the command builder, and those built in.

use crate::domain::{AudioCodec, ContainerFormat, EncodingPreset, FilterChain, VideoCodec};
use crate::text::{extend_strings, string_of, views};
use vstd::prelude::*;
use ContainerFormat as C;
use EncodingPreset as E;
use PresetCategory as K;

verus! {

/// What a preset is for.
#[derive(Debug, Clone, Copy, PartialEq, Eq, Hash, Structural)]
pub enum PresetCategory {
    Compression,
    Conversion,
    AudioExtraction,
    Streaming,
    Social,
    Archive,
    Custom,
}

impl PresetCategory {
    /// The name shown for the category.
    pub open spec fn spec_display_name(self) -> Seq<char> {
        match self {
            PresetCategory::Compression => "Compression"@,
            PresetCategory::Conversion => "Conversion"@,
            PresetCategory::AudioExtraction => "Audio Extraction"@,
            PresetCategory::Streaming => "Streaming"@,
            PresetCategory::Social => "Social Media"@,
            PresetCategory::Archive => "Archive"@,
            PresetCategory::Custom => "Custom"@,
        }
    }

    /// Returns the name shown for the category.
    pub fn display_name(&self) -> (res: &'static str)
        ensures
            res@ == self.spec_display_name(),
    {
        match self {
            PresetCategory::Compression => "Compression",
            PresetCategory::Conversion => "Conversion",
            PresetCategory::AudioExtraction => "Audio Extraction",
            PresetCategory::Streaming => "Streaming",
            PresetCategory::Social => "Social Media",
            PresetCategory::Archive => "Archive",
            PresetCategory::Custom => "Custom",
        }
    }
}

/// Named settings for the command builder.
#[derive(Debug)]
pub struct Preset {
    pub name: String,
    pub description: String,
    pub category: PresetCategory,
    pub video_codec: VideoCodec,
    pub audio_codec: AudioCodec,
    pub container: ContainerFormat,
    pub crf: Option<u8>,
    pub encoding_preset: Option<EncodingPreset>,
    pub video_bitrate: Option<u32>,
    pub audio_bitrate: Option<u32>,
    pub filters: FilterChain,
    pub extra_args: Vec<String>,
}

impl Preset {
    /// Whether the preset holds the given settings, with no filters and no
    /// extra arguments.
    pub open spec fn holds(
        self,
        name: Seq<char>,
        description: Seq<char>,
        category: PresetCategory,
        video_codec: VideoCodec,
        audio_codec: AudioCodec,
        container: ContainerFormat,
        crf: Option<u8>,
        encoding_preset: Option<EncodingPreset>,
        audio_bitrate: Option<u32>,
    ) -> bool {
        &&& self.name@ == name
        &&& self.description@ == description
        &&& self.category == category
        &&& self.video_codec == video_codec
        &&& self.audio_codec == audio_codec
        &&& self.container == container
        &&& self.crf == crf
        &&& self.encoding_preset == encoding_preset
        &&& self.video_bitrate.is_none()
        &&& self.audio_bitrate == audio_bitrate
        &&& self.filters.video().len() == 0
        &&& self.filters.audio().len() == 0
        &&& self.extra_args@.len() == 0
    }

    /// A custom preset with the default codecs and container, quality 23, the
    /// medium encoding preset and 192 kbit/s audio.
    pub fn new(name: String, description: String) -> (res: Self)
        ensures
            res.holds(name@, description@, PresetCategory::Custom, VideoCodec::H264,
                AudioCodec::Aac, ContainerFormat::Mp4, Some(23u8), Some(EncodingPreset::Medium),
                Some(192u32)),
    {
        Preset {
            name,
            description,
            category: PresetCategory::Custom,
            video_codec: VideoCodec::H264,
            audio_codec: AudioCodec::Aac,
            container: ContainerFormat::Mp4,
            crf: Some(23),
            encoding_preset: Some(EncodingPreset::Medium),
            video_bitrate: None,
            audio_bitrate: Some(192),
            filters: FilterChain::new(),
            extra_args: Vec::new(),
        }
    }

    /// The preset in another category.
    pub fn with_category(self, category: PresetCategory) -> (res: Self)
        ensures
            res == (Preset { category, ..self }),
    {
        let mut p = self;
        p.category = category;
        p
    }

    /// The preset with another video codec.
    pub fn with_video_codec(self, codec: VideoCodec) -> (res: Self)
        ensures
            res == (Preset { video_codec: codec, ..self }),
    {
        let mut p = self;
        p.video_codec = codec;
        p
    }

    /// The preset with another audio codec.
    pub fn with_audio_codec(self, codec: AudioCodec) -> (res: Self)
        ensures
            res == (Preset { audio_codec: codec, ..self }),
    {
        let mut p = self;
        p.audio_codec = codec;
        p
    }

    /// The preset with another container.
    pub fn with_container(self, container: ContainerFormat) -> (res: Self)
        ensures
            res == (Preset { container, ..self }),
    {
        let mut p = self;
        p.container = container;
        p
    }

    /// The preset at a constant quality, which replaces any video bit rate.
    pub fn with_crf(self, crf: u8) -> (res: Self)
        ensures
            res == (Preset { crf: Some(crf), video_bitrate: None, ..self }),
    {
        let mut p = self;
        p.crf = Some(crf);
        p.video_bitrate = None;
        p
    }

    /// The preset with an encoding preset.
    pub fn with_encoding_preset(self, preset: EncodingPreset) -> (res: Self)
        ensures
            res == (Preset { encoding_preset: Some(preset), ..self }),
    {
        let mut p = self;
        p.encoding_preset = Some(preset);
        p
    }

    /// The preset with an audio bit rate in kbit/s.
    pub fn with_audio_bitrate(self, bitrate: u32) -> (res: Self)
        ensures
            res == (Preset { audio_bitrate: Some(bitrate), ..self }),
    {
        let mut p = self;
        p.audio_bitrate = Some(bitrate);
        p
    }
}

impl Clone for Preset {
    fn clone(&self) -> (res: Self)
        ensures
            res.name@ == self.name@,
            res.description@ == self.description@,
            res.category == self.category,
            res.video_codec == self.video_codec,
            res.audio_codec == self.audio_codec,
            res.container == self.container,
            res.crf == self.crf,
            res.encoding_preset == self.encoding_preset,
            res.video_bitrate == self.video_bitrate,
            res.audio_bitrate == self.audio_bitrate,
            res.filters.video() == self.filters.video(),
            res.filters.audio() == self.filters.audio(),
            views(res.extra_args@) == views(self.extra_args@),
    {
        let mut extra: Vec<String> = Vec::new();
        extend_strings(&mut extra, &self.extra_args);
        assert(views(extra@) =~= views(self.extra_args@));
        Preset {
            name: self.name.clone(),
            description: self.description.clone(),
            category: self.category,
            video_codec: self.video_codec,
            audio_codec: self.audio_codec,
            container: self.container,
            crf: self.crf,
            encoding_preset: self.encoding_preset,
            video_bitrate: self.video_bitrate,
            audio_bitrate: self.audio_bitrate,
            filters: self.filters.clone(),
            extra_args: extra,
        }
    }
}

/// Whether `s` lists the built-in presets, in order.
pub open spec fn is_builtin_list(s: Seq<Preset>) -> bool {
    &&& s.len() == 13
    &&& s[0].holds("High quality compress"@,
        "High quality H.265 compression good with file size reduction"@, K::Compression,
        VideoCodec::H265, AudioCodec::Aac, C::Mp4, Some(23u8), Some(E::Slow), Some(192u32))
    &&& s[1].holds("Fast compress"@, "Quick compression with H.264"@, K::Compression,
        VideoCodec::H264, AudioCodec::Aac, C::Mp4, Some(26u8), Some(E::Fast), Some(128u32))
    &&& s[2].holds("Max Compression"@, "Agressive compression with H.265"@, K::Compression,
        VideoCodec::H265, AudioCodec::Opus, C::Mkv, Some(30u8), Some(E::Slow), Some(96u32))
    &&& s[3].holds("WebM VP9"@, "Convert to WebM format with VP9 and Opus"@, K::Conversion,
        VideoCodec::Vp9, AudioCodec::Opus, C::Webm, Some(31u8), Some(E::Medium), Some(128u32))
    &&& s[4].holds("ProRes 422"@, "Convert to ProRes for editing"@, K::Conversion,
        VideoCodec::ProRes, AudioCodec::Pcm, C::Mov, Some(23u8), Some(E::Medium), Some(192u32))
    &&& s[5].holds("Extract MP3"@, "Extract audio to MP3 Format"@, K::AudioExtraction,
        VideoCodec::NoVideo, AudioCodec::Mp3, C::Mp3, Some(23u8), Some(E::Medium), Some(320u32))
    &&& s[6].holds("Extract FLAC"@, "Extract audio to FLAC"@, K::AudioExtraction,
        VideoCodec::NoVideo, AudioCodec::Flac, C::Flac, Some(23u8), Some(E::Medium), Some(192u32))
    &&& s[7].holds("Extract Opus"@, "Extract audio to Opus format"@, K::AudioExtraction,
        VideoCodec::NoVideo, AudioCodec::Opus, C::Ogg, Some(23u8), Some(E::Medium), Some(192u32))
    &&& s[8].holds("Youtube Upload"@, "For Youtube Uploads"@, K::Streaming, VideoCodec::H264,
        AudioCodec::Aac, C::Mp4, Some(18u8), Some(E::Slow), Some(320u32))
    &&& s[9].holds("Twitch Stream"@, "For Twitch Streaming"@, K::Social, VideoCodec::H264,
        AudioCodec::Aac, C::Mp4, Some(23u8), Some(E::Medium), Some(128u32))
    &&& s[10].holds("Reels"@, "For Reels"@, K::Social, VideoCodec::H264, AudioCodec::Aac, C::Mp4,
        Some(20u8), Some(E::Medium), Some(192u32))
    &&& s[11].holds("Kind of lossless archive"@, "Lossless copy for archival"@, K::Archive,
        VideoCodec::Copy, AudioCodec::Copy, C::Mkv, Some(23u8), Some(E::Medium), Some(192u32))
    &&& s[12].holds("High Quality Archive"@, "Very HQ H.265 for long term storage"@, K::Archive,
        VideoCodec::H265, AudioCodec::Flac, C::Mkv, Some(16u8), Some(E::VerySlow), Some(192u32))
}

/// A preset built from `new` with the given name and description.
fn base(name: &str, description: &str) -> (res: Preset)
    ensures
        res.holds(name@, description@, PresetCategory::Custom, VideoCodec::H264, AudioCodec::Aac,
            ContainerFormat::Mp4, Some(23u8), Some(EncodingPreset::Medium), Some(192u32)),
{
    Preset::new(string_of(name), string_of(description))
}

/// The presets that come with the program.
pub fn builtin_presets() -> (res: Vec<Preset>)
    ensures
        is_builtin_list(res@),
{
    let mut v: Vec<Preset> = Vec::new();
    v.push(
        base("High quality compress", "High quality H.265 compression good with file size reduction")
            .with_category(PresetCategory::Compression)
            .with_video_codec(VideoCodec::H265)
            .with_audio_codec(AudioCodec::Aac)
            .with_container(ContainerFormat::Mp4)
            .with_crf(23)
            .with_encoding_preset(EncodingPreset::Slow)
            .with_audio_bitrate(192),
    );
    v.push(
        base("Fast compress", "Quick compression with H.264")
            .with_category(PresetCategory::Compression)
            .with_video_codec(VideoCodec::H264)
            .with_audio_codec(AudioCodec::Aac)
            .with_container(ContainerFormat::Mp4)
            .with_crf(26)
            .with_encoding_preset(EncodingPreset::Fast)
            .with_audio_bitrate(128),
    );
    v.push(
        base("Max Compression", "Agressive compression with H.265")
            .with_category(PresetCategory::Compression)
            .with_video_codec(VideoCodec::H265)
            .with_audio_codec(AudioCodec::Opus)
            .with_container(ContainerFormat::Mkv)
            .with_crf(30)
            .with_encoding_preset(EncodingPreset::Slow)
            .with_audio_bitrate(96),
    );
    v.push(
        base("WebM VP9", "Convert to WebM format with VP9 and Opus")
            .with_category(PresetCategory::Conversion)
            .with_video_codec(VideoCodec::Vp9)
            .with_audio_codec(AudioCodec::Opus)
            .with_container(ContainerFormat::Webm)
            .with_crf(31)
            .with_audio_bitrate(128),
    );
    v.push(
        base("ProRes 422", "Convert to ProRes for editing")
            .with_category(PresetCategory::Conversion)
            .with_video_codec(VideoCodec::ProRes)
            .with_audio_codec(AudioCodec::Pcm)
            .with_container(ContainerFormat::Mov),
    );
    v.push(
        base("Extract MP3", "Extract audio to MP3 Format")
            .with_category(PresetCategory::AudioExtraction)
            .with_video_codec(VideoCodec::NoVideo)
            .with_audio_codec(AudioCodec::Mp3)
            .with_container(ContainerFormat::Mp3)
            .with_audio_bitrate(320),
    );
    v.push(
        base("Extract FLAC", "Extract audio to FLAC")
            .with_category(PresetCategory::AudioExtraction)
            .with_video_codec(VideoCodec::NoVideo)
            .with_audio_codec(AudioCodec::Flac)
            .with_container(ContainerFormat::Flac),
    );
    v.push(
        base("Extract Opus", "Extract audio to Opus format")
            .with_category(PresetCategory::AudioExtraction)
            .with_video_codec(VideoCodec::NoVideo)
            .with_audio_codec(AudioCodec::Opus)
            .with_container(ContainerFormat::Ogg)
            .with_audio_bitrate(192),
    );
    v.push(
        base("Youtube Upload", "For Youtube Uploads")
            .with_category(PresetCategory::Streaming)
            .with_video_codec(VideoCodec::H264)
            .with_audio_codec(AudioCodec::Aac)
            .with_container(ContainerFormat::Mp4)
            .with_crf(18)
            .with_encoding_preset(EncodingPreset::Slow)
            .with_audio_bitrate(320),
    );
    v.push(
        base("Twitch Stream", "For Twitch Streaming")
            .with_category(PresetCategory::Social)
            .with_video_codec(VideoCodec::H264)
            .with_audio_codec(AudioCodec::Aac)
            .with_container(ContainerFormat::Mp4)
            .with_crf(23)
            .with_encoding_preset(EncodingPreset::Medium)
            .with_audio_bitrate(128),
    );
    v.push(
        base("Reels", "For Reels")
            .with_category(PresetCategory::Social)
            .with_video_codec(VideoCodec::H264)
            .with_audio_codec(AudioCodec::Aac)
            .with_container(ContainerFormat::Mp4)
            .with_crf(20)
            .with_encoding_preset(EncodingPreset::Medium)
            .with_audio_bitrate(192),
    );
    v.push(
        base("Kind of lossless archive", "Lossless copy for archival")
            .with_category(PresetCategory::Archive)
            .with_video_codec(VideoCodec::Copy)
            .with_audio_codec(AudioCodec::Copy)
            .with_container(ContainerFormat::Mkv),
    );
    v.push(
        base("High Quality Archive", "Very HQ H.265 for long term storage")
            .with_category(PresetCategory::Archive)
            .with_video_codec(VideoCodec::H265)
            .with_audio_codec(AudioCodec::Flac)
            .with_container(ContainerFormat::Mkv)
            .with_crf(16)
            .with_encoding_preset(EncodingPreset::VerySlow),
    );
    v
}

} // verus!
