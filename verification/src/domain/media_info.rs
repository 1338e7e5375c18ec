//! What FFprobe reports about a media file: its container and its streams.
//!
//! Tags are kept as key and value pairs. Floating-point quantities (durations,
//! frame rates) are carried as bit patterns; the surrounding program computes
//! with them.

use crate::quantity::FloatBits;
use crate::text::{push_str, push_u64, nat_text, str_eq, string_of};
use vstd::prelude::*;

verus! {

/// A data stream.
#[derive(Debug, Clone)]
pub struct DataStream {
    pub index: u32,
    pub codec_name: String,
    pub tags: Vec<(String, String)>,
}

/// A subtitle stream.
#[derive(Debug, Clone)]
pub struct SubtitleStream {
    pub index: u32,
    pub codec_name: String,
    pub codec_long_name: Option<String>,
    pub language: Option<String>,
    pub tags: Vec<(String, String)>,
}

/// An audio stream.
#[derive(Debug, Clone)]
pub struct AudioStream {
    pub index: u32,
    pub codec_name: String,
    pub codec_long_name: Option<String>,
    pub profile: Option<String>,
    pub sample_rate: Option<u32>,
    pub channels: Option<u32>,
    pub channel_layout: Option<String>,
    pub sample_fmt: Option<String>,
    pub bit_rate: Option<u64>,
    pub bits_per_sample: Option<u32>,
    pub tags: Vec<(String, String)>,
}

/// The text of an optional string, if there is one.
pub open spec fn opt_view(o: Option<String>) -> Option<Seq<char>> {
    match o {
        Some(s) => Some(s@),
        None => None,
    }
}

/// How a channel layout, or else a channel count, is described.
pub open spec fn channel_text(layout: Option<Seq<char>>, channels: Option<u32>) -> Seq<char> {
    match layout {
        Some(l) => if l == "mono"@ {
            "Mono"@
        } else if l == "stereo"@ {
            "Stereo"@
        } else if l == "5.1"@ || l == "5.1(side)"@ {
            "5.1 Surround"@
        } else if l == "7.1"@ {
            "7.1 Surround"@
        } else {
            l
        },
        None => match channels {
            Some(c) => nat_text(c as nat) + " channel(s)"@,
            None => "Unknown"@,
        },
    }
}

impl AudioStream {
    /// Describes the channels: a named layout, the layout as given, or the
    /// number of channels.
    pub fn channel_description(&self) -> (res: String)
        ensures
            res@ == channel_text(opt_view(self.channel_layout), self.channels),
    {
        match &self.channel_layout {
            Some(layout) => {
                let l = layout.as_str();
                if str_eq(l, "mono") {
                    string_of("Mono")
                } else if str_eq(l, "stereo") {
                    string_of("Stereo")
                } else if str_eq(l, "5.1") || str_eq(l, "5.1(side)") {
                    string_of("5.1 Surround")
                } else if str_eq(l, "7.1") {
                    string_of("7.1 Surround")
                } else {
                    layout.clone()
                }
            },
            None => match self.channels {
                Some(c) => {
                    let mut s = String::new();
                    push_u64(&mut s, c as u64);
                    push_str(&mut s, " channel(s)");
                    s
                },
                None => string_of("Unknown"),
            },
        }
    }
}

/// A video stream.
#[derive(Debug, Clone)]
pub struct VideoStream {
    pub index: u32,
    pub codec_name: String,
    pub codec_long_name: Option<String>,
    pub profile: Option<String>,
    pub width: u32,
    pub height: u32,
    pub coded_width: Option<u32>,
    pub coded_height: Option<u32>,
    pub display_aspect_ratio: Option<String>,
    pub sample_aspect_ratio: Option<String>,
    pub pix_fmt: Option<String>,
    pub frame_rate: Option<FloatBits>,
    pub avg_frame_rate: Option<FloatBits>,
    pub bit_rate: Option<u64>,
    pub bits_per_raw_sample: Option<u32>,
    pub color_space: Option<String>,
    pub color_range: Option<String>,
    pub color_transfer: Option<String>,
    pub color_primaries: Option<String>,
    pub tags: Vec<(String, String)>,
}

/// The resolution class of a picture of `w` by `h` pixels.
pub open spec fn resolution_class_of(w: u32, h: u32) -> Seq<char> {
    if w >= 7680 || h >= 4320 {
        "8K UHD"@
    } else if w >= 3840 || h >= 2160 {
        "4K UHD"@
    } else if w >= 2560 || h >= 1440 {
        "1440p"@
    } else if w >= 1920 || h >= 1080 {
        "1080p"@
    } else if w >= 1280 || h >= 720 {
        "720p"@
    } else if w >= 854 || h >= 480 {
        "480p"@
    } else {
        "SD"@
    }
}

/// A picture is classed by the highest class that either of its dimensions
/// reaches on its own: 8K UHD from 7680 wide or 4320 high, 4K UHD from 3840
/// or 2160, 1440p from 2560 or 1440, 1080p from 1920 or 1080, 720p from 1280
/// or 720, 480p from 854 or 480, and SD below all of these.
pub proof fn law_resolution_classes(w: u32, h: u32)
    ensures
        w >= 7680 || h >= 4320 ==> resolution_class_of(w, h) == "8K UHD"@,
        w < 7680 && h < 4320 && (w >= 3840 || h >= 2160) ==> resolution_class_of(w, h) == "4K UHD"@,
        w < 3840 && h < 2160 && (w >= 2560 || h >= 1440) ==> resolution_class_of(w, h) == "1440p"@,
        w < 2560 && h < 1440 && (w >= 1920 || h >= 1080) ==> resolution_class_of(w, h) == "1080p"@,
        w < 1920 && h < 1080 && (w >= 1280 || h >= 720) ==> resolution_class_of(w, h) == "720p"@,
        w < 1280 && h < 720 && (w >= 854 || h >= 480) ==> resolution_class_of(w, h) == "480p"@,
        w < 854 && h < 480 ==> resolution_class_of(w, h) == "SD"@,
{
}

impl VideoStream {
    /// Whether the transfer characteristics are those of HDR video (PQ or HLG).
    pub fn is_hdr(&self) -> (res: bool)
        ensures
            res == (opt_view(self.color_transfer) == Some("smpte2084"@)
                || opt_view(self.color_transfer) == Some("arib-std-b67"@)),
    {
        match &self.color_transfer {
            Some(t) => str_eq(t.as_str(), "smpte2084") || str_eq(t.as_str(), "arib-std-b67"),
            None => false,
        }
    }

    /// The resolution class: 8K, 4K, 1440p, 1080p, 720p, 480p or SD.
    pub fn resolution_class(&self) -> (res: &'static str)
        ensures
            res@ == resolution_class_of(self.width, self.height),
    {
        let w = self.width;
        let h = self.height;
        if w >= 7680 || h >= 4320 {
            "8K UHD"
        } else if w >= 3840 || h >= 2160 {
            "4K UHD"
        } else if w >= 2560 || h >= 1440 {
            "1440p"
        } else if w >= 1920 || h >= 1080 {
            "1080p"
        } else if w >= 1280 || h >= 720 {
            "720p"
        } else if w >= 854 || h >= 480 {
            "480p"
        } else {
            "SD"
        }
    }
}

/// A stream of a media file.
#[derive(Debug, Clone)]
pub enum StreamInfo {
    Video(VideoStream),
    Audio(AudioStream),
    Subtitle(SubtitleStream),
    Data(DataStream),
}

impl StreamInfo {
    /// The index of the stream in the file.
    pub open spec fn spec_index(self) -> u32 {
        match self {
            StreamInfo::Video(s) => s.index,
            StreamInfo::Audio(s) => s.index,
            StreamInfo::Subtitle(s) => s.index,
            StreamInfo::Data(s) => s.index,
        }
    }

    /// Returns the index of the stream in the file.
    pub fn index(&self) -> (res: u32)
        ensures
            res == self.spec_index(),
    {
        match self {
            StreamInfo::Video(s) => s.index,
            StreamInfo::Audio(s) => s.index,
            StreamInfo::Subtitle(s) => s.index,
            StreamInfo::Data(s) => s.index,
        }
    }

    /// The name of the kind of stream.
    pub open spec fn spec_kind_name(self) -> Seq<char> {
        match self {
            StreamInfo::Video(_) => "Video"@,
            StreamInfo::Audio(_) => "Audio"@,
            StreamInfo::Subtitle(_) => "Subtitle"@,
            StreamInfo::Data(_) => "Data"@,
        }
    }

    /// Returns the name of the kind of stream.
    pub fn kind_name(&self) -> (res: &'static str)
        ensures
            res@ == self.spec_kind_name(),
    {
        match self {
            StreamInfo::Video(_) => "Video",
            StreamInfo::Audio(_) => "Audio",
            StreamInfo::Subtitle(_) => "Subtitle",
            StreamInfo::Data(_) => "Data",
        }
    }
}

/// What is known of the container.
#[derive(Debug, Clone)]
pub struct FormatInfo {
    pub format_name: String,
    pub format_long_name: Option<String>,
    pub duration: Option<FloatBits>,
    pub size: Option<u64>,
    pub bit_rate: Option<u64>,
    pub tags: Vec<(String, String)>,
}

/// What FFprobe reported about a file.
#[derive(Debug, Clone)]
pub struct MediaInfo {
    pub path: String,
    pub format: FormatInfo,
    pub streams: Vec<StreamInfo>,
}

/// The video streams among `s`, in order.
pub open spec fn videos_of(s: Seq<StreamInfo>) -> Seq<VideoStream>
    decreases s.len(),
{
    if s.len() == 0 {
        Seq::empty()
    } else {
        videos_of(s.drop_last()) + match s.last() {
            StreamInfo::Video(v) => seq![v],
            _ => Seq::empty(),
        }
    }
}

/// The audio streams among `s`, in order.
pub open spec fn audios_of(s: Seq<StreamInfo>) -> Seq<AudioStream>
    decreases s.len(),
{
    if s.len() == 0 {
        Seq::empty()
    } else {
        audios_of(s.drop_last()) + match s.last() {
            StreamInfo::Audio(a) => seq![a],
            _ => Seq::empty(),
        }
    }
}

/// The streams of a prefix come first among those of the whole.
proof fn lemma_videos_split(s: Seq<StreamInfo>, k: int)
    requires
        0 <= k <= s.len(),
    ensures
        videos_of(s) == videos_of(s.take(k)) + videos_of(s.skip(k)),
    decreases s.len(),
{
    if k == s.len() {
        assert(s.take(k) =~= s);
        assert(s.skip(k) =~= Seq::<StreamInfo>::empty());
        assert(videos_of(s) =~= videos_of(s.take(k)) + Seq::<VideoStream>::empty());
    } else {
        lemma_videos_split(s.drop_last(), k);
        assert(s.drop_last().take(k) =~= s.take(k));
        assert(s.skip(k).drop_last() =~= s.drop_last().skip(k));
        assert(s.skip(k).last() == s.last());
        assert(videos_of(s) =~= videos_of(s.take(k)) + videos_of(s.skip(k)));
    }
}

/// The streams of a prefix come first among those of the whole.
proof fn lemma_audios_split(s: Seq<StreamInfo>, k: int)
    requires
        0 <= k <= s.len(),
    ensures
        audios_of(s) == audios_of(s.take(k)) + audios_of(s.skip(k)),
    decreases s.len(),
{
    if k == s.len() {
        assert(s.take(k) =~= s);
        assert(s.skip(k) =~= Seq::<StreamInfo>::empty());
        assert(audios_of(s) =~= audios_of(s.take(k)) + Seq::<AudioStream>::empty());
    } else {
        lemma_audios_split(s.drop_last(), k);
        assert(s.drop_last().take(k) =~= s.take(k));
        assert(s.skip(k).drop_last() =~= s.drop_last().skip(k));
        assert(s.skip(k).last() == s.last());
        assert(audios_of(s) =~= audios_of(s.take(k)) + audios_of(s.skip(k)));
    }
}

/// The first element of a sequence, if it has one.
pub open spec fn first_of<T>(s: Seq<T>) -> Option<T> {
    if s.len() > 0 { Some(s[0]) } else { None }
}

impl MediaInfo {
    /// Returns the first video stream.
    pub fn video_stream(&self) -> (res: Option<&VideoStream>)
        ensures
            res matches Some(v) ==> first_of(videos_of(self.streams@)) == Some(*v),
            res is None ==> first_of(videos_of(self.streams@)) is None,
    {
        let mut i: usize = 0;
        while i < self.streams.len()
            invariant
                i <= self.streams@.len(),
                videos_of(self.streams@.take(i as int)).len() == 0,
            decreases self.streams@.len() - i,
        {
            proof {
                assert(self.streams@.take(i + 1).drop_last() =~= self.streams@.take(i as int));
            }
            match &self.streams[i] {
                StreamInfo::Video(v) => {
                    proof {
                        lemma_videos_split(self.streams@, i + 1);
                        assert(videos_of(self.streams@.take(i + 1)) =~= seq![*v]);
                    }
                    return Some(v);
                },
                _ => {},
            }
            i = i + 1;
        }
        proof {
            assert(self.streams@.take(i as int) =~= self.streams@);
        }
        None
    }

    /// Returns the first audio stream.
    pub fn audio_stream(&self) -> (res: Option<&AudioStream>)
        ensures
            res matches Some(a) ==> first_of(audios_of(self.streams@)) == Some(*a),
            res is None ==> first_of(audios_of(self.streams@)) is None,
    {
        let mut i: usize = 0;
        while i < self.streams.len()
            invariant
                i <= self.streams@.len(),
                audios_of(self.streams@.take(i as int)).len() == 0,
            decreases self.streams@.len() - i,
        {
            proof {
                assert(self.streams@.take(i + 1).drop_last() =~= self.streams@.take(i as int));
            }
            match &self.streams[i] {
                StreamInfo::Audio(a) => {
                    proof {
                        lemma_audios_split(self.streams@, i + 1);
                        assert(audios_of(self.streams@.take(i + 1)) =~= seq![*a]);
                    }
                    return Some(a);
                },
                _ => {},
            }
            i = i + 1;
        }
        proof {
            assert(self.streams@.take(i as int) =~= self.streams@);
        }
        None
    }

    /// Returns the video streams, in order.
    pub fn video_streams(&self) -> (res: Vec<&VideoStream>)
        ensures
            res@.map_values(|r: &VideoStream| *r) == videos_of(self.streams@),
    {
        let mut res: Vec<&VideoStream> = Vec::new();
        let mut i: usize = 0;
        while i < self.streams.len()
            invariant
                i <= self.streams@.len(),
                res@.map_values(|r: &VideoStream| *r) == videos_of(self.streams@.take(i as int)),
            decreases self.streams@.len() - i,
        {
            proof {
                assert(self.streams@.take(i + 1).drop_last() =~= self.streams@.take(i as int));
            }
            match &self.streams[i] {
                StreamInfo::Video(v) => {
                    res.push(v);
                },
                _ => {},
            }
            i = i + 1;
            assert(res@.map_values(|r: &VideoStream| *r) =~= videos_of(self.streams@.take(i as int)));
        }
        proof {
            assert(self.streams@.take(i as int) =~= self.streams@);
        }
        res
    }

    /// Returns the audio streams, in order.
    pub fn audio_streams(&self) -> (res: Vec<&AudioStream>)
        ensures
            res@.map_values(|r: &AudioStream| *r) == audios_of(self.streams@),
    {
        let mut res: Vec<&AudioStream> = Vec::new();
        let mut i: usize = 0;
        while i < self.streams.len()
            invariant
                i <= self.streams@.len(),
                res@.map_values(|r: &AudioStream| *r) == audios_of(self.streams@.take(i as int)),
            decreases self.streams@.len() - i,
        {
            proof {
                assert(self.streams@.take(i + 1).drop_last() =~= self.streams@.take(i as int));
            }
            match &self.streams[i] {
                StreamInfo::Audio(a) => {
                    res.push(a);
                },
                _ => {},
            }
            i = i + 1;
            assert(res@.map_values(|r: &AudioStream| *r) =~= audios_of(self.streams@.take(i as int)));
        }
        proof {
            assert(self.streams@.take(i as int) =~= self.streams@);
        }
        res
    }

    /// Returns the duration of the file, when known.
    pub fn duration_seconds(&self) -> (res: Option<FloatBits>)
        ensures
            res == self.format.duration,
    {
        self.format.duration
    }

    /// Returns the size of the file in bytes, when known.
    pub fn file_size(&self) -> (res: Option<u64>)
        ensures
            res == self.format.size,
    {
        self.format.size
    }

    /// Renders the resolution of the first video stream as `WxH`, or `N/A`.
    pub fn resolution_string(&self) -> (res: String)
        ensures
            res@ == match first_of(videos_of(self.streams@)) {
                Some(v) => nat_text(v.width as nat) + "x"@ + nat_text(v.height as nat),
                None => "N/A"@,
            },
    {
        match self.video_stream() {
            Some(v) => {
                let mut s = String::new();
                push_u64(&mut s, v.width as u64);
                push_str(&mut s, "x");
                push_u64(&mut s, v.height as u64);
                s
            },
            None => string_of("N/A"),
        }
    }
}

} // verus!
