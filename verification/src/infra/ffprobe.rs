//! The FFprobe executor: which binary runs, the arguments it is given, and
//! how its report is turned into a `MediaInfo`.
//!
//! The surrounding program runs the process and reads its JSON report into a
//! `RawProbeOutput`; floating-point fields (the duration, frame rates) are read
//! there and arrive here as bit patterns.

use crate::domain::media_info::{
    AudioStream, DataStream, FormatInfo, MediaInfo, StreamInfo, SubtitleStream, VideoStream,
};
use crate::infra::process::ProcessError;
use crate::quantity::FloatBits;
use crate::text::{parse_unsigned, parsed_unsigned, push_str, str_eq, string_of, views};
use vstd::prelude::*;

verus! {

/// Inspects media files with a given binary.
#[derive(Debug, Clone)]
pub struct FFProbeExecutor {
    pub binary_path: String,
}

/// The container part of FFprobe's report.
#[derive(Debug)]
pub struct RawFormat {
    pub format_name: String,
    pub format_long_name: Option<String>,
    pub duration: Option<FloatBits>,
    pub size: Option<String>,
    pub bit_rate: Option<String>,
    pub tags: Option<Vec<(String, String)>>,
}

/// One stream of FFprobe's report.
#[derive(Debug)]
pub struct RawStream {
    pub index: u32,
    pub codec_name: String,
    pub codec_long_name: Option<String>,
    pub codec_type: String,
    pub profile: Option<String>,
    pub width: Option<u32>,
    pub height: Option<u32>,
    pub coded_width: Option<u32>,
    pub coded_height: Option<u32>,
    pub display_aspect_ratio: Option<String>,
    pub sample_aspect_ratio: Option<String>,
    pub pix_fmt: Option<String>,
    pub r_frame_rate: Option<FloatBits>,
    pub avg_frame_rate: Option<FloatBits>,
    pub bit_rate: Option<String>,
    pub bits_per_raw_sample: Option<String>,
    pub color_space: Option<String>,
    pub color_range: Option<String>,
    pub color_transfer: Option<String>,
    pub color_primaries: Option<String>,
    pub sample_rate: Option<String>,
    pub channels: Option<u32>,
    pub channel_layout: Option<String>,
    pub sample_fmt: Option<String>,
    pub bits_per_sample: Option<u32>,
    pub tags: Option<Vec<(String, String)>>,
}

/// FFprobe's report on a file.
#[derive(Debug)]
pub struct RawProbeOutput {
    pub format: RawFormat,
    pub streams: Vec<RawStream>,
}

/// A number read from an optional text, if the text is there and holds one.
pub open spec fn number_in(o: Option<String>, max: nat) -> Option<nat> {
    match o {
        Some(s) => parsed_unsigned(s@, max),
        None => None,
    }
}

/// The number in an optional text as a `u64`.
pub open spec fn u64_in(o: Option<String>) -> Option<u64> {
    match number_in(o, u64::MAX as nat) {
        Some(v) => Some(v as u64),
        None => None,
    }
}

/// The number in an optional text as a `u32`.
pub open spec fn u32_in(o: Option<String>) -> Option<u32> {
    match number_in(o, u32::MAX as nat) {
        Some(v) => Some(v as u32),
        None => None,
    }
}

/// The tags, or none.
pub open spec fn tags_or_empty(o: Option<Vec<(String, String)>>) -> Seq<(String, String)> {
    match o {
        Some(t) => t@,
        None => Seq::empty(),
    }
}

/// The value of the first tag named `key`.
pub open spec fn tag_value(tags: Seq<(String, String)>, key: Seq<char>) -> Option<String>
    decreases tags.len(),
{
    if tags.len() == 0 {
        None
    } else if tags[0].0@ == key {
        Some(tags[0].1)
    } else {
        tag_value(tags.drop_first(), key)
    }
}

/// Reads an optional number of at most `max`.
fn read_number(o: &Option<String>, max: u64) -> (res: Option<u64>)
    ensures
        res matches Some(v) ==> number_in(*o, max as nat) == Some(v as nat),
        res is None ==> number_in(*o, max as nat) is None,
{
    match o {
        Some(s) => parse_unsigned(s.as_str(), max),
        None => None,
    }
}

/// Reads an optional `u64`.
fn read_u64(o: &Option<String>) -> (res: Option<u64>)
    ensures
        res == u64_in(*o),
{
    read_number(o, u64::MAX)
}

/// Reads an optional `u32`.
fn read_u32(o: &Option<String>) -> (res: Option<u32>)
    ensures
        res == u32_in(*o),
{
    match read_number(o, 4294967295u64) {
        Some(v) => Some(v as u32),
        None => None,
    }
}

/// The tags, or an empty list.
fn take_tags(o: Option<Vec<(String, String)>>) -> (res: Vec<(String, String)>)
    ensures
        res@ == tags_or_empty(o),
{
    match o {
        Some(t) => t,
        None => Vec::new(),
    }
}

/// The value of the first tag named `key`.
fn find_tag(tags: &Vec<(String, String)>, key: &str) -> (res: Option<String>)
    ensures
        res == tag_value(tags@, key@),
{
    let mut i: usize = 0;
    assert(tags@.skip(0) =~= tags@);
    while i < tags.len()
        invariant
            i <= tags@.len(),
            tag_value(tags@, key@) == tag_value(tags@.skip(i as int), key@),
        decreases tags@.len() - i,
    {
        assert(tags@.skip(i as int).drop_first() =~= tags@.skip(i + 1));
        if str_eq(tags[i].0.as_str(), key) {
            return Some(tags[i].1.clone());
        }
        i = i + 1;
    }
    None
}

/// Whether `v` is the video stream FFprobe's `raw` stream describes.
pub open spec fn video_from_raw(raw: RawStream, v: VideoStream) -> bool {
    &&& v.index == raw.index
    &&& v.codec_name == raw.codec_name
    &&& v.codec_long_name == raw.codec_long_name
    &&& v.profile == raw.profile
    &&& v.width == (match raw.width { Some(w) => w, None => 0 })
    &&& v.height == (match raw.height { Some(h) => h, None => 0 })
    &&& v.coded_width == raw.coded_width
    &&& v.coded_height == raw.coded_height
    &&& v.display_aspect_ratio == raw.display_aspect_ratio
    &&& v.sample_aspect_ratio == raw.sample_aspect_ratio
    &&& v.pix_fmt == raw.pix_fmt
    &&& v.frame_rate == raw.r_frame_rate
    &&& v.avg_frame_rate == raw.avg_frame_rate
    &&& v.bit_rate == u64_in(raw.bit_rate)
    &&& v.bits_per_raw_sample == u32_in(raw.bits_per_raw_sample)
    &&& v.color_space == raw.color_space
    &&& v.color_range == raw.color_range
    &&& v.color_transfer == raw.color_transfer
    &&& v.color_primaries == raw.color_primaries
    &&& v.tags@ == tags_or_empty(raw.tags)
}

/// Whether `a` is the audio stream FFprobe's `raw` stream describes.
pub open spec fn audio_from_raw(raw: RawStream, a: AudioStream) -> bool {
    &&& a.index == raw.index
    &&& a.codec_name == raw.codec_name
    &&& a.codec_long_name == raw.codec_long_name
    &&& a.profile == raw.profile
    &&& a.sample_rate == u32_in(raw.sample_rate)
    &&& a.channels == raw.channels
    &&& a.channel_layout == raw.channel_layout
    &&& a.sample_fmt == raw.sample_fmt
    &&& a.bit_rate == u64_in(raw.bit_rate)
    &&& a.bits_per_sample == raw.bits_per_sample
    &&& a.tags@ == tags_or_empty(raw.tags)
}

/// Whether `s` is the stream FFprobe's `raw` stream describes: by its type,
/// video, audio, subtitles, or data for any other type.
pub open spec fn stream_from_raw(raw: RawStream, s: StreamInfo) -> bool {
    if raw.codec_type@ == "video"@ {
        s matches StreamInfo::Video(v) && video_from_raw(raw, v)
    } else if raw.codec_type@ == "audio"@ {
        s matches StreamInfo::Audio(a) && audio_from_raw(raw, a)
    } else if raw.codec_type@ == "subtitle"@ {
        s matches StreamInfo::Subtitle(t) && t.index == raw.index && t.codec_name == raw.codec_name
            && t.codec_long_name == raw.codec_long_name
            && t.language == tag_value(tags_or_empty(raw.tags), "language"@)
            && t.tags@ == tags_or_empty(raw.tags)
    } else {
        s matches StreamInfo::Data(d) && d.index == raw.index && d.codec_name == raw.codec_name
            && d.tags@ == tags_or_empty(raw.tags)
    }
}

/// Whether `f` is the container FFprobe's `raw` format describes.
pub open spec fn format_from_raw(raw: RawFormat, f: FormatInfo) -> bool {
    &&& f.format_name == raw.format_name
    &&& f.format_long_name == raw.format_long_name
    &&& f.duration == raw.duration
    &&& f.size == u64_in(raw.size)
    &&& f.bit_rate == u64_in(raw.bit_rate)
    &&& f.tags@ == tags_or_empty(raw.tags)
}

impl FFProbeExecutor {
    /// An executor of the `ffprobe` found on the search path.
    pub fn new() -> (res: Self)
        ensures
            res.binary_path@ == "ffprobe"@,
    {
        FFProbeExecutor { binary_path: string_of("ffprobe") }
    }

    /// An executor of the given binary.
    pub fn with_binary(binary_path: String) -> (res: Self)
        ensures
            res.binary_path == binary_path,
    {
        FFProbeExecutor { binary_path }
    }

    /// The arguments FFprobe is run with to inspect `path`: quiet, a JSON
    /// report of the format and the streams.
    pub fn probe_args(path: &str) -> (res: Vec<String>)
        ensures
            views(res@) == seq!["-v"@, "quiet"@, "-print_format"@, "json"@, "-show_format"@,
                "-show_streams"@, path@],
    {
        let mut v: Vec<String> = Vec::new();
        v.push(string_of("-v"));
        v.push(string_of("quiet"));
        v.push(string_of("-print_format"));
        v.push(string_of("json"));
        v.push(string_of("-show_format"));
        v.push(string_of("-show_streams"));
        v.push(string_of(path));
        assert(views(v@) =~= seq!["-v"@, "quiet"@, "-print_format"@, "json"@, "-show_format"@,
            "-show_streams"@, path@]);
        v
    }

    /// The error reported when FFprobe fails, with what it printed on stderr.
    pub fn failure(stderr: &str) -> (res: ProcessError)
        ensures
            res matches ProcessError::FFMpegError(m) && m@ == "FFprobe failed: "@ + stderr@,
    {
        let mut m = string_of("FFprobe failed: ");
        push_str(&mut m, stderr);
        ProcessError::FFMpegError(m)
    }

    /// The error reported when FFprobe's report is not the JSON expected.
    pub fn report_error(reason: &str) -> (res: ProcessError)
        ensures
            res matches ProcessError::ParseError(m) && m@ == "Failed to parse JSON: "@ + reason@,
    {
        let mut m = string_of("Failed to parse JSON: ");
        push_str(&mut m, reason);
        ProcessError::ParseError(m)
    }

    /// Turns FFprobe's report on `path` into what the program shows.
    pub fn convert_probe_output(&self, path: String, raw: RawProbeOutput) -> (res: MediaInfo)
        ensures
            res.path == path,
            format_from_raw(raw.format, res.format),
            res.streams@.len() == raw.streams@.len(),
            forall|i: int| 0 <= i < raw.streams@.len()
                ==> stream_from_raw(#[trigger] raw.streams@[i], res.streams@[i]),
    {
        let RawProbeOutput { format: rf, streams: raw_streams } = raw;
        let size = read_u64(&rf.size);
        let bit_rate = read_u64(&rf.bit_rate);
        let format = FormatInfo {
            format_name: rf.format_name,
            format_long_name: rf.format_long_name,
            duration: rf.duration,
            size,
            bit_rate,
            tags: take_tags(rf.tags),
        };
        let mut rest = raw_streams;
        let ghost all = rest@;
        let mut streams: Vec<StreamInfo> = Vec::new();
        while rest.len() > 0
            invariant
                streams@.len() + rest@.len() == all.len(),
                rest@ == all.skip(streams@.len() as int),
                forall|i: int| 0 <= i < streams@.len()
                    ==> stream_from_raw(#[trigger] all[i], streams@[i]),
            decreases rest@.len(),
        {
            let r = rest.remove(0);
            let ghost k = streams@.len() as int;
            assert(r == all[k]);
            let s = self.convert_stream(r);
            streams.push(s);
            assert(rest@ =~= all.skip(streams@.len() as int));
        }
        MediaInfo { path, format, streams }
    }

    /// Turns one stream of FFprobe's report into what the program shows.
    pub fn convert_stream(&self, raw: RawStream) -> (res: StreamInfo)
        ensures
            stream_from_raw(raw, res),
    {
        let kind = raw.codec_type.as_str();
        if str_eq(kind, "video") {
            let bit_rate = read_u64(&raw.bit_rate);
            let bits = read_u32(&raw.bits_per_raw_sample);
            let width = match raw.width {
                Some(w) => w,
                None => 0,
            };
            let height = match raw.height {
                Some(h) => h,
                None => 0,
            };
            StreamInfo::Video(VideoStream {
                index: raw.index,
                codec_name: raw.codec_name,
                codec_long_name: raw.codec_long_name,
                profile: raw.profile,
                width,
                height,
                coded_width: raw.coded_width,
                coded_height: raw.coded_height,
                display_aspect_ratio: raw.display_aspect_ratio,
                sample_aspect_ratio: raw.sample_aspect_ratio,
                pix_fmt: raw.pix_fmt,
                frame_rate: raw.r_frame_rate,
                avg_frame_rate: raw.avg_frame_rate,
                bit_rate,
                bits_per_raw_sample: bits,
                color_space: raw.color_space,
                color_range: raw.color_range,
                color_transfer: raw.color_transfer,
                color_primaries: raw.color_primaries,
                tags: take_tags(raw.tags),
            })
        } else if str_eq(kind, "audio") {
            let sample_rate = read_u32(&raw.sample_rate);
            let bit_rate = read_u64(&raw.bit_rate);
            StreamInfo::Audio(AudioStream {
                index: raw.index,
                codec_name: raw.codec_name,
                codec_long_name: raw.codec_long_name,
                profile: raw.profile,
                sample_rate,
                channels: raw.channels,
                channel_layout: raw.channel_layout,
                sample_fmt: raw.sample_fmt,
                bit_rate,
                bits_per_sample: raw.bits_per_sample,
                tags: take_tags(raw.tags),
            })
        } else if str_eq(kind, "subtitle") {
            let language = match &raw.tags {
                Some(t) => find_tag(t, "language"),
                None => None,
            };
            StreamInfo::Subtitle(SubtitleStream {
                index: raw.index,
                codec_name: raw.codec_name,
                codec_long_name: raw.codec_long_name,
                language,
                tags: take_tags(raw.tags),
            })
        } else {
            StreamInfo::Data(DataStream {
                index: raw.index,
                codec_name: raw.codec_name,
                tags: take_tags(raw.tags),
            })
        }
    }
}

impl Default for FFProbeExecutor {
    fn default() -> (res: Self)
        ensures
            res.binary_path@ == "ffprobe"@,
    {
        FFProbeExecutor::new()
    }
}

} // verus!
