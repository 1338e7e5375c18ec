//! Filter definitions for video and audio processing, and the ordered chain
//! of filters that becomes the `-vf` and `-af` arguments.

use vstd::prelude::*;
use crate::quantity::{push_decimal, Decimal};
use crate::text::{join, nat_text, push_str, push_u64};

verus! {

/// Dimension given to the scale filter.
#[derive(Debug, Clone, Copy, PartialEq, Eq, Structural)]
pub enum ScaleDimension {
    /// An exact number of pixels.
    Exact(u32),
    /// Keep the input size along this axis (`-1`).
    Keep,
    /// Keep the aspect ratio, rounded to an even size (`-2`).
    KeepAspect,
}

impl ScaleDimension {
    /// The rendering of the dimension in a scale filter.
    pub open spec fn spec_text(self) -> Seq<char> {
        match self {
            ScaleDimension::Exact(v) => nat_text(v as nat),
            ScaleDimension::Keep => "-1"@,
            ScaleDimension::KeepAspect => "-2"@,
        }
    }

    /// Appends the rendering of the dimension.
    pub fn push_ffmpeg(&self, s: &mut String)
        ensures
            final(s)@ == old(s)@ + self.spec_text(),
    {
        match self {
            ScaleDimension::Exact(v) => push_u64(s, *v as u64),
            ScaleDimension::Keep => push_str(s, "-1"),
            ScaleDimension::KeepAspect => push_str(s, "-2"),
        }
    }

    /// Returns the rendering of the dimension.
    pub fn to_ffmpeg(&self) -> (res: String)
        ensures
            res@ == self.spec_text(),
    {
        let mut s = String::new();
        self.push_ffmpeg(&mut s);
        assert(s@ =~= self.spec_text());
        s
    }
}

/// Rotation and flip options.
#[derive(Debug, Clone, Copy, PartialEq, Eq, Structural)]
pub enum RotationAngle {
    Clockwise90,
    CounterClockwise90,
    Rotate180,
    FlipHorizontal,
    FlipVertical,
}

impl RotationAngle {
    /// The filter text of the rotation.
    pub open spec fn spec_filter(self) -> Seq<char> {
        match self {
            RotationAngle::Clockwise90 => "transpose=1"@,
            RotationAngle::CounterClockwise90 => "transpose=2"@,
            RotationAngle::Rotate180 => "transpose=1,transpose=1"@,
            RotationAngle::FlipHorizontal => "hflip"@,
            RotationAngle::FlipVertical => "vflip"@,
        }
    }

    /// Returns the filter text of the rotation.
    pub fn to_ffmpeg_filter(&self) -> (res: &'static str)
        ensures
            res@ == self.spec_filter(),
    {
        match self {
            RotationAngle::Clockwise90 => "transpose=1",
            RotationAngle::CounterClockwise90 => "transpose=2",
            RotationAngle::Rotate180 => "transpose=1,transpose=1",
            RotationAngle::FlipHorizontal => "hflip",
            RotationAngle::FlipVertical => "vflip",
        }
    }
}

/// Denoise strength levels.
#[derive(Debug, Clone, Copy, PartialEq, Eq, Structural)]
pub enum DenoiseStrength {
    Light,
    Medium,
    Strong,
}

impl DenoiseStrength {
    /// The `hqdn3d` parameters of the level.
    pub open spec fn spec_value(self) -> Seq<char> {
        match self {
            DenoiseStrength::Light => "2:1:2:3"@,
            DenoiseStrength::Medium => "4:3:6:4.5"@,
            DenoiseStrength::Strong => "6:4:8:6"@,
        }
    }

    /// Returns the `hqdn3d` parameters of the level.
    pub fn value(&self) -> (res: &'static str)
        ensures
            res@ == self.spec_value(),
    {
        match self {
            DenoiseStrength::Light => "2:1:2:3",
            DenoiseStrength::Medium => "4:3:6:4.5",
            DenoiseStrength::Strong => "6:4:8:6",
        }
    }
}

impl Default for DenoiseStrength {
    fn default() -> (res: Self)
        ensures
            res == DenoiseStrength::Medium,
    {
        DenoiseStrength::Medium
    }
}

/// A video filter with typed parameters.
#[derive(Debug)]
#[allow(inconsistent_fields)]
pub enum VideoFilter {
    Scale { width: ScaleDimension, height: ScaleDimension },
    Crop { width: u32, height: u32, x: u32, y: u32 },
    Fps { rate: Decimal },
    Rotate { angle: RotationAngle },
    Overlay { x: String, y: String },
    Pad { width: u32, height: u32, x: u32, y: u32, color: String },
    Trim { start: Option<Decimal>, end: Option<Decimal> },
    Deinterlace,
    Denoise { strength: DenoiseStrength },
    Sharpen { amount: Decimal },
    Brightness { value: Decimal },
    Contrast { value: Decimal },
    Saturation { value: Decimal },
    Hue { degrees: Decimal },
    Custom { filter_string: String },
}

/// `a:b:c:d` for four numbers.
pub open spec fn four_numbers(a: u32, b: u32, c: u32, d: u32) -> Seq<char> {
    nat_text(a as nat) + ":"@ + nat_text(b as nat) + ":"@ + nat_text(c as nat) + ":"@
        + nat_text(d as nat)
}

/// The parameters of a trim filter: `start=..` and `end=..` for those given,
/// joined with `:`.
pub open spec fn trim_parts(start: Option<Decimal>, end: Option<Decimal>) -> Seq<Seq<char>> {
    let s: Seq<Seq<char>> = match start {
        Some(v) => seq!["start="@ + v.spec_text()],
        None => seq![],
    };
    let e: Seq<Seq<char>> = match end {
        Some(v) => seq!["end="@ + v.spec_text()],
        None => seq![],
    };
    s + e
}

impl VideoFilter {
    /// The FFmpeg filter text of the filter.
    pub open spec fn spec_ffmpeg_string(self) -> Seq<char> {
        match self {
            VideoFilter::Scale { width, height } => "scale="@ + width.spec_text() + ":"@
                + height.spec_text(),
            VideoFilter::Crop { width, height, x, y } => "crop="@ + four_numbers(width, height, x, y),
            VideoFilter::Fps { rate } => "fps="@ + rate.spec_text(),
            VideoFilter::Rotate { angle } => angle.spec_filter(),
            VideoFilter::Overlay { x, y } => "overlay="@ + x@ + ":"@ + y@,
            VideoFilter::Pad { width, height, x, y, color } => "pad="@ + four_numbers(
                width,
                height,
                x,
                y,
            ) + ":"@ + color@,
            VideoFilter::Trim { start, end } => "trim="@ + join(trim_parts(start, end), ":"@),
            VideoFilter::Deinterlace => "yadif"@,
            VideoFilter::Denoise { strength } => "hqdn3d="@ + strength.spec_value(),
            VideoFilter::Sharpen { amount } => "unsharp=5:5:"@ + amount.spec_text() + ":5:5:"@
                + amount.spec_text(),
            VideoFilter::Brightness { value } => "eq=brightness="@ + value.spec_text(),
            VideoFilter::Contrast { value } => "eq=contrast="@ + value.spec_text(),
            VideoFilter::Saturation { value } => "eq=saturation="@ + value.spec_text(),
            VideoFilter::Hue { degrees } => "hue=h="@ + degrees.spec_text(),
            VideoFilter::Custom { filter_string } => filter_string@,
        }
    }

    /// Appends the FFmpeg filter text of the filter.
    pub fn push_ffmpeg_string(&self, s: &mut String)
        ensures
            final(s)@ == old(s)@ + self.spec_ffmpeg_string(),
    {
        let ghost s0 = s@;
        match self {
            VideoFilter::Scale { width, height } => {
                push_str(s, "scale=");
                width.push_ffmpeg(s);
                push_str(s, ":");
                height.push_ffmpeg(s);
            },
            VideoFilter::Crop { width, height, x, y } => {
                push_str(s, "crop=");
                push_four(s, *width, *height, *x, *y);
            },
            VideoFilter::Fps { rate } => {
                push_str(s, "fps=");
                push_decimal(s, *rate);
            },
            VideoFilter::Rotate { angle } => {
                push_str(s, angle.to_ffmpeg_filter());
            },
            VideoFilter::Overlay { x, y } => {
                push_str(s, "overlay=");
                push_str(s, x.as_str());
                push_str(s, ":");
                push_str(s, y.as_str());
            },
            VideoFilter::Pad { width, height, x, y, color } => {
                push_str(s, "pad=");
                push_four(s, *width, *height, *x, *y);
                push_str(s, ":");
                push_str(s, color.as_str());
            },
            VideoFilter::Trim { start, end } => {
                push_str(s, "trim=");
                let ghost s1 = s@;
                match start {
                    Some(v) => {
                        push_str(s, "start=");
                        push_decimal(s, *v);
                    },
                    None => {},
                }
                match end {
                    Some(v) => {
                        if start.is_some() {
                            push_str(s, ":");
                        }
                        push_str(s, "end=");
                        push_decimal(s, *v);
                    },
                    None => {},
                }
                proof {
                    let parts = trim_parts(*start, *end);
                    if start.is_some() && end.is_some() {
                        let a = "start="@ + start.unwrap().spec_text();
                        let b = "end="@ + end.unwrap().spec_text();
                        assert(parts =~= seq![a, b]);
                        assert(parts.drop_last() =~= seq![a]);
                        assert(join(seq![a], ":"@) == a);
                        assert(join(parts, ":"@) == a + ":"@ + b);
                    } else if start.is_some() {
                        assert(parts =~= seq!["start="@ + start.unwrap().spec_text()]);
                        assert(join(parts, ":"@) == "start="@ + start.unwrap().spec_text());
                    } else if end.is_some() {
                        assert(parts =~= seq!["end="@ + end.unwrap().spec_text()]);
                        assert(join(parts, ":"@) == "end="@ + end.unwrap().spec_text());
                    } else {
                        assert(parts =~= Seq::<Seq<char>>::empty());
                    }
                    assert(s@ =~= s1 + join(parts, ":"@));
                }
            },
            VideoFilter::Deinterlace => {
                push_str(s, "yadif");
            },
            VideoFilter::Denoise { strength } => {
                push_str(s, "hqdn3d=");
                push_str(s, strength.value());
            },
            VideoFilter::Sharpen { amount } => {
                push_str(s, "unsharp=5:5:");
                push_decimal(s, *amount);
                push_str(s, ":5:5:");
                push_decimal(s, *amount);
            },
            VideoFilter::Brightness { value } => {
                push_str(s, "eq=brightness=");
                push_decimal(s, *value);
            },
            VideoFilter::Contrast { value } => {
                push_str(s, "eq=contrast=");
                push_decimal(s, *value);
            },
            VideoFilter::Saturation { value } => {
                push_str(s, "eq=saturation=");
                push_decimal(s, *value);
            },
            VideoFilter::Hue { degrees } => {
                push_str(s, "hue=h=");
                push_decimal(s, *degrees);
            },
            VideoFilter::Custom { filter_string } => {
                push_str(s, filter_string.as_str());
            },
        }
        assert(final(s)@ =~= old(s)@ + self.spec_ffmpeg_string());
    }

    /// Returns the FFmpeg filter text of the filter.
    pub fn to_ffmpeg_string(&self) -> (res: String)
        ensures
            res@ == self.spec_ffmpeg_string(),
    {
        let mut s = String::new();
        self.push_ffmpeg_string(&mut s);
        assert(s@ =~= self.spec_ffmpeg_string());
        s
    }

    /// The display name of the kind of filter.
    pub open spec fn spec_name(self) -> Seq<char> {
        match self {
            VideoFilter::Scale { .. } => "Scale"@,
            VideoFilter::Crop { .. } => "Crop"@,
            VideoFilter::Fps { .. } => "FPS"@,
            VideoFilter::Rotate { .. } => "Rotate"@,
            VideoFilter::Overlay { .. } => "Overlay"@,
            VideoFilter::Pad { .. } => "Pad"@,
            VideoFilter::Trim { .. } => "Trim"@,
            VideoFilter::Deinterlace => "Deinterlace"@,
            VideoFilter::Denoise { .. } => "Denoise"@,
            VideoFilter::Sharpen { .. } => "Sharpen"@,
            VideoFilter::Brightness { .. } => "Brightness"@,
            VideoFilter::Contrast { .. } => "Contrast"@,
            VideoFilter::Saturation { .. } => "Saturation"@,
            VideoFilter::Hue { .. } => "Hue"@,
            VideoFilter::Custom { .. } => "Custom"@,
        }
    }

    /// Returns the display name of the kind of filter.
    pub fn name(&self) -> (res: &'static str)
        ensures
            res@ == self.spec_name(),
    {
        match self {
            VideoFilter::Scale { .. } => "Scale",
            VideoFilter::Crop { .. } => "Crop",
            VideoFilter::Fps { .. } => "FPS",
            VideoFilter::Rotate { .. } => "Rotate",
            VideoFilter::Overlay { .. } => "Overlay",
            VideoFilter::Pad { .. } => "Pad",
            VideoFilter::Trim { .. } => "Trim",
            VideoFilter::Deinterlace => "Deinterlace",
            VideoFilter::Denoise { .. } => "Denoise",
            VideoFilter::Sharpen { .. } => "Sharpen",
            VideoFilter::Brightness { .. } => "Brightness",
            VideoFilter::Contrast { .. } => "Contrast",
            VideoFilter::Saturation { .. } => "Saturation",
            VideoFilter::Hue { .. } => "Hue",
            VideoFilter::Custom { .. } => "Custom",
        }
    }
}

fn push_four(s: &mut String, a: u32, b: u32, c: u32, d: u32)
    ensures
        final(s)@ == old(s)@ + four_numbers(a, b, c, d),
{
    push_u64(s, a as u64);
    push_str(s, ":");
    push_u64(s, b as u64);
    push_str(s, ":");
    push_u64(s, c as u64);
    push_str(s, ":");
    push_u64(s, d as u64);
    assert(final(s)@ =~= old(s)@ + four_numbers(a, b, c, d));
}

impl Clone for VideoFilter {
    fn clone(&self) -> (res: Self)
        ensures
            res == *self,
    {
        match self {
            VideoFilter::Scale { width, height } => VideoFilter::Scale { width: *width, height: *height },
            VideoFilter::Crop { width, height, x, y } => VideoFilter::Crop {
                width: *width,
                height: *height,
                x: *x,
                y: *y,
            },
            VideoFilter::Fps { rate } => VideoFilter::Fps { rate: *rate },
            VideoFilter::Rotate { angle } => VideoFilter::Rotate { angle: *angle },
            VideoFilter::Overlay { x, y } => VideoFilter::Overlay { x: x.clone(), y: y.clone() },
            VideoFilter::Pad { width, height, x, y, color } => VideoFilter::Pad {
                width: *width,
                height: *height,
                x: *x,
                y: *y,
                color: color.clone(),
            },
            VideoFilter::Trim { start, end } => VideoFilter::Trim { start: *start, end: *end },
            VideoFilter::Deinterlace => VideoFilter::Deinterlace,
            VideoFilter::Denoise { strength } => VideoFilter::Denoise { strength: *strength },
            VideoFilter::Sharpen { amount } => VideoFilter::Sharpen { amount: *amount },
            VideoFilter::Brightness { value } => VideoFilter::Brightness { value: *value },
            VideoFilter::Contrast { value } => VideoFilter::Contrast { value: *value },
            VideoFilter::Saturation { value } => VideoFilter::Saturation { value: *value },
            VideoFilter::Hue { degrees } => VideoFilter::Hue { degrees: *degrees },
            VideoFilter::Custom { filter_string } => VideoFilter::Custom {
                filter_string: filter_string.clone(),
            },
        }
    }
}

} // verus!

verus! {

/// Direction of an audio fade.
#[derive(Debug, Clone, Copy, PartialEq, Eq, Structural)]
pub enum FadeType {
    In,
    Out,
}

impl FadeType {
    /// The filter name suffix of the fade direction.
    pub open spec fn spec_name(self) -> Seq<char> {
        match self {
            FadeType::In => "fadein"@,
            FadeType::Out => "fadeout"@,
        }
    }

    /// Returns the filter name suffix of the fade direction.
    pub fn name(&self) -> (res: &'static str)
        ensures
            res@ == self.spec_name(),
    {
        match self {
            FadeType::In => "fadein",
            FadeType::Out => "fadeout",
        }
    }
}

/// An audio filter with typed parameters.
#[derive(Debug)]
#[allow(inconsistent_fields)]
pub enum AudioFilter {
    Volume { level: Decimal },
    Normalize,
    Fade { fade_type: FadeType, start: Decimal, duration: Decimal },
    HighPass { frequency: Decimal },
    LowPass { frequency: Decimal },
    Tempo { rate: Decimal },
    Resample { rate: u32 },
    Channels { count: u8 },
    Custom { filter_string: String },
}

impl AudioFilter {
    /// The FFmpeg filter text of the filter.
    pub open spec fn spec_ffmpeg_string(self) -> Seq<char> {
        match self {
            AudioFilter::Volume { level } => "volume="@ + level.spec_text(),
            AudioFilter::Normalize => "loudnorm=I=-16:TP=-1.5:LRA=11"@,
            AudioFilter::Fade { fade_type, start, duration } => "a"@ + fade_type.spec_name() + "=st="@
                + start.spec_text() + ":d="@ + duration.spec_text(),
            AudioFilter::HighPass { frequency } => "highpass=f="@ + frequency.spec_text(),
            AudioFilter::LowPass { frequency } => "lowpass=f="@ + frequency.spec_text(),
            AudioFilter::Tempo { rate } => "atempo="@ + rate.spec_text(),
            AudioFilter::Resample { rate } => "aresample="@ + nat_text(rate as nat),
            AudioFilter::Channels { count } => "pan="@ + nat_text(count as nat) + "c"@,
            AudioFilter::Custom { filter_string } => filter_string@,
        }
    }

    /// Appends the FFmpeg filter text of the filter.
    pub fn push_ffmpeg_string(&self, s: &mut String)
        ensures
            final(s)@ == old(s)@ + self.spec_ffmpeg_string(),
    {
        match self {
            AudioFilter::Volume { level } => {
                push_str(s, "volume=");
                push_decimal(s, *level);
            },
            AudioFilter::Normalize => {
                push_str(s, "loudnorm=I=-16:TP=-1.5:LRA=11");
            },
            AudioFilter::Fade { fade_type, start, duration } => {
                push_str(s, "a");
                push_str(s, fade_type.name());
                push_str(s, "=st=");
                push_decimal(s, *start);
                push_str(s, ":d=");
                push_decimal(s, *duration);
            },
            AudioFilter::HighPass { frequency } => {
                push_str(s, "highpass=f=");
                push_decimal(s, *frequency);
            },
            AudioFilter::LowPass { frequency } => {
                push_str(s, "lowpass=f=");
                push_decimal(s, *frequency);
            },
            AudioFilter::Tempo { rate } => {
                push_str(s, "atempo=");
                push_decimal(s, *rate);
            },
            AudioFilter::Resample { rate } => {
                push_str(s, "aresample=");
                push_u64(s, *rate as u64);
            },
            AudioFilter::Channels { count } => {
                push_str(s, "pan=");
                push_u64(s, *count as u64);
                push_str(s, "c");
            },
            AudioFilter::Custom { filter_string } => {
                push_str(s, filter_string.as_str());
            },
        }
        assert(final(s)@ =~= old(s)@ + self.spec_ffmpeg_string());
    }

    /// Returns the FFmpeg filter text of the filter.
    pub fn to_ffmpeg_string(&self) -> (res: String)
        ensures
            res@ == self.spec_ffmpeg_string(),
    {
        let mut s = String::new();
        self.push_ffmpeg_string(&mut s);
        assert(s@ =~= self.spec_ffmpeg_string());
        s
    }

    /// The display name of the kind of filter.
    pub open spec fn spec_name(self) -> Seq<char> {
        match self {
            AudioFilter::Volume { .. } => "Volume"@,
            AudioFilter::Normalize => "Normalize"@,
            AudioFilter::Fade { .. } => "Fade"@,
            AudioFilter::HighPass { .. } => "High Pass"@,
            AudioFilter::LowPass { .. } => "Low Pass"@,
            AudioFilter::Resample { .. } => "Resample"@,
            AudioFilter::Channels { .. } => "Channels"@,
            AudioFilter::Custom { .. } => "Custom"@,
            AudioFilter::Tempo { .. } => "Tempo"@,
        }
    }

    /// Returns the display name of the kind of filter.
    pub fn name(&self) -> (res: &'static str)
        ensures
            res@ == self.spec_name(),
    {
        match self {
            AudioFilter::Volume { .. } => "Volume",
            AudioFilter::Normalize => "Normalize",
            AudioFilter::Fade { .. } => "Fade",
            AudioFilter::HighPass { .. } => "High Pass",
            AudioFilter::LowPass { .. } => "Low Pass",
            AudioFilter::Resample { .. } => "Resample",
            AudioFilter::Channels { .. } => "Channels",
            AudioFilter::Custom { .. } => "Custom",
            AudioFilter::Tempo { .. } => "Tempo",
        }
    }
}

impl Clone for AudioFilter {
    fn clone(&self) -> (res: Self)
        ensures
            res == *self,
    {
        match self {
            AudioFilter::Volume { level } => AudioFilter::Volume { level: *level },
            AudioFilter::Normalize => AudioFilter::Normalize,
            AudioFilter::Fade { fade_type, start, duration } => AudioFilter::Fade {
                fade_type: *fade_type,
                start: *start,
                duration: *duration,
            },
            AudioFilter::HighPass { frequency } => AudioFilter::HighPass { frequency: *frequency },
            AudioFilter::LowPass { frequency } => AudioFilter::LowPass { frequency: *frequency },
            AudioFilter::Tempo { rate } => AudioFilter::Tempo { rate: *rate },
            AudioFilter::Resample { rate } => AudioFilter::Resample { rate: *rate },
            AudioFilter::Channels { count } => AudioFilter::Channels { count: *count },
            AudioFilter::Custom { filter_string } => AudioFilter::Custom {
                filter_string: filter_string.clone(),
            },
        }
    }
}

/// A filter of either kind.
#[derive(Debug)]
pub enum Filter {
    Video(VideoFilter),
    Audio(AudioFilter),
}

impl Filter {
    /// The display name of the filter.
    pub open spec fn spec_name(self) -> Seq<char> {
        match self {
            Filter::Video(f) => f.spec_name(),
            Filter::Audio(f) => f.spec_name(),
        }
    }

    /// Returns the display name of the filter.
    pub fn name(&self) -> (res: &'static str)
        ensures
            res@ == self.spec_name(),
    {
        match self {
            Filter::Video(f) => f.name(),
            Filter::Audio(f) => f.name(),
        }
    }

    /// Returns whether the filter is a video filter.
    pub fn is_video(&self) -> (res: bool)
        ensures
            res == (*self is Video),
    {
        matches!(self, Filter::Video(_))
    }
}

impl Clone for Filter {
    fn clone(&self) -> (res: Self)
        ensures
            res == *self,
    {
        match self {
            Filter::Video(f) => Filter::Video(f.clone()),
            Filter::Audio(f) => Filter::Audio(f.clone()),
        }
    }
}

/// The sequence `s` with the elements at `i` and `j` exchanged.
pub open spec fn swapped<T>(s: Seq<T>, i: int, j: int) -> Seq<T> {
    s.update(i, s[j]).update(j, s[i])
}

/// The texts of a list of video filters, in order.
pub open spec fn video_texts(fs: Seq<VideoFilter>) -> Seq<Seq<char>> {
    fs.map_values(|f: VideoFilter| f.spec_ffmpeg_string())
}

/// The texts of a list of audio filters, in order.
pub open spec fn audio_texts(fs: Seq<AudioFilter>) -> Seq<Seq<char>> {
    fs.map_values(|f: AudioFilter| f.spec_ffmpeg_string())
}

/// The argument of `-vf` or `-af` for a list of filter texts: none when the list
/// is empty, else the texts joined with commas.
pub open spec fn chain_argument(texts: Seq<Seq<char>>) -> Option<Seq<char>> {
    if texts.len() == 0 {
        None
    } else {
        Some(join(texts, ","@))
    }
}

/// A crop filter renders as `crop=W:H:X:Y`: its width, height, then the x
/// and the y offset of the region kept, each in decimal; alone in a chain it
/// is the whole `-vf` argument.
pub proof fn law_crop_text(width: u32, height: u32, x: u32, y: u32)
    ensures
        (VideoFilter::Crop { width, height, x, y }).spec_ffmpeg_string() == "crop="@ + nat_text(
            width as nat,
        ) + ":"@ + nat_text(height as nat) + ":"@ + nat_text(x as nat) + ":"@ + nat_text(y as nat),
        chain_argument(video_texts(seq![VideoFilter::Crop { width, height, x, y }])) == Some(
            "crop="@ + nat_text(width as nat) + ":"@ + nat_text(height as nat) + ":"@ + nat_text(
                x as nat,
            ) + ":"@ + nat_text(y as nat),
        ),
{
    let f = VideoFilter::Crop { width, height, x, y };
    law_single_filter_argument(f);
}

/// A pad filter renders as `pad=W:H:X:Y:COLOR`: its size, then the x and the
/// y offset of the picture, each in decimal, then the colour.
pub proof fn law_pad_text(width: u32, height: u32, x: u32, y: u32, color: String)
    ensures
        (VideoFilter::Pad { width, height, x, y, color }).spec_ffmpeg_string() == "pad="@ + nat_text(
            width as nat,
        ) + ":"@ + nat_text(height as nat) + ":"@ + nat_text(x as nat) + ":"@ + nat_text(y as nat)
            + ":"@ + color@,
{
}

/// A chain of video and audio filters applied in order.
#[derive(Debug)]
pub struct FilterChain {
    video_filters: Vec<VideoFilter>,
    audio_filters: Vec<AudioFilter>,
}

impl FilterChain {
    /// The video filters of the chain, in order.
    pub closed spec fn video(self) -> Seq<VideoFilter> {
        self.video_filters@
    }

    /// The audio filters of the chain, in order.
    pub closed spec fn audio(self) -> Seq<AudioFilter> {
        self.audio_filters@
    }

    /// The `-vf` argument of the chain.
    pub open spec fn spec_video_argument(self) -> Option<Seq<char>> {
        chain_argument(video_texts(self.video()))
    }

    /// The `-af` argument of the chain.
    pub open spec fn spec_audio_argument(self) -> Option<Seq<char>> {
        chain_argument(audio_texts(self.audio()))
    }

    /// An empty chain.
    pub fn new() -> (res: Self)
        ensures
            res.video() == Seq::<VideoFilter>::empty(),
            res.audio() == Seq::<AudioFilter>::empty(),
    {
        FilterChain { video_filters: Vec::new(), audio_filters: Vec::new() }
    }

    /// Appends a video filter at the end of the video chain.
    pub fn add_video_filter(&mut self, filter: VideoFilter)
        ensures
            final(self).video() == old(self).video().push(filter),
            final(self).audio() == old(self).audio(),
    {
        self.video_filters.push(filter);
    }

    /// Appends an audio filter at the end of the audio chain.
    pub fn add_audio_filter(&mut self, filter: AudioFilter)
        ensures
            final(self).audio() == old(self).audio().push(filter),
            final(self).video() == old(self).video(),
    {
        self.audio_filters.push(filter);
    }

    /// Removes and returns the video filter at `index`; out of range, nothing changes.
    pub fn remove_video_filter(&mut self, index: usize) -> (res: Option<VideoFilter>)
        ensures
            index < old(self).video().len() ==> res == Some(old(self).video()[index as int])
                && final(self).video() == old(self).video().remove(index as int),
            index >= old(self).video().len() ==> res.is_none() && final(self).video() == old(
                self,
            ).video(),
            final(self).audio() == old(self).audio(),
    {
        if index < self.video_filters.len() {
            Some(self.video_filters.remove(index))
        } else {
            None
        }
    }

    /// Removes and returns the audio filter at `index`; out of range, nothing changes.
    pub fn remove_audio_filter(&mut self, index: usize) -> (res: Option<AudioFilter>)
        ensures
            index < old(self).audio().len() ==> res == Some(old(self).audio()[index as int])
                && final(self).audio() == old(self).audio().remove(index as int),
            index >= old(self).audio().len() ==> res.is_none() && final(self).audio() == old(
                self,
            ).audio(),
            final(self).video() == old(self).video(),
    {
        if index < self.audio_filters.len() {
            Some(self.audio_filters.remove(index))
        } else {
            None
        }
    }

    /// Moves the video filter at `index` one place earlier; reports whether it moved.
    pub fn move_video_filter_up(&mut self, index: usize) -> (res: bool)
        ensures
            res == (0 < index < old(self).video().len()),
            res ==> final(self).video() == swapped(old(self).video(), index - 1, index as int),
            !res ==> final(self).video() == old(self).video(),
            final(self).audio() == old(self).audio(),
    {
        if index > 0 && index < self.video_filters.len() {
            let ghost v = self.video_filters@;
            let f = self.video_filters.remove(index);
            self.video_filters.insert(index - 1, f);
            assert(self.video_filters@ =~= swapped(v, index - 1, index as int));
            true
        } else {
            false
        }
    }

    /// Moves the video filter at `index` one place later; reports whether it moved.
    pub fn move_video_filter_down(&mut self, index: usize) -> (res: bool)
        requires
            index < usize::MAX,
        ensures
            res == (index + 1 < old(self).video().len()),
            res ==> final(self).video() == swapped(old(self).video(), index as int, index + 1),
            !res ==> final(self).video() == old(self).video(),
            final(self).audio() == old(self).audio(),
    {
        if index + 1 < self.video_filters.len() {
            let ghost v = self.video_filters@;
            let f = self.video_filters.remove(index + 1);
            self.video_filters.insert(index, f);
            assert(self.video_filters@ =~= swapped(v, index as int, index + 1));
            true
        } else {
            false
        }
    }

    /// Returns the `-vf` argument: the video filters joined with commas, or `None`
    /// when there are no video filters.
    pub fn video_filter_string(&self) -> (res: Option<String>)
        ensures
            res.is_some() == self.spec_video_argument().is_some(),
            res matches Some(s) ==> s@ == self.spec_video_argument().unwrap(),
    {
        if self.video_filters.len() == 0 {
            return None;
        }
        let ghost texts = video_texts(self.video());
        let mut res = String::new();
        let mut i: usize = 0;
        while i < self.video_filters.len()
            invariant
                i <= self.video_filters.len(),
                texts == video_texts(self.video_filters@),
                res@ == join(texts.take(i as int), ","@),
            decreases self.video_filters.len() - i,
        {
            if i > 0 {
                push_str(&mut res, ",");
            }
            self.video_filters[i].push_ffmpeg_string(&mut res);
            assert(texts.take(i + 1).drop_last() =~= texts.take(i as int));
            i = i + 1;
        }
        assert(texts.take(i as int) =~= texts);
        Some(res)
    }

    /// Returns the `-af` argument: the audio filters joined with commas, or `None`
    /// when there are no audio filters.
    pub fn audio_filter_string(&self) -> (res: Option<String>)
        ensures
            res.is_some() == self.spec_audio_argument().is_some(),
            res matches Some(s) ==> s@ == self.spec_audio_argument().unwrap(),
    {
        if self.audio_filters.len() == 0 {
            return None;
        }
        let ghost texts = audio_texts(self.audio());
        let mut res = String::new();
        let mut i: usize = 0;
        while i < self.audio_filters.len()
            invariant
                i <= self.audio_filters.len(),
                texts == audio_texts(self.audio_filters@),
                res@ == join(texts.take(i as int), ","@),
            decreases self.audio_filters.len() - i,
        {
            if i > 0 {
                push_str(&mut res, ",");
            }
            self.audio_filters[i].push_ffmpeg_string(&mut res);
            assert(texts.take(i + 1).drop_last() =~= texts.take(i as int));
            i = i + 1;
        }
        assert(texts.take(i as int) =~= texts);
        Some(res)
    }

    /// Returns the video filters in order.
    pub fn video_filters(&self) -> (res: &[VideoFilter])
        ensures
            res@ == self.video(),
    {
        self.video_filters.as_slice()
    }

    /// Returns the audio filters in order.
    pub fn audio_filters(&self) -> (res: &[AudioFilter])
        ensures
            res@ == self.audio(),
    {
        self.audio_filters.as_slice()
    }

    /// Returns whether the chain holds no filter of either kind.
    pub fn is_empty(&self) -> (res: bool)
        ensures
            res == (self.video().len() == 0 && self.audio().len() == 0),
    {
        self.video_filters.len() == 0 && self.audio_filters.len() == 0
    }

    /// Removes every filter.
    pub fn clear(&mut self)
        ensures
            final(self).video() == Seq::<VideoFilter>::empty(),
            final(self).audio() == Seq::<AudioFilter>::empty(),
    {
        self.video_filters.clear();
        self.audio_filters.clear();
    }
}

impl Default for FilterChain {
    fn default() -> (res: Self)
        ensures
            res.video() == Seq::<VideoFilter>::empty(),
            res.audio() == Seq::<AudioFilter>::empty(),
    {
        FilterChain::new()
    }
}

impl Clone for FilterChain {
    fn clone(&self) -> (res: Self)
        ensures
            res.video() == self.video(),
            res.audio() == self.audio(),
    {
        let v = self.video_filters.clone();
        let a = self.audio_filters.clone();
        assert(v@ =~= self.video_filters@);
        assert(a@ =~= self.audio_filters@);
        FilterChain { video_filters: v, audio_filters: a }
    }
}

/// Removing the filter just added gives that filter back and leaves the chain
/// as it was before the addition.
pub proof fn law_remove_undoes_add(chain: Seq<VideoFilter>, f: VideoFilter)
    ensures
        chain.push(f)[chain.len() as int] == f,
        chain.push(f).remove(chain.len() as int) == chain,
{
    assert(chain.push(f).remove(chain.len() as int) =~= chain);
}

/// Moving a filter down and then up again (or up, then down) restores the chain.
pub proof fn law_move_down_then_up(chain: Seq<VideoFilter>, i: int)
    requires
        0 <= i,
        i + 1 < chain.len(),
    ensures
        swapped(swapped(chain, i, i + 1), i, i + 1) == chain,
{
    assert(swapped(swapped(chain, i, i + 1), i, i + 1) =~= chain);
}

/// A chain renders to a `-vf` argument exactly when it holds a video filter, and
/// the argument of a single filter is that filter's own text.
pub proof fn law_single_filter_argument(f: VideoFilter)
    ensures
        chain_argument(video_texts(Seq::<VideoFilter>::empty())).is_none(),
        chain_argument(video_texts(seq![f])) == Some(f.spec_ffmpeg_string()),
{
    assert(video_texts(seq![f]) =~= seq![f.spec_ffmpeg_string()]);
}

} // verus!
