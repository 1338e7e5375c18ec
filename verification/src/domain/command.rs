//! FFmpeg command model: input, output and global options, the builder that
//! assembles them, and the argument list that a command becomes.

use vstd::prelude::*;
use crate::domain::codec::{AudioCodec, VideoCodec};
use crate::domain::filter::FilterChain;
use crate::domain::format::{ContainerFormat, EncodingPreset};
use crate::paths::{extension_of, path_extension};
use crate::quantity::{push_decimal, Decimal};
use crate::text::{
    extend_strings, has_char, int_text, join, nat_text, push_char, push_i64, push_str, push_u64,
    string_of, views,
};

verus! {

/// Why a command could not be built.
#[derive(Debug, Clone)]
pub enum CommandBuildError {
    NoInput,
    NoOutput,
    InvalidInputPath(String),
    InvalidOutputPath(String),
    IncompatibleCodec { codec: String, format: String },
}

impl CommandBuildError {
    /// The message that describes the error.
    pub open spec fn spec_message(self) -> Seq<char> {
        match self {
            CommandBuildError::NoInput => "No input file specified"@,
            CommandBuildError::NoOutput => "No output file specified"@,
            CommandBuildError::InvalidInputPath(p) => "Invalid input path: "@ + p@,
            CommandBuildError::InvalidOutputPath(p) => "Invalid output path: "@ + p@,
            CommandBuildError::IncompatibleCodec { codec, format } => "Incompatible codec "@ + codec@
                + " with format "@ + format@,
        }
    }

    /// Returns the message that describes the error.
    pub fn message(&self) -> (res: String)
        ensures
            res@ == self.spec_message(),
    {
        match self {
            CommandBuildError::NoInput => string_of("No input file specified"),
            CommandBuildError::NoOutput => string_of("No output file specified"),
            CommandBuildError::InvalidInputPath(p) => {
                let mut s = string_of("Invalid input path: ");
                push_str(&mut s, p.as_str());
                s
            },
            CommandBuildError::InvalidOutputPath(p) => {
                let mut s = string_of("Invalid output path: ");
                push_str(&mut s, p.as_str());
                s
            },
            CommandBuildError::IncompatibleCodec { codec, format } => {
                let mut s = string_of("Incompatible codec ");
                push_str(&mut s, codec.as_str());
                push_str(&mut s, " with format ");
                push_str(&mut s, format.as_str());
                s
            },
        }
    }
}

/// `[flag, value]` when a value is given, else nothing.
pub open spec fn flag_value(flag: Seq<char>, value: Option<Seq<char>>) -> Seq<Seq<char>> {
    match value {
        Some(v) => seq![flag, v],
        None => seq![],
    }
}

/// The rendering of an optional decimal.
pub open spec fn decimal_value(d: Option<Decimal>) -> Option<Seq<char>> {
    match d {
        Some(v) => Some(v.spec_text()),
        None => None,
    }
}

/// The rendering of an optional bitrate in kbps, with its `k` suffix.
pub open spec fn kbps_value(b: Option<u32>) -> Option<Seq<char>> {
    match b {
        Some(v) => Some(nat_text(v as nat) + "k"@),
        None => None,
    }
}

fn push_arg(args: &mut Vec<String>, a: String)
    ensures
        views(final(args)@) == views(old(args)@).push(a@),
{
    args.push(a);
    assert(views(args@) =~= views(old(args)@).push(a@));
}

fn push_flag(args: &mut Vec<String>, flag: &str, value: String)
    ensures
        views(final(args)@) == views(old(args)@) + seq![flag@, value@],
{
    push_arg(args, string_of(flag));
    push_arg(args, value);
    assert(views(args@) =~= views(old(args)@) + seq![flag@, value@]);
}

fn decimal_string(d: Decimal) -> (res: String)
    ensures
        res@ == d.spec_text(),
{
    let mut s = String::new();
    push_decimal(&mut s, d);
    assert(s@ =~= d.spec_text());
    s
}

fn number_string(n: u64) -> (res: String)
    ensures
        res@ == nat_text(n as nat),
{
    let mut s = String::new();
    push_u64(&mut s, n);
    assert(s@ =~= nat_text(n as nat));
    s
}

fn kbps_string(n: u32) -> (res: String)
    ensures
        res@ == nat_text(n as nat) + "k"@,
{
    let mut s = String::new();
    push_u64(&mut s, n as u64);
    push_str(&mut s, "k");
    assert(s@ =~= nat_text(n as nat) + "k"@);
    s
}

/// One input file with its reading options.
#[derive(Debug)]
pub struct InputConfig {
    pub path: String,
    pub seek_start: Option<Decimal>,
    pub duration: Option<Decimal>,
    pub stream_loop: Option<i32>,
    pub input_options: Vec<String>,
}

impl InputConfig {
    /// The arguments that introduce this input.
    pub open spec fn spec_args(self) -> Seq<Seq<char>> {
        flag_value("-ss"@, decimal_value(self.seek_start)) + flag_value(
            "-t"@,
            decimal_value(self.duration),
        ) + flag_value(
            "-stream_loop"@,
            match self.stream_loop {
                Some(n) => Some(int_text(n as int)),
                None => None,
            },
        ) + views(self.input_options@) + seq!["-i"@, self.path@]
    }

    /// Returns the arguments that introduce this input.
    pub fn to_args(&self) -> (res: Vec<String>)
        ensures
            views(res@) == self.spec_args(),
    {
        let mut args: Vec<String> = Vec::new();
        if let Some(seek) = self.seek_start {
            push_flag(&mut args, "-ss", decimal_string(seek));
        }
        if let Some(duration) = self.duration {
            push_flag(&mut args, "-t", decimal_string(duration));
        }
        if let Some(loops) = self.stream_loop {
            let mut s = String::new();
            push_i64(&mut s, loops as i64);
            assert(s@ =~= int_text(loops as int));
            push_flag(&mut args, "-stream_loop", s);
        }
        extend_strings(&mut args, &self.input_options);
        push_flag(&mut args, "-i", self.path.clone());
        assert(views(args@) =~= self.spec_args());
        args
    }
}

impl InputConfig {
    /// Whether `other` holds the same path, options and settings.
    pub open spec fn same_as(self, other: InputConfig) -> bool {
        &&& self.path == other.path
        &&& self.seek_start == other.seek_start
        &&& self.duration == other.duration
        &&& self.stream_loop == other.stream_loop
        &&& self.input_options@ == other.input_options@
    }
}

impl Clone for InputConfig {
    fn clone(&self) -> (res: Self)
        ensures
            res.same_as(*self),
    {
        let opts = self.input_options.clone();
        assert(opts@ =~= self.input_options@);
        InputConfig {
            path: self.path.clone(),
            seek_start: self.seek_start,
            duration: self.duration,
            stream_loop: self.stream_loop,
            input_options: opts,
        }
    }
}

/// The output file with its encoding options.
#[derive(Debug)]
pub struct OutputConfig {
    pub path: String,
    pub format: ContainerFormat,
    pub video_codec: VideoCodec,
    pub audio_codec: AudioCodec,
    pub video_bitrate: Option<u32>,
    pub audio_bitrate: Option<u32>,
    pub crf: Option<u8>,
    pub preset: Option<EncodingPreset>,
    pub output_options: Vec<String>,
}

impl OutputConfig {
    /// The video codec arguments: `-vn` for no video, else `-c:v` and the encoder.
    pub open spec fn spec_video_args(self) -> Seq<Seq<char>> {
        if self.video_codec is NoVideo {
            seq!["-vn"@]
        } else {
            seq!["-c:v"@, self.video_codec.spec_ffmpeg_name()]
        }
    }

    /// The audio codec arguments: `-an` for no audio, else `-c:a` and the encoder.
    pub open spec fn spec_audio_args(self) -> Seq<Seq<char>> {
        if self.audio_codec is NoAudio {
            seq!["-an"@]
        } else {
            seq!["-c:a"@, self.audio_codec.spec_ffmpeg_name()]
        }
    }

    /// The CRF arguments: only when a CRF is set and the video codec takes one.
    pub open spec fn spec_crf_args(self) -> Seq<Seq<char>> {
        if self.crf.is_some() && self.video_codec.spec_supports_crf() {
            seq!["-crf"@, nat_text(self.crf.unwrap() as nat)]
        } else {
            seq![]
        }
    }

    /// The preset arguments: only when a preset is set and the codec is H.264 or H.265.
    pub open spec fn spec_preset_args(self) -> Seq<Seq<char>> {
        if self.preset.is_some() && (self.video_codec is H264 || self.video_codec is H265) {
            seq!["-preset"@, self.preset.unwrap().spec_ffmpeg_name()]
        } else {
            seq![]
        }
    }

    /// The arguments that describe the output.
    pub open spec fn spec_args(self) -> Seq<Seq<char>> {
        self.spec_video_args() + self.spec_audio_args() + self.spec_crf_args()
            + self.spec_preset_args() + flag_value("-b:v"@, kbps_value(self.video_bitrate))
            + flag_value("-b:a"@, kbps_value(self.audio_bitrate)) + seq![
            "-f"@,
            self.format.spec_ffmpeg_name(),
        ] + views(self.output_options@) + seq!["-y"@, self.path@]
    }

    fn push_codec_args(&self, args: &mut Vec<String>)
        ensures
            views(final(args)@) == views(old(args)@) + self.spec_video_args()
                + self.spec_audio_args(),
    {
        match self.video_codec {
            VideoCodec::NoVideo => {
                push_arg(args, string_of("-vn"));
            },
            _ => {
                push_flag(args, "-c:v", string_of(self.video_codec.ffmpeg_name()));
            },
        }
        let ghost mid = views(args@);
        match self.audio_codec {
            AudioCodec::NoAudio => {
                push_arg(args, string_of("-an"));
            },
            _ => {
                push_flag(args, "-c:a", string_of(self.audio_codec.ffmpeg_name()));
            },
        }
        assert(views(args@) =~= views(old(args)@) + self.spec_video_args() + self.spec_audio_args());
    }

    fn push_quality_args(&self, args: &mut Vec<String>)
        ensures
            views(final(args)@) == views(old(args)@) + self.spec_crf_args()
                + self.spec_preset_args(),
    {
        if let Some(crf) = self.crf {
            if self.video_codec.supports_crf() {
                push_flag(args, "-crf", number_string(crf as u64));
            }
        }
        let ghost mid = views(args@);
        assert(mid =~= views(old(args)@) + self.spec_crf_args());
        if let Some(preset) = self.preset {
            if matches!(self.video_codec, VideoCodec::H264 | VideoCodec::H265) {
                push_flag(args, "-preset", string_of(preset.ffmpeg_name()));
            }
        }
        assert(views(args@) =~= mid + self.spec_preset_args());
    }

    fn push_bitrate_args(&self, args: &mut Vec<String>)
        ensures
            views(final(args)@) == views(old(args)@) + flag_value(
                "-b:v"@,
                kbps_value(self.video_bitrate),
            ) + flag_value("-b:a"@, kbps_value(self.audio_bitrate)),
    {
        if let Some(vb) = self.video_bitrate {
            push_flag(args, "-b:v", kbps_string(vb));
        }
        let ghost mid = views(args@);
        assert(mid =~= views(old(args)@) + flag_value("-b:v"@, kbps_value(self.video_bitrate)));
        if let Some(ab) = self.audio_bitrate {
            push_flag(args, "-b:a", kbps_string(ab));
        }
        assert(views(args@) =~= mid + flag_value("-b:a"@, kbps_value(self.audio_bitrate)));
    }

    /// Returns the arguments that describe the output.
    pub fn to_args(&self) -> (res: Vec<String>)
        ensures
            views(res@) == self.spec_args(),
    {
        let mut args: Vec<String> = Vec::new();
        self.push_codec_args(&mut args);
        self.push_quality_args(&mut args);
        self.push_bitrate_args(&mut args);
        push_flag(&mut args, "-f", string_of(self.format.ffmpeg_name()));
        extend_strings(&mut args, &self.output_options);
        push_flag(&mut args, "-y", self.path.clone());
        assert(views(args@) =~= self.spec_args());
        args
    }
}

impl OutputConfig {
    /// Whether `other` holds the same path, options and settings.
    pub open spec fn same_as(self, other: OutputConfig) -> bool {
        &&& self.path == other.path
        &&& self.format == other.format
        &&& self.video_codec == other.video_codec
        &&& self.audio_codec == other.audio_codec
        &&& self.video_bitrate == other.video_bitrate
        &&& self.audio_bitrate == other.audio_bitrate
        &&& self.crf == other.crf
        &&& self.preset == other.preset
        &&& self.output_options@ == other.output_options@
    }
}

impl Clone for OutputConfig {
    fn clone(&self) -> (res: Self)
        ensures
            res.same_as(*self),
    {
        let opts = self.output_options.clone();
        assert(opts@ =~= self.output_options@);
        OutputConfig {
            path: self.path.clone(),
            format: self.format,
            video_codec: self.video_codec,
            audio_codec: self.audio_codec,
            video_bitrate: self.video_bitrate,
            audio_bitrate: self.audio_bitrate,
            crf: self.crf,
            preset: self.preset,
            output_options: opts,
        }
    }
}

/// Hardware acceleration back ends.
#[derive(Debug, Clone, Copy, PartialEq, Eq, Hash, Structural)]
pub enum HardwareAccel {
    Auto,
    Cuda,
    Vaapi,
    Qsv,
    VideoToolbox,
}

impl HardwareAccel {
    /// The name given after `-hwaccel`.
    pub open spec fn spec_ffmpeg_name(self) -> Seq<char> {
        match self {
            HardwareAccel::Auto => "auto"@,
            HardwareAccel::Cuda => "cuda"@,
            HardwareAccel::Vaapi => "vaapi"@,
            HardwareAccel::Qsv => "qsv"@,
            HardwareAccel::VideoToolbox => "videotoolbox"@,
        }
    }

    /// Returns the name given after `-hwaccel`.
    pub fn ffmpeg_name(&self) -> (res: &'static str)
        ensures
            res@ == self.spec_ffmpeg_name(),
    {
        match self {
            HardwareAccel::Auto => "auto",
            HardwareAccel::Cuda => "cuda",
            HardwareAccel::Vaapi => "vaapi",
            HardwareAccel::Qsv => "qsv",
            HardwareAccel::VideoToolbox => "videotoolbox",
        }
    }
}

/// FFmpeg log levels.
#[derive(Debug, Clone, Copy, PartialEq, Eq, Hash, Structural)]
pub enum LogLevel {
    Quiet,
    Panic,
    Fatal,
    Error,
    Warning,
    Info,
    Verbose,
    Debug,
}

impl LogLevel {
    /// The name given after `-loglevel`.
    pub open spec fn spec_ffmpeg_name(self) -> Seq<char> {
        match self {
            LogLevel::Quiet => "quiet"@,
            LogLevel::Panic => "panic"@,
            LogLevel::Fatal => "fatal"@,
            LogLevel::Error => "error"@,
            LogLevel::Warning => "warning"@,
            LogLevel::Info => "info"@,
            LogLevel::Verbose => "verbose"@,
            LogLevel::Debug => "debug"@,
        }
    }

    /// Returns the name given after `-loglevel`.
    pub fn ffmpeg_name(&self) -> (res: &'static str)
        ensures
            res@ == self.spec_ffmpeg_name(),
    {
        match self {
            LogLevel::Quiet => "quiet",
            LogLevel::Panic => "panic",
            LogLevel::Fatal => "fatal",
            LogLevel::Error => "error",
            LogLevel::Warning => "warning",
            LogLevel::Info => "info",
            LogLevel::Verbose => "verbose",
            LogLevel::Debug => "debug",
        }
    }
}

impl Default for LogLevel {
    fn default() -> (res: Self)
        ensures
            res == LogLevel::Info,
    {
        LogLevel::Info
    }
}

/// Options that come before the inputs.
#[derive(Debug, Clone, Copy)]
pub struct GlobalOptions {
    pub hide_banner: bool,
    pub overwrite: bool,
    pub threads: Option<u32>,
    pub hwaccel: Option<HardwareAccel>,
    pub loglevel: Option<LogLevel>,
}

impl GlobalOptions {
    /// The global arguments. The `overwrite` setting adds none: the output
    /// arguments always carry `-y`.
    pub open spec fn spec_args(self) -> Seq<Seq<char>> {
        (if self.hide_banner {
            seq!["-hide_banner"@]
        } else {
            seq![]
        }) + flag_value(
            "-threads"@,
            match self.threads {
                Some(t) => Some(nat_text(t as nat)),
                None => None,
            },
        ) + flag_value(
            "-hwaccel"@,
            match self.hwaccel {
                Some(h) => Some(h.spec_ffmpeg_name()),
                None => None,
            },
        ) + flag_value(
            "-loglevel"@,
            match self.loglevel {
                Some(l) => Some(l.spec_ffmpeg_name()),
                None => None,
            },
        )
    }

    /// Returns the global arguments.
    pub fn to_args(&self) -> (res: Vec<String>)
        ensures
            views(res@) == self.spec_args(),
    {
        let mut args: Vec<String> = Vec::new();
        if self.hide_banner {
            push_arg(&mut args, string_of("-hide_banner"));
        }
        if let Some(threads) = self.threads {
            push_flag(&mut args, "-threads", number_string(threads as u64));
        }
        if let Some(hwaccel) = self.hwaccel {
            push_flag(&mut args, "-hwaccel", string_of(hwaccel.ffmpeg_name()));
        }
        if let Some(loglevel) = self.loglevel {
            push_flag(&mut args, "-loglevel", string_of(loglevel.ffmpeg_name()));
        }
        assert(views(args@) =~= self.spec_args());
        args
    }
}

impl Default for GlobalOptions {
    fn default() -> (res: Self)
        ensures
            !res.hide_banner,
            !res.overwrite,
            res.threads.is_none(),
            res.hwaccel.is_none(),
            res.loglevel.is_none(),
    {
        GlobalOptions { hide_banner: false, overwrite: false, threads: None, hwaccel: None, loglevel: None }
    }
}

/// The arguments of a list of inputs, one input after another.
pub open spec fn inputs_args(inputs: Seq<InputConfig>) -> Seq<Seq<char>>
    decreases inputs.len(),
{
    if inputs.len() == 0 {
        seq![]
    } else {
        inputs_args(inputs.drop_last()) + inputs.last().spec_args()
    }
}

/// An argument as the command string shows it: in double quotes when it holds a
/// space or a semicolon.
pub open spec fn quote_arg(a: Seq<char>) -> Seq<char> {
    if a.contains(' ') || a.contains(';') {
        seq!['"'] + a + seq!['"']
    } else {
        a
    }
}

/// A complete FFmpeg invocation.
#[derive(Debug)]
pub struct FFMpegCommand {
    pub inputs: Vec<InputConfig>,
    pub output: OutputConfig,
    pub global_options: GlobalOptions,
    pub filters: FilterChain,
    pub raw_args: Vec<String>,
}

impl FFMpegCommand {
    /// The argument list: global options, each input, the `-vf` and `-af`
    /// filter arguments when there are filters of that kind, the output
    /// arguments, then the raw arguments.
    pub open spec fn spec_args(self) -> Seq<Seq<char>> {
        self.global_options.spec_args() + inputs_args(self.inputs@) + flag_value(
            "-vf"@,
            self.filters.spec_video_argument(),
        ) + flag_value("-af"@, self.filters.spec_audio_argument()) + self.output.spec_args()
            + views(self.raw_args@)
    }

    /// The command line as shown to the user: `ffmpeg` and the quoted arguments.
    pub open spec fn spec_command_string(self) -> Seq<char> {
        "ffmpeg "@ + join(self.spec_args().map_values(|a: Seq<char>| quote_arg(a)), " "@)
    }

    /// Returns the argument list of the command.
    pub fn to_args(&self) -> (res: Vec<String>)
        ensures
            views(res@) == self.spec_args(),
    {
        let mut args = self.global_options.to_args();
        let mut i: usize = 0;
        while i < self.inputs.len()
            invariant
                i <= self.inputs.len(),
                views(args@) == self.global_options.spec_args() + inputs_args(
                    self.inputs@.take(i as int),
                ),
            decreases self.inputs.len() - i,
        {
            let more = self.inputs[i].to_args();
            extend_strings(&mut args, &more);
            assert(self.inputs@.take(i + 1).drop_last() =~= self.inputs@.take(i as int));
            i = i + 1;
        }
        assert(self.inputs@.take(i as int) =~= self.inputs@);
        if let Some(vf) = self.filters.video_filter_string() {
            push_flag(&mut args, "-vf", vf);
        }
        if let Some(af) = self.filters.audio_filter_string() {
            push_flag(&mut args, "-af", af);
        }
        let out = self.output.to_args();
        extend_strings(&mut args, &out);
        extend_strings(&mut args, &self.raw_args);
        assert(views(args@) =~= self.spec_args());
        args
    }

    /// Returns the command line: `ffmpeg` followed by the arguments separated by
    /// spaces, each holding a space or a semicolon put in double quotes.
    pub fn to_command_string(&self) -> (res: String)
        ensures
            res@ == self.spec_command_string(),
    {
        let args = self.to_args();
        let ghost quoted = self.spec_args().map_values(|a: Seq<char>| quote_arg(a));
        let mut res = string_of("ffmpeg ");
        let mut i: usize = 0;
        while i < args.len()
            invariant
                i <= args.len(),
                views(args@) == self.spec_args(),
                quoted == self.spec_args().map_values(|a: Seq<char>| quote_arg(a)),
                res@ == "ffmpeg "@ + join(quoted.take(i as int), " "@),
            decreases args.len() - i,
        {
            if i > 0 {
                push_str(&mut res, " ");
            }
            let a = args[i].as_str();
            assert(a@ == views(args@)[i as int]);
            if has_char(a, ' ') || has_char(a, ';') {
                push_char(&mut res, '"');
                push_str(&mut res, a);
                push_char(&mut res, '"');
            } else {
                push_str(&mut res, a);
            }
            assert(quoted.take(i + 1).drop_last() =~= quoted.take(i as int));
            assert(res@ =~= "ffmpeg "@ + join(quoted.take(i + 1), " "@));
            i = i + 1;
        }
        assert(quoted.take(i as int) =~= quoted);
        res
    }

    /// Returns the path of the first input, if there is one.
    pub fn input_path(&self) -> (res: Option<&String>)
        ensures
            res.is_some() == (self.inputs@.len() > 0),
            res matches Some(p) ==> *p == self.inputs@[0].path,
    {
        if self.inputs.len() > 0 {
            Some(&self.inputs[0].path)
        } else {
            None
        }
    }

    /// Returns the output path.
    pub fn output_path(&self) -> (res: &String)
        ensures
            *res == self.output.path,
    {
        &self.output.path
    }

    /// Returns the filter chain.
    pub fn filters(&self) -> (res: &FilterChain)
        ensures
            *res == self.filters,
    {
        &self.filters
    }

    /// Returns the filter chain for changing it in place; the command is the
    /// same but for the chain as it is left.
    pub fn filters_mut(&mut self) -> (res: &mut FilterChain)
        ensures
            *res == old(self).filters,
            *final(self) == (FFMpegCommand { filters: *final(res), ..*old(self) }),
    {
        &mut self.filters
    }
}

/// The output arguments end with `-f` and FFmpeg's muxer for the container
/// (`matroska` for MKV, `mpegts` for MPEG-TS, else the container's own
/// name), the extra output options, then `-y` and the output path.
pub proof fn law_output_names_its_muxer(o: OutputConfig)
    ensures
        ({
            let a = o.spec_args();
            let k = a.len() - 4 - o.output_options@.len();
            &&& 0 <= k
            &&& a[k] == "-f"@
            &&& a[k + 1] == match o.format {
                ContainerFormat::Mp4 => "mp4"@,
                ContainerFormat::Mkv => "matroska"@,
                ContainerFormat::Webm => "webm"@,
                ContainerFormat::Mov => "mov"@,
                ContainerFormat::Avi => "avi"@,
                ContainerFormat::Flv => "flv"@,
                ContainerFormat::Ts => "mpegts"@,
                ContainerFormat::Mp3 => "mp3"@,
                ContainerFormat::Flac => "flac"@,
                ContainerFormat::Wav => "wav"@,
                ContainerFormat::Ogg => "ogg"@,
            }
            &&& a[a.len() - 2] == "-y"@
            &&& a[a.len() - 1] == o.path@
        }),
{
    let a = o.spec_args();
    let head = o.spec_video_args() + o.spec_audio_args() + o.spec_crf_args() + o.spec_preset_args()
        + flag_value("-b:v"@, kbps_value(o.video_bitrate)) + flag_value("-b:a"@, kbps_value(o.audio_bitrate));
    let tail = seq!["-f"@, o.format.spec_ffmpeg_name()] + views(o.output_options@) + seq!["-y"@, o.path@];
    assert(a =~= head + tail);
    let k = a.len() - 4 - o.output_options@.len();
    assert(k == head.len());
    assert(a[k] == tail[0]);
    assert(a[k + 1] == tail[1]);
}

/// Whether two lists of inputs hold the same inputs in the same order.
pub open spec fn same_inputs(a: Seq<InputConfig>, b: Seq<InputConfig>) -> bool {
    &&& a.len() == b.len()
    &&& forall|i: int| 0 <= i < a.len() ==> (#[trigger] a[i]).same_as(b[i])
}

/// Inputs that are the same give the same arguments.
proof fn lemma_same_inputs_args(a: Seq<InputConfig>, b: Seq<InputConfig>)
    requires
        same_inputs(a, b),
    ensures
        inputs_args(a) == inputs_args(b),
    decreases a.len(),
{
    if a.len() > 0 {
        let (pa, pb) = (a.drop_last(), b.drop_last());
        assert(same_inputs(pa, pb)) by {
            assert forall|i: int| 0 <= i < pa.len() implies (#[trigger] pa[i]).same_as(pb[i]) by {
                assert(a[i].same_as(b[i]));
            }
        }
        lemma_same_inputs_args(pa, pb);
        assert(a.last().same_as(b.last()));
        assert(a.last().spec_args() == b.last().spec_args());
    }
}

impl FFMpegCommand {
    /// Whether `other` holds the same inputs, output, options, filters and
    /// extra arguments.
    pub open spec fn same_as(self, other: FFMpegCommand) -> bool {
        &&& same_inputs(self.inputs@, other.inputs@)
        &&& self.output.same_as(other.output)
        &&& self.global_options == other.global_options
        &&& self.filters.video() == other.filters.video()
        &&& self.filters.audio() == other.filters.audio()
        &&& self.raw_args@ == other.raw_args@
    }
}

impl Clone for FFMpegCommand {
    /// A copy of the command, which gives the same arguments.
    fn clone(&self) -> (res: Self)
        ensures
            res.same_as(*self),
            res.spec_args() == self.spec_args(),
    {
        let mut inputs: Vec<InputConfig> = Vec::new();
        let mut i: usize = 0;
        while i < self.inputs.len()
            invariant
                i <= self.inputs@.len(),
                same_inputs(inputs@, self.inputs@.take(i as int)),
            decreases self.inputs@.len() - i,
        {
            inputs.push(self.inputs[i].clone());
            i = i + 1;
        }
        assert(self.inputs@.take(i as int) =~= self.inputs@);
        let raw_args = self.raw_args.clone();
        assert(raw_args@ =~= self.raw_args@);
        let res = FFMpegCommand {
            inputs,
            output: self.output.clone(),
            global_options: self.global_options,
            filters: self.filters.clone(),
            raw_args,
        };
        proof {
            lemma_same_inputs_args(res.inputs@, self.inputs@);
        }
        res
    }
}

} // verus!

verus! {

/// The container format chosen for an output path: the one its extension
/// names, else MP4.
pub open spec fn format_for_path(path: Seq<char>) -> ContainerFormat {
    match path_extension(path) {
        Some(e) => match ContainerFormat::spec_from_extension(e) {
            Some(f) => f,
            None => ContainerFormat::Mp4,
        },
        None => ContainerFormat::Mp4,
    }
}

/// Whether `o` holds the settings given to a new output path: the path, its
/// format, H.264 video, AAC audio at 192 kbps, CRF 23, the medium preset and
/// no extra options.
pub open spec fn is_new_output(o: OutputConfig, path: Seq<char>) -> bool {
    &&& o.path@ == path
    &&& o.format == format_for_path(path)
    &&& o.video_codec == VideoCodec::H264
    &&& o.audio_codec == AudioCodec::Aac
    &&& o.video_bitrate.is_none()
    &&& o.audio_bitrate == Some(192u32)
    &&& o.crf == Some(23u8)
    &&& o.preset == Some(EncodingPreset::Medium)
    &&& o.output_options@.len() == 0
}

/// Whether `i` is a plain input of `path` with the given seek and duration.
pub open spec fn is_new_input(
    i: InputConfig,
    path: Seq<char>,
    seek: Option<Decimal>,
    duration: Option<Decimal>,
) -> bool {
    &&& i.path@ == path
    &&& i.seek_start == seek
    &&& i.duration == duration
    &&& i.stream_loop.is_none()
    &&& i.input_options@.len() == 0
}

/// Builds an `FFMpegCommand` step by step.
#[derive(Debug, Clone)]
pub struct CommandBuilder {
    pub inputs: Vec<InputConfig>,
    pub output: Option<OutputConfig>,
    pub global_options: GlobalOptions,
    pub filters: FilterChain,
    pub raw_args: Vec<String>,
}

impl CommandBuilder {
    /// A builder with no inputs and no output, the banner hidden and overwriting on.
    pub fn new() -> (res: Self)
        ensures
            res.inputs@.len() == 0,
            res.output.is_none(),
            res.global_options == (GlobalOptions {
                hide_banner: true,
                overwrite: true,
                threads: None,
                hwaccel: None,
                loglevel: None,
            }),
            res.filters.video().len() == 0,
            res.filters.audio().len() == 0,
            res.raw_args@.len() == 0,
    {
        CommandBuilder {
            inputs: Vec::new(),
            output: None,
            global_options: GlobalOptions {
                hide_banner: true,
                overwrite: true,
                threads: None,
                hwaccel: None,
                loglevel: None,
            },
            filters: FilterChain::new(),
            raw_args: Vec::new(),
        }
    }

    /// Adds an input file.
    pub fn input(self, path: String) -> (res: Self)
        ensures
            res.inputs@.len() == self.inputs@.len() + 1,
            res.inputs@.drop_last() == self.inputs@,
            is_new_input(res.inputs@.last(), path@, None, None),
            res.output == self.output,
            res.global_options == self.global_options,
            res.filters == self.filters,
            res.raw_args == self.raw_args,
    {
        self.input_with_range(path, None, None)
    }

    /// Adds an input file read from `seek` for `duration`.
    pub fn input_with_range(self, path: String, seek: Option<Decimal>, duration: Option<Decimal>) -> (res: Self)
        ensures
            res.inputs@.len() == self.inputs@.len() + 1,
            res.inputs@.drop_last() == self.inputs@,
            is_new_input(res.inputs@.last(), path@, seek, duration),
            res.output == self.output,
            res.global_options == self.global_options,
            res.filters == self.filters,
            res.raw_args == self.raw_args,
    {
        let mut b = self;
        let ghost old_inputs = b.inputs@;
        b.inputs.push(
            InputConfig {
                path,
                seek_start: seek,
                duration,
                stream_loop: None,
                input_options: Vec::new(),
            },
        );
        assert(b.inputs@.drop_last() =~= old_inputs);
        b
    }

    /// Sets the output file, with the format its extension names (MP4 when it
    /// names none) and the default encoding settings.
    pub fn output(self, path: String) -> (res: Self)
        ensures
            res.output.is_some(),
            is_new_output(res.output.unwrap(), path@),
            res.inputs == self.inputs,
            res.global_options == self.global_options,
            res.filters == self.filters,
            res.raw_args == self.raw_args,
    {
        let mut b = self;
        let format = match extension_of(path.as_str()) {
            Some(e) => match ContainerFormat::from_extension(e.as_str()) {
                Some(f) => f,
                None => ContainerFormat::Mp4,
            },
            None => ContainerFormat::Mp4,
        };
        b.output = Some(
            OutputConfig {
                path,
                format,
                video_codec: VideoCodec::H264,
                audio_codec: AudioCodec::Aac,
                video_bitrate: None,
                audio_bitrate: Some(192),
                crf: Some(23),
                preset: Some(EncodingPreset::Medium),
                output_options: Vec::new(),
            },
        );
        b
    }

    /// Sets the video codec of the output; without an output, nothing changes.
    pub fn video_codec(self, codec: VideoCodec) -> (res: Self)
        ensures
            res.output == (match self.output {
                Some(o) => Some(OutputConfig { video_codec: codec, ..o }),
                None => None,
            }),
            res.inputs == self.inputs,
            res.global_options == self.global_options,
            res.filters == self.filters,
            res.raw_args == self.raw_args,
    {
        let mut b = self;
        if let Some(output) = &mut b.output {
            output.video_codec = codec;
        }
        b
    }

    /// Sets the audio codec of the output; without an output, nothing changes.
    pub fn audio_codec(self, codec: AudioCodec) -> (res: Self)
        ensures
            res.output == (match self.output {
                Some(o) => Some(OutputConfig { audio_codec: codec, ..o }),
                None => None,
            }),
            res.inputs == self.inputs,
            res.global_options == self.global_options,
            res.filters == self.filters,
            res.raw_args == self.raw_args,
    {
        let mut b = self;
        if let Some(output) = &mut b.output {
            output.audio_codec = codec;
        }
        b
    }

    /// Sets the container format of the output; without an output, nothing changes.
    pub fn format(self, format: ContainerFormat) -> (res: Self)
        ensures
            res.output == (match self.output {
                Some(o) => Some(OutputConfig { format: format, ..o }),
                None => None,
            }),
            res.inputs == self.inputs,
            res.global_options == self.global_options,
            res.filters == self.filters,
            res.raw_args == self.raw_args,
    {
        let mut b = self;
        if let Some(output) = &mut b.output {
            output.format = format;
        }
        b
    }

    /// Sets the CRF of the output; without an output, nothing changes.
    pub fn crf(self, crf: u8) -> (res: Self)
        ensures
            res.output == (match self.output {
                Some(o) => Some(OutputConfig { crf: Some(crf), ..o }),
                None => None,
            }),
            res.inputs == self.inputs,
            res.global_options == self.global_options,
            res.filters == self.filters,
            res.raw_args == self.raw_args,
    {
        let mut b = self;
        if let Some(output) = &mut b.output {
            output.crf = Some(crf);
        }
        b
    }

    /// Sets the encoding preset of the output; without an output, nothing changes.
    pub fn preset(self, preset: EncodingPreset) -> (res: Self)
        ensures
            res.output == (match self.output {
                Some(o) => Some(OutputConfig { preset: Some(preset), ..o }),
                None => None,
            }),
            res.inputs == self.inputs,
            res.global_options == self.global_options,
            res.filters == self.filters,
            res.raw_args == self.raw_args,
    {
        let mut b = self;
        if let Some(output) = &mut b.output {
            output.preset = Some(preset);
        }
        b
    }

    /// Sets a target video bitrate, which replaces the CRF; without an output,
    /// nothing changes.
    pub fn video_bitrate(self, bitrate: u32) -> (res: Self)
        ensures
            res.output == (match self.output {
                Some(o) => Some(OutputConfig { video_bitrate: Some(bitrate), crf: None, ..o }),
                None => None,
            }),
            res.inputs == self.inputs,
            res.global_options == self.global_options,
            res.filters == self.filters,
            res.raw_args == self.raw_args,
    {
        let mut b = self;
        if let Some(output) = &mut b.output {
            output.video_bitrate = Some(bitrate);
            output.crf = None;
        }
        b
    }

    /// Replaces the filter chain.
    pub fn filters(self, filters: FilterChain) -> (res: Self)
        ensures
            res.filters == filters,
            res.inputs == self.inputs,
            res.output == self.output,
            res.global_options == self.global_options,
            res.raw_args == self.raw_args,
    {
        let mut b = self;
        b.filters = filters;
        b
    }

    /// Sets the number of encoder threads.
    pub fn threads(self, threads: u32) -> (res: Self)
        ensures
            res.global_options == (GlobalOptions { threads: Some(threads), ..self.global_options }),
            res.inputs == self.inputs,
            res.output == self.output,
            res.filters == self.filters,
            res.raw_args == self.raw_args,
    {
        let mut b = self;
        b.global_options.threads = Some(threads);
        b
    }

    /// Sets the hardware acceleration back end.
    pub fn hardware_accel(self, accel: HardwareAccel) -> (res: Self)
        ensures
            res.global_options == (GlobalOptions { hwaccel: Some(accel), ..self.global_options }),
            res.inputs == self.inputs,
            res.output == self.output,
            res.filters == self.filters,
            res.raw_args == self.raw_args,
    {
        let mut b = self;
        b.global_options.hwaccel = Some(accel);
        b
    }

    /// Appends a raw argument, passed to FFmpeg after the output arguments.
    pub fn raw_arg(self, arg: String) -> (res: Self)
        ensures
            res.raw_args@ == self.raw_args@.push(arg),
            res.inputs == self.inputs,
            res.output == self.output,
            res.global_options == self.global_options,
            res.filters == self.filters,
    {
        let mut b = self;
        b.raw_args.push(arg);
        b
    }

    /// Builds the command: fails with `NoInput` when no input was given, else
    /// with `NoOutput` when no output was given.
    pub fn build(self) -> (res: Result<FFMpegCommand, CommandBuildError>)
        ensures
            self.inputs@.len() == 0 ==> res matches Err(CommandBuildError::NoInput),
            self.inputs@.len() > 0 && self.output.is_none() ==> res matches Err(
                CommandBuildError::NoOutput,
            ),
            self.inputs@.len() > 0 && self.output.is_some() ==> (res matches Ok(cmd) && cmd
                == FFMpegCommand {
                inputs: self.inputs,
                output: self.output.unwrap(),
                global_options: self.global_options,
                filters: self.filters,
                raw_args: self.raw_args,
            }),
    {
        if self.inputs.len() == 0 {
            return Err(CommandBuildError::NoInput);
        }
        match self.output {
            None => Err(CommandBuildError::NoOutput),
            Some(output) => Ok(
                FFMpegCommand {
                    inputs: self.inputs,
                    output,
                    global_options: self.global_options,
                    filters: self.filters,
                    raw_args: self.raw_args,
                },
            ),
        }
    }
}

impl Default for CommandBuilder {
    fn default() -> (res: Self)
        ensures
            res.inputs@.len() == 0,
            res.output.is_none(),
            !res.global_options.hide_banner,
            !res.global_options.overwrite,
            res.global_options.threads.is_none(),
            res.global_options.hwaccel.is_none(),
            res.global_options.loglevel.is_none(),
            res.filters.video().len() == 0,
            res.filters.audio().len() == 0,
            res.raw_args@.len() == 0,
    {
        CommandBuilder {
            inputs: Vec::new(),
            output: None,
            global_options: GlobalOptions::default(),
            filters: FilterChain::new(),
            raw_args: Vec::new(),
        }
    }
}

} // verus!
