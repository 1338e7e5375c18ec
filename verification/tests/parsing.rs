use ffmpeg_tui::app::keys::{handle_key_event, Key};
use ffmpeg_tui::app::{Action, ApplicationState, BuilderField, NavigationTarget, Screen};
use ffmpeg_tui::domain::{
    AudioStream, ContainerFormat, DataStream, FormatInfo, MediaInfo, StreamInfo, VideoCodec,
    VideoStream,
};
use ffmpeg_tui::infra::{ExecutionMonitor, FFMpegExecutor, FFProbeExecutor, ProcessError, RawFormat, RawProbeOutput, RawStream};
use ffmpeg_tui::parser::progress::{extract_value, parse_duration_line, read_line, read_size, read_time};
use ffmpeg_tui::parser::{DurationStamp, LineReading, SizeReading};
use ffmpeg_tui::preset::{builtin_presets, is_preset_file, PresetCategory, PresetError};

const PROGRESS: &str =
    "frame=  240 fps= 48 q=28.0 size=    1024kB time=00:00:10.00 bitrate= 838.9kbits/s speed=1.95x";

#[test]
fn progress_values_are_extracted() {
    assert_eq!(extract_value(PROGRESS, "frame=").as_deref(), Some("240"));
    assert_eq!(extract_value(PROGRESS, "fps=").as_deref(), Some("48"));
    assert_eq!(extract_value(PROGRESS, "size=").as_deref(), Some("1024kB"));
    assert_eq!(extract_value(PROGRESS, "bitrate=").as_deref(), Some("838.9kbits/s"));
    assert_eq!(extract_value(PROGRESS, "speed=").as_deref(), Some("1.95x"));
    assert_eq!(extract_value("a=", "a=").as_deref(), Some(""));
    assert_eq!(extract_value("a=1\tb=2", "a=").as_deref(), Some("1"));
    assert_eq!(extract_value("a=1  b=2", "a=").as_deref(), Some("1"));
    assert_eq!(extract_value("nothing here", "a=").as_deref(), None);
}

#[test]
fn progress_lines_are_read() {
    match read_line(PROGRESS) {
        LineReading::Progress(f) => {
            assert_eq!(f.frame, 240);
            assert_eq!(f.fps.as_deref(), Some("48"));
            assert_eq!(f.size.as_deref(), Some("1024kB"));
            assert_eq!(f.bitrate.as_deref(), Some("838.9"));
            assert_eq!(f.speed.as_deref(), Some("1.95"));
            assert_eq!(f.time.as_deref(), Some("00:00:10.00"));
        }
        other => panic!("unexpected {other:?}"),
    }
    match read_line("frame=100 fps=25.0 size=1024kB time=00:00:04.00 bitrate=2097.2kbits/s speed=1.00x") {
        LineReading::Progress(f) => {
            assert_eq!(f.frame, 100);
            assert_eq!(f.fps.as_deref(), Some("25.0"));
            assert_eq!(f.size.as_deref(), Some("1024kB"));
            assert_eq!(f.time.as_deref(), Some("00:00:04.00"));
            assert_eq!(f.bitrate.as_deref(), Some("2097.2"));
            assert_eq!(f.speed.as_deref(), Some("1.00"));
        }
        other => panic!("unexpected {other:?}"),
    }
    match read_line("frame=12\tfps=3.5\ttime=00:00:01.50\tspeed=2x\tbitrate=100.0kbits/s\tsize=512kB") {
        LineReading::Progress(f) => {
            assert_eq!(f.frame, 12);
            assert_eq!(f.fps.as_deref(), Some("3.5"));
            assert_eq!(f.time.as_deref(), Some("00:00:01.50"));
            assert_eq!(f.speed.as_deref(), Some("2"));
            assert_eq!(f.bitrate.as_deref(), Some("100.0"));
            assert_eq!(f.size.as_deref(), Some("512kB"));
        }
        other => panic!("unexpected {other:?}"),
    }
    assert!(matches!(read_line("Stream #0:0: Video: h264"), LineReading::Other));
}

#[test]
fn duration_lines_are_read() {
    let line = "  Duration: 01:02:03.45, start: 0.000000, bitrate: 1205 kb/s";
    assert_eq!(
        parse_duration_line(line),
        Some(DurationStamp { hours: 1, minutes: 2, seconds: 3, centis: 45 })
    );
    assert!(matches!(read_line(line), LineReading::Duration(d) if d.seconds == 3));
    assert_eq!(parse_duration_line("Duration: N/A"), None);
    assert_eq!(
        parse_duration_line("Duration:00:00:09.90"),
        Some(DurationStamp { hours: 0, minutes: 0, seconds: 9, centis: 90 })
    );
    assert_eq!(
        parse_duration_line("Duration: N/A, later Duration:\t\u{a0} 10:20:30.40"),
        Some(DurationStamp { hours: 10, minutes: 20, seconds: 30, centis: 40 })
    );
    assert_eq!(parse_duration_line("Duration: 01:02:03.4"), None);
    assert_eq!(parse_duration_line("Duration: 1:02:03.45"), None);
    assert_eq!(parse_duration_line("duration: 01:02:03.45"), None);
    assert_eq!(parse_duration_line("Duration: \u{661}\u{662}:02:03.45"), None);
}

#[test]
fn sizes_and_times_are_read() {
    assert!(matches!(read_size(" N/A "), SizeReading::NotAvailable));
    assert!(matches!(read_size("1024kB"), SizeReading::KiloBytes(n) if n == "1024"));
    assert!(matches!(read_size("1.5 MB"), SizeReading::MegaBytes(n) if n == "1.5"));
    assert!(matches!(read_size("2048"), SizeReading::Bytes(2048)));
    assert!(matches!(read_size("lots"), SizeReading::Unreadable));
    assert_eq!(
        read_time("00:01:02.50"),
        Some(("00".to_string(), "01".to_string(), "02.50".to_string()))
    );
    assert_eq!(read_time("-00:00:01.00"), None);
    assert_eq!(read_time("N/A"), None);
    assert_eq!(read_time("01:02"), None);
    assert_eq!(read_time("1:2:3:4"), None);
}

fn audio(layout: Option<&str>, channels: Option<u32>) -> AudioStream {
    AudioStream {
        index: 1,
        codec_name: "aac".to_string(),
        codec_long_name: None,
        profile: None,
        sample_rate: Some(48000),
        channels,
        channel_layout: layout.map(|s| s.to_string()),
        sample_fmt: None,
        bit_rate: None,
        bits_per_sample: None,
        tags: vec![],
    }
}

fn video(width: u32, height: u32, transfer: Option<&str>) -> VideoStream {
    VideoStream {
        index: 0,
        codec_name: "h264".to_string(),
        codec_long_name: None,
        profile: None,
        width,
        height,
        coded_width: None,
        coded_height: None,
        display_aspect_ratio: None,
        sample_aspect_ratio: None,
        pix_fmt: None,
        frame_rate: None,
        avg_frame_rate: None,
        bit_rate: None,
        bits_per_raw_sample: None,
        color_space: None,
        color_range: None,
        color_transfer: transfer.map(|s| s.to_string()),
        color_primaries: None,
        tags: vec![],
    }
}

#[test]
fn streams_are_described() {
    assert_eq!(audio(Some("stereo"), Some(2)).channel_description(), "Stereo");
    assert_eq!(audio(Some("5.1(side)"), None).channel_description(), "5.1 Surround");
    assert_eq!(audio(Some("quad"), None).channel_description(), "quad");
    assert_eq!(audio(None, Some(6)).channel_description(), "6 channel(s)");
    assert_eq!(audio(None, None).channel_description(), "Unknown");
    assert_eq!(video(3840, 2160, None).resolution_class(), "4K UHD");
    assert_eq!(video(1280, 720, None).resolution_class(), "720p");
    assert_eq!(video(640, 360, None).resolution_class(), "SD");
    assert!(video(1920, 1080, Some("smpte2084")).is_hdr());
    assert!(!video(1920, 1080, Some("bt709")).is_hdr());
}

#[test]
fn media_info_finds_its_streams() {
    let info = MediaInfo {
        path: "/m.mkv".to_string(),
        format: FormatInfo {
            format_name: "matroska".to_string(),
            format_long_name: None,
            duration: None,
            size: Some(10),
            bit_rate: None,
            tags: vec![],
        },
        streams: vec![
            StreamInfo::Data(DataStream { index: 0, codec_name: "bin".to_string(), tags: vec![] }),
            StreamInfo::Audio(audio(Some("mono"), Some(1))),
            StreamInfo::Video(video(1920, 1080, None)),
            StreamInfo::Video(video(640, 480, None)),
        ],
    };
    assert_eq!(info.video_streams().len(), 2);
    assert_eq!(info.audio_streams().len(), 1);
    assert_eq!(info.video_stream().unwrap().width, 1920);
    assert_eq!(info.audio_stream().unwrap().channel_description(), "Mono");
    assert_eq!(info.resolution_string(), "1920x1080");
    assert_eq!(info.file_size(), Some(10));
    assert_eq!(info.streams[0].kind_name(), "Data");
    assert_eq!(info.streams[2].index(), 0);
}

fn raw_stream(kind: &str) -> RawStream {
    RawStream {
        index: 3,
        codec_name: "c".to_string(),
        codec_long_name: None,
        codec_type: kind.to_string(),
        profile: None,
        width: Some(1280),
        height: None,
        coded_width: None,
        coded_height: None,
        display_aspect_ratio: None,
        sample_aspect_ratio: None,
        pix_fmt: None,
        r_frame_rate: None,
        avg_frame_rate: None,
        bit_rate: Some("+128000".to_string()),
        bits_per_raw_sample: Some("x8".to_string()),
        color_space: None,
        color_range: None,
        color_transfer: None,
        color_primaries: None,
        sample_rate: Some("44100".to_string()),
        channels: Some(2),
        channel_layout: None,
        sample_fmt: None,
        bits_per_sample: None,
        tags: Some(vec![("language".to_string(), "eng".to_string())]),
    }
}

#[test]
fn probe_reports_are_converted() {
    let probe = FFProbeExecutor::new();
    let raw = RawProbeOutput {
        format: RawFormat {
            format_name: "mp4".to_string(),
            format_long_name: None,
            duration: None,
            size: Some("12345".to_string()),
            bit_rate: Some("99999999999999999999999".to_string()),
            tags: None,
        },
        streams: vec![raw_stream("video"), raw_stream("audio"), raw_stream("subtitle"), raw_stream("attachment")],
    };
    let info = probe.convert_probe_output("/f.mp4".to_string(), raw);
    assert_eq!(info.format.size, Some(12345));
    assert_eq!(info.format.bit_rate, None);
    match &info.streams[0] {
        StreamInfo::Video(v) => {
            assert_eq!((v.width, v.height), (1280, 0));
            assert_eq!(v.bit_rate, Some(128000));
            assert_eq!(v.bits_per_raw_sample, None);
        }
        other => panic!("unexpected {other:?}"),
    }
    assert!(matches!(&info.streams[1], StreamInfo::Audio(a) if a.sample_rate == Some(44100)));
    assert!(matches!(&info.streams[2], StreamInfo::Subtitle(s) if s.language.as_deref() == Some("eng")));
    assert!(matches!(&info.streams[3], StreamInfo::Data(d) if d.index == 3));
    let args = FFProbeExecutor::probe_args("/f.mp4");
    assert_eq!(args, vec!["-v", "quiet", "-print_format", "json", "-show_format", "-show_streams", "/f.mp4"]);
}

#[test]
fn process_errors_and_outcomes() {
    assert_eq!(ProcessError::Killed.message(), "Process was killed by signal");
    assert_eq!(
        ProcessError::NonZeroExit { code: -1, stderr: String::new() }.message(),
        "Process exited with non-zero status: -1"
    );
    assert_eq!(FFProbeExecutor::failure("bad").message(), "FFmpeg error: FFprobe failed: bad");
    let mut monitor = ExecutionMonitor::new();
    monitor.observe("frame=1");
    monitor.observe("[out] Error opening output");
    monitor.observe("frame=2");
    match monitor.clone().finish(false, Some(1), None) {
        Err(ProcessError::NonZeroExit { code, stderr }) => {
            assert_eq!(code, 1);
            assert_eq!(stderr, "[out] Error opening output");
        }
        other => panic!("unexpected {other:?}"),
    }
    assert!(matches!(monitor.finish(true, Some(0), None), Ok(0)));
    assert_eq!(
        FFMpegExecutor::version_from_output(true, "ffmpeg version 7.0\r\nbuilt with gcc\n").unwrap(),
        "ffmpeg version 7.0"
    );
    assert_eq!(FFMpegExecutor::version_from_output(true, "").unwrap(), "unknown");
    assert!(FFMpegExecutor::version_from_output(false, "x").is_err());
    assert_eq!(FFMpegExecutor::with_binary("/opt/ff".to_string()).binary_path, "/opt/ff");
}

#[test]
fn presets_and_their_files() {
    let presets = builtin_presets();
    assert_eq!(presets.len(), 13);
    assert_eq!(presets[0].name, "High quality compress");
    assert_eq!(presets[5].video_codec, VideoCodec::NoVideo);
    assert_eq!(presets[7].container, ContainerFormat::Ogg);
    assert_eq!(presets[12].crf, Some(16));
    assert_eq!(PresetCategory::Social.display_name(), "Social Media");
    assert_eq!(PresetError::NotFound("x".to_string()).message(), "Preset not found: x");
    assert!(is_preset_file("/home/u/presets/fast.toml"));
    assert!(!is_preset_file("/home/u/presets/fast.json"));
    assert!(!is_preset_file("/home/u/presets/toml"));
}

#[test]
fn keys_map_to_actions() {
    let mut state = ApplicationState::new(FFMpegExecutor::new(), FFProbeExecutor::new());
    assert!(matches!(
        handle_key_event(Key::Char('3'), &mut state, &[]),
        Some(Action::Navigate(NavigationTarget::Queue))
    ));
    assert!(matches!(handle_key_event(Key::Esc, &mut state, &[]), Some(Action::Quit)));
    state.screen = Screen::Builder;
    state.builder.current_field = BuilderField::VideoCodec;
    assert!(matches!(
        handle_key_event(Key::Right, &mut state, &[]),
        Some(Action::SetVideoCodec(VideoCodec::H265))
    ));
    assert!(matches!(
        handle_key_event(Key::Left, &mut state, &[]),
        Some(Action::SetVideoCodec(VideoCodec::Copy))
    ));
    state.builder.current_field = BuilderField::Quality;
    state.builder.crf = 51;
    assert!(matches!(handle_key_event(Key::Right, &mut state, &[]), Some(Action::SetCrf(51))));
    assert!(matches!(
        handle_key_event(Key::Char('p'), &mut state, &[]),
        Some(Action::LoadPreset(n)) if n == "High quality compress"
    ));
    state.builder.raw_command_mode = true;
    assert!(matches!(handle_key_event(Key::Char('1'), &mut state, &[]), Some(Action::RawCommandAppend('1'))));
}
