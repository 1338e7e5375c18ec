use ffmpeg_tui::domain::{
    AudioCodec, CommandBuildError, CommandBuilder, ContainerFormat, FilterChain, ScaleDimension,
    VideoCodec, VideoFilter,
};

#[test]
fn video_codec_ffmpeg_names() {
    assert_eq!(VideoCodec::H264.ffmpeg_name(), "libx264");
    assert_eq!(VideoCodec::H265.ffmpeg_name(), "libx265");
    assert_eq!(VideoCodec::Copy.ffmpeg_name(), "copy")
}

#[test]
fn audio_codec_ffmpeg_names() {
    assert_eq!(AudioCodec::Aac.ffmpeg_name(), "aac");
    assert_eq!(AudioCodec::Mp3.ffmpeg_name(), "libmp3lame");
    assert_eq!(AudioCodec::Copy.ffmpeg_name(), "copy");
}

#[test]
fn crf_support() {
    assert!(VideoCodec::H264.supports_crf());
    assert!(VideoCodec::H265.supports_crf());
    assert!(!VideoCodec::Copy.supports_crf());
    assert!(!VideoCodec::ProRes.supports_crf());
}

#[test]
fn format_extensions() {
    assert_eq!(ContainerFormat::Mp4.extension(), "mp4");
    assert_eq!(ContainerFormat::Mkv.extension(), "mkv");
}

#[test]
fn format_from_extension() {
    assert_eq!(ContainerFormat::from_extension("mp4"), Some(ContainerFormat::Mp4));
    assert_eq!(ContainerFormat::from_extension("MP4"), Some(ContainerFormat::Mp4));
    assert_eq!(ContainerFormat::from_extension("xyz"), None);
}

#[test]
fn video_support() {
    assert!(ContainerFormat::Mp4.supports_video());
    assert!(!ContainerFormat::Mp3.supports_video());
}

#[test]
fn build_basic_command() {
    let cmd = CommandBuilder::new()
        .input("input.mp4".to_string())
        .output("output.mp4".to_string())
        .build()
        .unwrap();

    let args = cmd.to_args();

    println!("{:?}", args);

    assert!(args.contains(&"-i".to_string()));
    assert!(args.contains(&"input.mp4".to_string()));
    assert!(args.contains(&"output.mp4".to_string()))
}

#[test]
fn build_with_codecs() {
    let cmd = CommandBuilder::new()
        .input("input.mp4".to_string())
        .output("output.mp4".to_string())
        .video_codec(VideoCodec::H265)
        .audio_codec(AudioCodec::Opus)
        .build()
        .unwrap();

    let args = cmd.to_args();
    println!("{:?}", args);
    assert!(args.contains(&"libx265".to_string()));
    assert!(args.contains(&"libopus".to_string()));
}

#[test]
fn build_with_filters() {
    let mut filters = FilterChain::new();
    filters.add_video_filter(VideoFilter::Scale {
        width: ScaleDimension::Exact(1920),
        height: ScaleDimension::Exact(1080),
    });

    let cmd = CommandBuilder::new()
        .input("input.mp4".to_string())
        .output("output.mp4".to_string())
        .filters(filters)
        .build()
        .unwrap();

    let args = cmd.to_args();
    println!("{:?}", args);
    assert!(args.contains(&"-vf".to_string()));

    assert!(args.contains(&"scale=1920:1080".to_string()));
}

#[test]
fn error_on_missing_input() {
    let result = CommandBuilder::new().output("output.mp4".to_string()).build();

    assert!(matches!(result, Err(CommandBuildError::NoInput)));
}

#[test]
fn error_on_missing_output() {
    let result = CommandBuilder::new().input("input.mp4".to_string()).build();

    assert!(matches!(result, Err(CommandBuildError::NoOutput)));
}

#[test]
fn audio_extraction_drops_the_video_stream() {
    let cmd = CommandBuilder::new()
        .input("input.mp4".to_string())
        .output("out.mp3".to_string())
        .video_codec(VideoCodec::NoVideo)
        .audio_codec(AudioCodec::Mp3)
        .crf(23)
        .build()
        .unwrap();
    let args = cmd.to_args();
    assert!(args.contains(&"-vn".to_string()));
    assert!(!args.contains(&"-vh".to_string()));
    assert!(!args.contains(&"-c:v".to_string()));
    assert!(!args.contains(&"-crf".to_string()));
    assert!(!args.contains(&"-preset".to_string()));
    assert!(args.contains(&"libmp3lame".to_string()));
}

#[test]
fn extensions_read_back_in_any_case() {
    let formats: Vec<ContainerFormat> = ContainerFormat::video_formats()
        .iter()
        .chain(ContainerFormat::audio_formats().iter())
        .copied()
        .collect();
    for f in formats {
        let ext = f.extension();
        assert_eq!(ContainerFormat::from_extension(ext), Some(f));
        assert_eq!(ContainerFormat::from_extension(&ext.to_uppercase()), Some(f));
    }
    assert_eq!(ContainerFormat::from_extension("mKv"), Some(ContainerFormat::Mkv));
    assert_eq!(ContainerFormat::from_extension("M4V"), Some(ContainerFormat::Mp4));
    assert_eq!(ContainerFormat::from_extension("MTS"), Some(ContainerFormat::Ts));
}

#[test]
fn filters_can_be_changed_in_place() {
    let mut cmd = CommandBuilder::new()
        .input("input.mp4".to_string())
        .output("output.mp4".to_string())
        .build()
        .unwrap();
    assert!(!cmd.to_args().contains(&"-vf".to_string()));
    cmd.filters_mut().add_video_filter(VideoFilter::Scale {
        width: ScaleDimension::Exact(640),
        height: ScaleDimension::Exact(360),
    });
    let args = cmd.to_args();
    assert!(args.contains(&"-vf".to_string()));
    assert!(args.contains(&"scale=640:360".to_string()));
}
