use wayclip_core::error::{IntErrorKind, WayclipError};
use wayclip_core::settings::output::{Age, Directory, LimitSettings, OutputSettings, Prune, VideoFormat};
use wayclip_core::settings::recording::{
    AudioCodec, Bitrate, CodecType, Fps, Resolution, SampleRate, VideoCodec, VideoSettings,
};

#[test]
fn fps_reads_values_in_range() {
    assert_eq!(Fps::from_str("60").unwrap().0, 60);
    assert_eq!(Fps::from_str("+1").unwrap().0, 1);
    assert!(matches!(Fps::from_str("0"), Err(WayclipError::Validation(_))));
    assert!(matches!(Fps::from_str("1001"), Err(WayclipError::Validation(_))));
    assert!(matches!(Fps::from_str(""), Err(WayclipError::ParseInt(IntErrorKind::Empty))));
    assert!(matches!(Fps::from_str("6o"), Err(WayclipError::ParseInt(IntErrorKind::InvalidDigit))));
    assert!(matches!(
        Fps::from_str("99999999999999999999"),
        Err(WayclipError::ParseInt(IntErrorKind::PosOverflow))
    ));
    assert_eq!(Fps::from_str("144").unwrap().to_string(), "144fps");
    assert_eq!(Fps::default().0, 30);
}

#[test]
fn resolution_round_trips() {
    let r = Resolution::from_str("1920x1080").unwrap();
    assert_eq!(r.to_tuple(), (1920, 1080));
    assert_eq!(r.to_string(), "1920x1080");
    assert_eq!(Resolution::from_tuple((1280, 720)).to_string(), "1280x720");
    assert!(matches!(Resolution::from_str("1920"), Err(WayclipError::Validation(_))));
    assert!(matches!(Resolution::from_str("1920x1080x1"), Err(WayclipError::Validation(_))));
    assert!(matches!(Resolution::from_str("axb"), Err(WayclipError::Validation(_))));
    assert!(matches!(Resolution::from_str("7681x100"), Err(WayclipError::Validation(_))));
    assert!(matches!(Resolution::from_str("100x0"), Err(WayclipError::Validation(_))));
    assert_eq!(Resolution::default().to_tuple(), (1920, 1080));
}

#[test]
fn bitrate_bounds() {
    assert_eq!(Bitrate::from_str("300").unwrap().0, 300);
    assert_eq!(Bitrate::from_str("10000000").unwrap().0, 10000000);
    assert!(matches!(Bitrate::from_str("299"), Err(WayclipError::Validation(_))));
    assert!(matches!(Bitrate::from_str("10000001"), Err(WayclipError::Validation(_))));
    assert_eq!(Bitrate::from_str("4500").unwrap().to_string(), "4500kbps");
    assert_eq!(Bitrate::default().0, 15000);
}

#[test]
fn codec_types_and_video_codecs() {
    assert_eq!(CodecType::from_str("NV").unwrap(), CodecType::NVIDIA);
    assert_eq!(CodecType::from_str("sw").unwrap(), CodecType::Software);
    assert_eq!(CodecType::from_str("VAAPI").unwrap(), CodecType::VAAPI);
    assert!(matches!(CodecType::from_str("cuda"), Err(WayclipError::Validation(_))));
    let c = VideoCodec::from_str("H265:vaapi").unwrap();
    assert_eq!(c, VideoCodec::H265(CodecType::VAAPI));
    assert_eq!(c.to_string(), "h265:vaapi");
    assert_eq!(c.get_parser(), "h265parse");
    assert_eq!(c.get_encoder(), "vah265enc");
    assert_eq!(*c.get_backend(), CodecType::VAAPI);
    assert_eq!(VideoCodec::from_str("av1:software").unwrap().get_encoder(), "av1enc");
    assert_eq!(VideoCodec::from_str("h264:nvidia").unwrap().get_encoder(), "nvh264enc");
    assert!(matches!(VideoCodec::from_str("h264"), Err(WayclipError::Validation(_))));
    assert!(matches!(VideoCodec::from_str("vp9:nvidia"), Err(WayclipError::Validation(_))));
    assert!(matches!(VideoCodec::from_str("h264:gpu"), Err(WayclipError::Validation(_))));
}

#[test]
fn video_codec_display_reads_back() {
    for c in [
        VideoCodec::H264(CodecType::NVIDIA),
        VideoCodec::H265(CodecType::Software),
        VideoCodec::AV1(CodecType::VAAPI),
    ] {
        assert_eq!(VideoCodec::from_str(&c.to_string()).unwrap(), c);
    }
}

#[test]
fn sample_rates_and_audio_codecs() {
    assert_eq!(SampleRate::from_str("44100").unwrap().0, 44100);
    assert!(matches!(SampleRate::from_str("44000"), Err(WayclipError::Validation(_))));
    assert_eq!(SampleRate::from_str("96000").unwrap().to_string(), "96000hz");
    assert_eq!(SampleRate::default().0, 48000);
    assert_eq!(AudioCodec::from_str("AAC").unwrap(), AudioCodec::AAC);
    assert!(matches!(AudioCodec::from_str("flac"), Err(WayclipError::Validation(_))));
    assert_eq!(AudioCodec::MP3.get_encoder(), "lamemp3enc");
    assert_eq!(AudioCodec::MP3.get_parser(), "mpegaudioparse");
    assert_eq!(AudioCodec::Opus.to_string(), "opus");
    assert_eq!(AudioCodec::from_str(&AudioCodec::AAC.to_string()).unwrap(), AudioCodec::AAC);
}

#[test]
fn video_settings_default() {
    let v = VideoSettings::default();
    assert_eq!(v.length_seconds, 120);
    assert_eq!(v.fps.0, 30);
    assert_eq!(v.bitrate_kbps.0, 15000);
    assert_eq!(v.resolution.to_tuple(), (1920, 1080));
    assert_eq!(v.codec, VideoCodec::H264(CodecType::NVIDIA));
}

#[test]
fn video_formats() {
    let f = VideoFormat::from_str("MKV").unwrap();
    assert_eq!(f, VideoFormat::MKV);
    assert_eq!(f.get_extension(), "mkv");
    assert_eq!(VideoFormat::MP4.get_mux(), "mp4mux");
    assert_eq!(VideoFormat::MP4.get_mime_str(), "video/mp4");
    assert_eq!(VideoFormat::MPEGTS.to_string(), "mpegts");
    assert!(matches!(VideoFormat::from_str("avi"), Err(WayclipError::Validation(_))));
    assert_eq!(VideoFormat::from_str(&VideoFormat::MPEGTS.to_string()).unwrap(), VideoFormat::MPEGTS);
}

#[test]
fn ages_and_durations() {
    let a = Age::from_str("1 Months, 2 Weeks, 3 Days, 4 Hours").unwrap();
    assert_eq!((a.months, a.weeks, a.days, a.hours), (1, 2, 3, 4));
    assert_eq!(a.to_string(), "1 Months, 2 Weeks, 3 Days, 4 Hours");
    assert_eq!(a.get_duration(), (4 + 3 * 24 + 2 * 7 * 24 + 30 * 24) * 3600);
    let b = Age::from_str(" 0 months,0 WEEKS, 1 days , 0 hours").unwrap();
    assert_eq!(b.get_duration(), 86400);
    assert!(matches!(Age::from_str("1 Months, 2 Weeks"), Err(WayclipError::Validation(_))));
    assert!(matches!(Age::from_str("1 Years, 2 Weeks, 3 Days, 4 Hours"), Err(WayclipError::Validation(_))));
    assert!(matches!(Age::from_str("1Months, 2 Weeks, 3 Days, 4 Hours"), Err(WayclipError::NotFound(_))));
}

#[test]
fn prune_strategies() {
    assert_eq!(Prune::from_str("Disabled").unwrap(), Prune::Disabled);
    assert_eq!(Prune::from_str("After 500MB in dir").unwrap(), Prune::SizeMb(500));
    assert_eq!(Prune::from_str("After 20 clips in dir").unwrap(), Prune::Clips(20));
    assert_eq!(Prune::from_str("Longer than 90s").unwrap(), Prune::DurationS(90));
    let p = Prune::from_str("Older than 0 Months, 1 Weeks, 0 Days, 0 Hours from now").unwrap();
    assert_eq!(p.to_string(), "Older than 0 Months, 1 Weeks, 0 Days, 0 Hours from now");
    assert_eq!(Prune::SizeMb(7).to_string(), "After 7MB in dir");
    assert!(Prune::from_str("After many clips in dir").is_err());
    assert!(Prune::from_str("Never").is_err());
    for p in [Prune::Disabled, Prune::SizeMb(3), Prune::Clips(4), Prune::DurationS(5)] {
        assert_eq!(Prune::from_str(&p.to_string()).unwrap(), p);
    }
}

#[test]
fn directories_expand_home() {
    assert_eq!(Directory::expand("~/clips", Some("/home/u")), "/home/u/~/clips");
    assert_eq!(Directory::expand("~/clips", None), "~/clips");
    assert_eq!(Directory::expand("/tmp/x", Some("/home/u")), "/tmp/x");
    assert!(Directory::from_checked("/tmp".to_string(), true).is_ok());
    assert!(matches!(
        Directory::from_checked("/nope".to_string(), false),
        Err(WayclipError::NotFound(_))
    ));
    assert_eq!(Directory("/a/b".to_string()).to_string(), "/a/b");
}

#[test]
fn storage_defaults() {
    let l = LimitSettings::default();
    assert_eq!(l.max_size_mb, 0);
    assert_eq!(l.max_clips, 0);
    assert_eq!(l.prune, Prune::Disabled);
    let o = OutputSettings::default_in("/home/u");
    assert_eq!(o.video_format, VideoFormat::MKV);
    assert_eq!(o.clip_directory.0, "/home/u/Videos/wayclip/");
    assert_eq!(o.name_format, "wayclip_{game}_%Y-%m-%d_%H-%M-%S");
}
