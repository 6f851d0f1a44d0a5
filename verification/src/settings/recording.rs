//! Video and audio recording settings of the daemon, with the textual forms in which users enter
//! and read them.
use vstd::prelude::*;
use crate::error::{class_of, outcome, validation, ErrorClass, IntErrorKind, WayclipError};
use crate::num::{decimal, lemma_parse_bounds, parse_u64, parse_uint, u64_to_string};
use crate::text::{
    all_ascii, ascii_lowercase, chars_eq, chars_split_once, lemma_ascii_lowercase_of_lower,
    lemma_split_at_sep, lemma_split_once_ascii, lemma_split_once_at, lemma_split_without_sep,
    push_str, split, split_chars, split_once, str_chars, to_lowercase, unicode_lowercase,
};

verus! {

pub const DEFAULT_LENGTH_SECONDS: u64 = 120;
pub const DEFAULT_RESOLUTION_WIDTH: u64 = 1920;
pub const DEFAULT_RESOLUTION_HEIGHT: u64 = 1080;
pub const DEFAULT_FPS: u64 = 30;
pub const DEFAULT_BITRATE_KBPS: u64 = 15000;
pub const DEFAULT_MICROPHONE_ENABLED: bool = true;
pub const DEFAULT_BACKGROUND_ENABLED: bool = true;
pub const DEFAULT_AUDIO_SAMPLE_RATE: u64 = 48000;
pub const MIN_RESOLUTION_WIDTH: u64 = 1;
pub const MAX_RESOLUTION_WIDTH: u64 = 7680;
pub const MIN_RESOLUTION_HEIGHT: u64 = 1;
pub const MAX_RESOLUTION_HEIGHT: u64 = 4320;
pub const MIN_BITRATE_KBPS: u64 = 300;
pub const MAX_BITRATE_KBPS: u64 = 10000000;
pub const MIN_FPS: u64 = 1;
pub const MAX_FPS: u64 = 1000;

/// The integer-parse failure of `r`, as an error category.
pub open spec fn int_outcome(r: Result<int, IntErrorKind>) -> Result<int, ErrorClass> {
    match r {
        Ok(v) => Ok(v),
        Err(k) => Err(ErrorClass::ParseInt(k)),
    }
}

/// The video codec used when none is configured: H.264 on NVIDIA hardware.
pub open spec fn default_video_codec_spec() -> VideoCodec {
    VideoCodec::H264(CodecType::NVIDIA)
}

pub fn default_video_codec() -> (c: VideoCodec)
    ensures
        c == default_video_codec_spec(),
{
    VideoCodec::H264(CodecType::NVIDIA)
}

/// Video recording settings.
#[derive(Debug, Clone, PartialEq, Eq)]
pub struct VideoSettings {
    /// Length of the recorded ring, in seconds.
    pub length_seconds: u64,
    /// Output resolution.
    pub resolution: Resolution,
    /// Frames per second.
    pub fps: Fps,
    /// Codec and encoder backend.
    pub codec: VideoCodec,
    /// Bitrate in kbps.
    pub bitrate_kbps: Bitrate,
}

impl VideoSettings {
    /// The default video settings: 120 s of 1920x1080 at 30 fps, H.264 on NVIDIA, 15000 kbps.
    pub fn default() -> (s: Self)
        ensures
            s.length_seconds == DEFAULT_LENGTH_SECONDS,
            s.resolution == (Resolution { width: 1920, height: 1080 }),
            s.fps == Fps(30),
            s.codec == default_video_codec_spec(),
            s.bitrate_kbps == Bitrate(15000),
    {
        VideoSettings {
            length_seconds: DEFAULT_LENGTH_SECONDS,
            resolution: Resolution::default(),
            fps: Fps::default(),
            codec: default_video_codec(),
            bitrate_kbps: Bitrate::default(),
        }
    }
}

// ---------------------------------------------------------------------------------------------
// Fps
// ---------------------------------------------------------------------------------------------

/// Frames per second.
#[derive(Debug, Clone, Copy, PartialEq, Eq, Structural)]
pub struct Fps(pub u64);

/// What `Fps::from_str` gives: a decimal number within `MIN_FPS..=MAX_FPS`.
pub open spec fn fps_from_str(s: Seq<char>) -> Result<Fps, ErrorClass> {
    match int_outcome(parse_uint(s, u64::MAX as int)) {
        Err(e) => Err(e),
        Ok(v) => if MIN_FPS <= v <= MAX_FPS {
            Ok(Fps(v as u64))
        } else {
            Err(ErrorClass::Validation)
        },
    }
}

impl Fps {
    pub fn default() -> (f: Self)
        ensures
            f == Fps(DEFAULT_FPS),
    {
        Fps(DEFAULT_FPS)
    }

    pub fn from_str(s: &str) -> (r: Result<Self, WayclipError>)
        ensures
            outcome(r) == fps_from_str(s@),
    {
        let chars = str_chars(s);
        proof {
            lemma_parse_bounds(chars@, u64::MAX as int);
        }
        let fps = match parse_u64(chars.as_slice()) {
            Ok(v) => v,
            Err(k) => return Err(WayclipError::ParseInt(k)),
        };
        if !(MIN_FPS <= fps && fps <= MAX_FPS) {
            return Err(validation("Fps must be within the range 1 to 1000 FPS"));
        }
        Ok(Fps(fps))
    }

    pub open spec fn display(self) -> Seq<char> {
        decimal(self.0 as nat) + "fps"@
    }

    /// The displayed form, e.g. `60fps`.
    pub fn to_string(&self) -> (s: String)
        ensures
            s@ == self.display(),
    {
        let mut s = u64_to_string(self.0);
        push_str(&mut s, "fps");
        s
    }
}

// ---------------------------------------------------------------------------------------------
// Resolution
// ---------------------------------------------------------------------------------------------

/// A video resolution in pixels.
#[derive(Debug, Clone, Copy, PartialEq, Eq, Structural)]
pub struct Resolution {
    pub width: u64,
    pub height: u64,
}

pub open spec fn resolution_in_bounds(width: int, height: int) -> bool {
    &&& MIN_RESOLUTION_WIDTH <= width <= MAX_RESOLUTION_WIDTH
    &&& MIN_RESOLUTION_HEIGHT <= height <= MAX_RESOLUTION_HEIGHT
}

/// What `Resolution::from_str` gives: `WIDTHxHEIGHT`, both decimal and within bounds.
pub open spec fn resolution_from_str(s: Seq<char>) -> Result<Resolution, ErrorClass> {
    let parts = split(s, 'x');
    if parts.len() != 2 {
        Err(ErrorClass::Validation)
    } else {
        match (parse_uint(parts[0], u64::MAX as int), parse_uint(parts[1], u64::MAX as int)) {
            (Ok(w), Ok(h)) => if resolution_in_bounds(w, h) {
                Ok(Resolution { width: w as u64, height: h as u64 })
            } else {
                Err(ErrorClass::Validation)
            },
            _ => Err(ErrorClass::Validation),
        }
    }
}

impl Resolution {
    /// Builds a resolution from a `(width, height)` pair.
    pub fn from_tuple(tuple: (u64, u64)) -> (r: Self)
        ensures
            r.width == tuple.0,
            r.height == tuple.1,
    {
        Resolution { width: tuple.0, height: tuple.1 }
    }

    /// The `(width, height)` pair.
    pub fn to_tuple(&self) -> (t: (u64, u64))
        ensures
            t == (self.width, self.height),
    {
        (self.width, self.height)
    }

    pub fn default() -> (r: Self)
        ensures
            r == (Resolution { width: DEFAULT_RESOLUTION_WIDTH, height: DEFAULT_RESOLUTION_HEIGHT }),
    {
        Resolution { width: DEFAULT_RESOLUTION_WIDTH, height: DEFAULT_RESOLUTION_HEIGHT }
    }

    pub fn from_str(s: &str) -> (r: Result<Self, WayclipError>)
        ensures
            outcome(r) == resolution_from_str(s@),
    {
        let chars = str_chars(s);
        let parts = split_chars(chars.as_slice(), 'x');
        proof {
            assert(crate::text::views(parts@).len() == parts@.len());
        }
        if parts.len() != 2 {
            return Err(validation("Resolution must be in 'WIDTHxHEIGHT' format (e.g. 1920x1080)"));
        }
        proof {
            assert(crate::text::views(parts@)[0] == parts@[0]@);
            assert(crate::text::views(parts@)[1] == parts@[1]@);
            lemma_parse_bounds(parts@[0]@, u64::MAX as int);
            lemma_parse_bounds(parts@[1]@, u64::MAX as int);
        }
        let width = match parse_u64(parts[0].as_slice()) {
            Ok(w) => w,
            Err(_) => return Err(validation("Invalid resolution width")),
        };
        let height = match parse_u64(parts[1].as_slice()) {
            Ok(h) => h,
            Err(_) => return Err(validation("Invalid resolution height")),
        };
        if width < MIN_RESOLUTION_WIDTH || height < MIN_RESOLUTION_HEIGHT || width
            > MAX_RESOLUTION_WIDTH || height > MAX_RESOLUTION_HEIGHT {
            return Err(
                validation("Resolution must be within the range 1x1 and 7680x4320 pixels"),
            );
        }
        Ok(Resolution { width, height })
    }

    pub open spec fn display(self) -> Seq<char> {
        decimal(self.width as nat) + "x"@ + decimal(self.height as nat)
    }

    /// The displayed form, e.g. `1920x1080`.
    pub fn to_string(&self) -> (s: String)
        ensures
            s@ == self.display(),
    {
        let mut s = u64_to_string(self.width);
        push_str(&mut s, "x");
        let h = u64_to_string(self.height);
        push_str(&mut s, h.as_str());
        s
    }
}

// ---------------------------------------------------------------------------------------------
// Bitrate
// ---------------------------------------------------------------------------------------------

/// A bitrate in kbps.
#[derive(Debug, Clone, Copy, PartialEq, Eq, Structural)]
pub struct Bitrate(pub u64);

/// What `Bitrate::from_str` gives: a decimal number of kbps within bounds.
pub open spec fn bitrate_from_str(s: Seq<char>) -> Result<Bitrate, ErrorClass> {
    match int_outcome(parse_uint(s, u64::MAX as int)) {
        Err(e) => Err(e),
        Ok(v) => if MIN_BITRATE_KBPS <= v <= MAX_BITRATE_KBPS {
            Ok(Bitrate(v as u64))
        } else {
            Err(ErrorClass::Validation)
        },
    }
}

impl Bitrate {
    pub fn default() -> (b: Self)
        ensures
            b == Bitrate(DEFAULT_BITRATE_KBPS),
    {
        Bitrate(DEFAULT_BITRATE_KBPS)
    }

    pub fn from_str(s: &str) -> (r: Result<Self, WayclipError>)
        ensures
            outcome(r) == bitrate_from_str(s@),
    {
        let chars = str_chars(s);
        proof {
            lemma_parse_bounds(chars@, u64::MAX as int);
        }
        let kbps = match parse_u64(chars.as_slice()) {
            Ok(v) => v,
            Err(k) => return Err(WayclipError::ParseInt(k)),
        };
        if !(MIN_BITRATE_KBPS <= kbps && kbps <= MAX_BITRATE_KBPS) {
            return Err(validation("Bitrate value must be within the range 300 to 10000000 kbps"));
        }
        Ok(Bitrate(kbps))
    }

    pub open spec fn display(self) -> Seq<char> {
        decimal(self.0 as nat) + "kbps"@
    }

    /// The displayed form, e.g. `15000kbps`.
    pub fn to_string(&self) -> (s: String)
        ensures
            s@ == self.display(),
    {
        let mut s = u64_to_string(self.0);
        push_str(&mut s, "kbps");
        s
    }
}

// ---------------------------------------------------------------------------------------------
// Codecs
// ---------------------------------------------------------------------------------------------

/// The encoder backend.
#[derive(Debug, Clone, Copy, PartialEq, Eq, Structural)]
pub enum CodecType {
    /// NVIDIA NVENC (proprietary drivers and the nvcodec GStreamer plugin).
    NVIDIA,
    /// VA-API (libva and a supported driver).
    VAAPI,
    /// Software encoders.
    Software,
}

pub open spec fn codec_type_from_lower(l: Seq<char>) -> Option<CodecType> {
    if l == "nvidia"@ || l == "nv"@ {
        Some(CodecType::NVIDIA)
    } else if l == "vaapi"@ {
        Some(CodecType::VAAPI)
    } else if l == "software"@ || l == "sw"@ {
        Some(CodecType::Software)
    } else {
        None
    }
}

/// What `CodecType::from_str` gives for the lowercased input `l`.
pub open spec fn codec_type_parse(l: Seq<char>) -> Result<CodecType, ErrorClass> {
    match codec_type_from_lower(l) {
        Some(c) => Ok(c),
        None => Err(ErrorClass::Validation),
    }
}

/// What `CodecType::from_str` gives: the name compared after Unicode lowercasing.
pub open spec fn codec_type_from_str(s: Seq<char>) -> Result<CodecType, ErrorClass> {
    codec_type_parse(unicode_lowercase(s))
}

impl CodecType {
    pub fn from_str(s: &str) -> (r: Result<Self, WayclipError>)
        ensures
            outcome(r) == codec_type_from_str(s@),
            all_ascii(s@) ==> outcome(r) == codec_type_parse(ascii_lowercase(s@)),
    {
        let lower = to_lowercase(s);
        let l = str_chars(lower.as_str());
        let nvidia = str_chars("nvidia");
        let nv = str_chars("nv");
        let vaapi = str_chars("vaapi");
        let software = str_chars("software");
        let sw = str_chars("sw");
        if chars_eq(l.as_slice(), nvidia.as_slice()) || chars_eq(l.as_slice(), nv.as_slice()) {
            Ok(CodecType::NVIDIA)
        } else if chars_eq(l.as_slice(), vaapi.as_slice()) {
            Ok(CodecType::VAAPI)
        } else if chars_eq(l.as_slice(), software.as_slice()) || chars_eq(
            l.as_slice(),
            sw.as_slice(),
        ) {
            Ok(CodecType::Software)
        } else {
            Err(validation("Invalid codec type"))
        }
    }

    pub open spec fn display(self) -> Seq<char> {
        match self {
            CodecType::NVIDIA => "nvidia"@,
            CodecType::Software => "software"@,
            CodecType::VAAPI => "vaapi"@,
        }
    }

    pub fn as_str(&self) -> (s: &'static str)
        ensures
            s@ == self.display(),
    {
        match self {
            CodecType::NVIDIA => "nvidia",
            CodecType::Software => "software",
            CodecType::VAAPI => "vaapi",
        }
    }

    /// The displayed form: `nvidia`, `vaapi` or `software`.
    pub fn to_string(&self) -> (s: String)
        ensures
            s@ == self.display(),
    {
        self.as_str().to_owned()
    }
}

/// A video codec with the backend that encodes it.
#[derive(Debug, Clone, Copy, PartialEq, Eq, Structural)]
pub enum VideoCodec {
    H264(CodecType),
    H265(CodecType),
    AV1(CodecType),
}

/// What `VideoCodec::from_str` gives when names are lowercased with `lower`: `<codec>:<type>`,
/// the type read first.
pub open spec fn video_codec_parse(
    s: Seq<char>,
    lower: spec_fn(Seq<char>) -> Seq<char>,
) -> Result<VideoCodec, ErrorClass> {
    match split_once(s, ':') {
        None => Err(ErrorClass::Validation),
        Some((name, ty)) => match codec_type_parse(lower(ty)) {
            Err(e) => Err(e),
            Ok(t) => {
                let l = lower(name);
                if l == "h264"@ {
                    Ok(VideoCodec::H264(t))
                } else if l == "h265"@ {
                    Ok(VideoCodec::H265(t))
                } else if l == "av1"@ {
                    Ok(VideoCodec::AV1(t))
                } else {
                    Err(ErrorClass::Validation)
                }
            },
        },
    }
}

/// What `VideoCodec::from_str` gives: names compared after Unicode lowercasing.
pub open spec fn video_codec_from_str(s: Seq<char>) -> Result<VideoCodec, ErrorClass> {
    video_codec_parse(s, |x: Seq<char>| unicode_lowercase(x))
}

impl VideoCodec {
    pub fn from_str(s: &str) -> (r: Result<Self, WayclipError>)
        ensures
            outcome(r) == video_codec_from_str(s@),
            all_ascii(s@) ==> outcome(r) == video_codec_parse(
                s@,
                |x: Seq<char>| ascii_lowercase(x),
            ),
    {
        let chars = str_chars(s);
        let (name, ty) = match chars_split_once(chars.as_slice(), ':') {
            Some(p) => p,
            None => return Err(validation("Expected format is <codec>:<type>")),
        };
        proof {
            lemma_split_once_ascii(s@, ':');
        }
        let ty_s = crate::text::string_from_chars(ty.as_slice());
        let codec_type = match CodecType::from_str(ty_s.as_str()) {
            Ok(t) => t,
            Err(e) => return Err(e),
        };
        let name_s = crate::text::string_from_chars(name.as_slice());
        let lower = to_lowercase(name_s.as_str());
        let l = str_chars(lower.as_str());
        let h264 = str_chars("h264");
        let h265 = str_chars("h265");
        let av1 = str_chars("av1");
        if chars_eq(l.as_slice(), h264.as_slice()) {
            Ok(VideoCodec::H264(codec_type))
        } else if chars_eq(l.as_slice(), h265.as_slice()) {
            Ok(VideoCodec::H265(codec_type))
        } else if chars_eq(l.as_slice(), av1.as_slice()) {
            Ok(VideoCodec::AV1(codec_type))
        } else {
            Err(validation("Invalid codec name"))
        }
    }

    pub open spec fn display(self) -> Seq<char> {
        match self {
            VideoCodec::AV1(t) => "av1:"@ + t.display(),
            VideoCodec::H265(t) => "h265:"@ + t.display(),
            VideoCodec::H264(t) => "h264:"@ + t.display(),
        }
    }

    /// The displayed form, e.g. `h264:nvidia`.
    pub fn to_string(&self) -> (s: String)
        ensures
            s@ == self.display(),
    {
        let (prefix, t) = match self {
            VideoCodec::AV1(t) => ("av1:", t),
            VideoCodec::H265(t) => ("h265:", t),
            VideoCodec::H264(t) => ("h264:", t),
        };
        let mut s = prefix.to_owned();
        push_str(&mut s, t.as_str());
        s
    }

    /// The GStreamer parser element for the codec.
    pub fn get_parser(&self) -> (s: &'static str)
        ensures
            s@ == match self {
                VideoCodec::H264(_) => "h264parse"@,
                VideoCodec::H265(_) => "h265parse"@,
                VideoCodec::AV1(_) => "av1parse"@,
            },
    {
        match self {
            VideoCodec::H264(_) => "h264parse",
            VideoCodec::H265(_) => "h265parse",
            VideoCodec::AV1(_) => "av1parse",
        }
    }

    /// The backend that encodes the codec.
    pub fn get_backend(&self) -> (t: &CodecType)
        ensures
            *t == self.get_backend_spec(),
    {
        match self {
            VideoCodec::H264(t) | VideoCodec::H265(t) | VideoCodec::AV1(t) => t,
        }
    }

    pub open spec fn get_backend_spec(self) -> CodecType {
        match self {
            VideoCodec::H264(t) => t,
            VideoCodec::H265(t) => t,
            VideoCodec::AV1(t) => t,
        }
    }

    /// The GStreamer encoder element for the codec on its backend.
    pub fn get_encoder(&self) -> (s: &'static str)
        ensures
            s@ == match self {
                VideoCodec::H264(CodecType::NVIDIA) => "nvh264enc"@,
                VideoCodec::H265(CodecType::NVIDIA) => "nvh265enc"@,
                VideoCodec::AV1(CodecType::NVIDIA) => "nvav1enc"@,
                VideoCodec::H264(CodecType::VAAPI) => "vah264enc"@,
                VideoCodec::H265(CodecType::VAAPI) => "vah265enc"@,
                VideoCodec::AV1(CodecType::VAAPI) => "vaav1enc"@,
                VideoCodec::H264(CodecType::Software) => "x264enc"@,
                VideoCodec::H265(CodecType::Software) => "x265enc"@,
                VideoCodec::AV1(CodecType::Software) => "av1enc"@,
            },
    {
        match self {
            VideoCodec::H264(CodecType::NVIDIA) => "nvh264enc",
            VideoCodec::H265(CodecType::NVIDIA) => "nvh265enc",
            VideoCodec::AV1(CodecType::NVIDIA) => "nvav1enc",
            VideoCodec::H264(CodecType::VAAPI) => "vah264enc",
            VideoCodec::H265(CodecType::VAAPI) => "vah265enc",
            VideoCodec::AV1(CodecType::VAAPI) => "vaav1enc",
            VideoCodec::H264(CodecType::Software) => "x264enc",
            VideoCodec::H265(CodecType::Software) => "x265enc",
            VideoCodec::AV1(CodecType::Software) => "av1enc",
        }
    }
}

// ---------------------------------------------------------------------------------------------
// Audio
// ---------------------------------------------------------------------------------------------

/// The audio sample rates that may be configured.
pub open spec fn allowed_sample_rate(hz: int) -> bool {
    hz == 8000 || hz == 16000 || hz == 22050 || hz == 32000 || hz == 44100 || hz == 48000 || hz
        == 96000
}

/// An audio sample rate in Hz.
#[derive(Debug, Clone, Copy, PartialEq, Eq, Structural)]
pub struct SampleRate(pub u64);

/// What `SampleRate::from_str` gives: a decimal number that is one of the allowed rates.
pub open spec fn sample_rate_from_str(s: Seq<char>) -> Result<SampleRate, ErrorClass> {
    match int_outcome(parse_uint(s, u64::MAX as int)) {
        Err(e) => Err(e),
        Ok(v) => if allowed_sample_rate(v) {
            Ok(SampleRate(v as u64))
        } else {
            Err(ErrorClass::Validation)
        },
    }
}

impl SampleRate {
    pub fn default() -> (r: Self)
        ensures
            r == SampleRate(DEFAULT_AUDIO_SAMPLE_RATE),
    {
        SampleRate(DEFAULT_AUDIO_SAMPLE_RATE)
    }

    pub fn from_str(s: &str) -> (r: Result<Self, WayclipError>)
        ensures
            outcome(r) == sample_rate_from_str(s@),
    {
        let chars = str_chars(s);
        proof {
            lemma_parse_bounds(chars@, u64::MAX as int);
        }
        let hz = match parse_u64(chars.as_slice()) {
            Ok(v) => v,
            Err(k) => return Err(WayclipError::ParseInt(k)),
        };
        if !(hz == 8000 || hz == 16000 || hz == 22050 || hz == 32000 || hz == 44100 || hz == 48000
            || hz == 96000) {
            return Err(
                validation(
                    "The audio sample rate may only be one of the following: [8000, 16000, 22050, 32000, 44100, 48000, 96000]",
                ),
            );
        }
        Ok(SampleRate(hz))
    }

    pub open spec fn display(self) -> Seq<char> {
        decimal(self.0 as nat) + "hz"@
    }

    /// The displayed form, e.g. `48000hz`.
    pub fn to_string(&self) -> (s: String)
        ensures
            s@ == self.display(),
    {
        let mut s = u64_to_string(self.0);
        push_str(&mut s, "hz");
        s
    }
}

/// The audio codec.
#[derive(Debug, Clone, Copy, PartialEq, Eq, Structural)]
pub enum AudioCodec {
    Opus,
    AAC,
    MP3,
}

/// What `AudioCodec::from_str` gives: the name compared after Unicode lowercasing.
pub open spec fn audio_codec_from_str(s: Seq<char>) -> Result<AudioCodec, ErrorClass> {
    audio_codec_parse(unicode_lowercase(s))
}

/// What `AudioCodec::from_str` gives for the lowercased input `l`.
pub open spec fn audio_codec_parse(l: Seq<char>) -> Result<AudioCodec, ErrorClass> {
    if l == "opus"@ {
        Ok(AudioCodec::Opus)
    } else if l == "aac"@ {
        Ok(AudioCodec::AAC)
    } else if l == "mp3"@ {
        Ok(AudioCodec::MP3)
    } else {
        Err(ErrorClass::Validation)
    }
}

impl AudioCodec {
    /// The audio codec used when none is configured.
    pub fn default() -> (c: Self)
        ensures
            c == AudioCodec::Opus,
    {
        AudioCodec::Opus
    }

    pub fn from_str(s: &str) -> (r: Result<Self, WayclipError>)
        ensures
            outcome(r) == audio_codec_from_str(s@),
            all_ascii(s@) ==> outcome(r) == audio_codec_parse(ascii_lowercase(s@)),
    {
        let lower = to_lowercase(s);
        let l = str_chars(lower.as_str());
        let opus = str_chars("opus");
        let aac = str_chars("aac");
        let mp3 = str_chars("mp3");
        if chars_eq(l.as_slice(), opus.as_slice()) {
            Ok(AudioCodec::Opus)
        } else if chars_eq(l.as_slice(), aac.as_slice()) {
            Ok(AudioCodec::AAC)
        } else if chars_eq(l.as_slice(), mp3.as_slice()) {
            Ok(AudioCodec::MP3)
        } else {
            Err(validation("Invalid codec type"))
        }
    }

    pub open spec fn display(self) -> Seq<char> {
        match self {
            AudioCodec::Opus => "opus"@,
            AudioCodec::MP3 => "mp3"@,
            AudioCodec::AAC => "aac"@,
        }
    }

    /// The displayed form: `opus`, `aac` or `mp3`.
    pub fn to_string(&self) -> (s: String)
        ensures
            s@ == self.display(),
    {
        match self {
            AudioCodec::Opus => "opus".to_owned(),
            AudioCodec::MP3 => "mp3".to_owned(),
            AudioCodec::AAC => "aac".to_owned(),
        }
    }

    /// The GStreamer encoder element.
    pub fn get_encoder(&self) -> (s: &'static str)
        ensures
            s@ == match self {
                AudioCodec::Opus => "opusenc"@,
                AudioCodec::AAC => "avenc_aac"@,
                AudioCodec::MP3 => "lamemp3enc"@,
            },
    {
        match self {
            AudioCodec::Opus => "opusenc",
            AudioCodec::AAC => "avenc_aac",
            AudioCodec::MP3 => "lamemp3enc",
        }
    }

    /// The GStreamer parser element.
    pub fn get_parser(&self) -> (s: &'static str)
        ensures
            s@ == match self {
                AudioCodec::Opus => "opusparse"@,
                AudioCodec::AAC => "aacparse"@,
                AudioCodec::MP3 => "mpegaudioparse"@,
            },
    {
        match self {
            AudioCodec::Opus => "opusparse",
            AudioCodec::AAC => "aacparse",
            AudioCodec::MP3 => "mpegaudioparse",
        }
    }
}

// ---------------------------------------------------------------------------------------------
// Laws: what is displayed reads back as the same value
// ---------------------------------------------------------------------------------------------

/// A resolution within the allowed bounds reads back from its displayed form `WIDTHxHEIGHT`.
pub proof fn law_resolution_round_trip(r: Resolution)
    requires
        resolution_in_bounds(r.width as int, r.height as int),
    ensures
        resolution_from_str(r.display()) == Ok::<Resolution, ErrorClass>(r),
{
    reveal_strlit("x");
    let w = decimal(r.width as nat);
    let h = decimal(r.height as nat);
    crate::num::lemma_decimal_digits(r.width as nat);
    crate::num::lemma_decimal_digits(r.height as nat);
    assert(lacks_x(w));
    assert(lacks_x(h));
    assert(r.display() =~= w + seq!['x'] + h);
    lemma_split_at_sep(w, 'x', h);
    lemma_split_without_sep(h, 'x');
    let parts = split(r.display(), 'x');
    assert(parts =~= seq![w, h]);
    crate::num::lemma_parse_decimal(r.width as nat, u64::MAX as int);
    crate::num::lemma_parse_decimal(r.height as nat, u64::MAX as int);
}

spec fn lacks_x(s: Seq<char>) -> bool {
    crate::text::lacks(s, 'x')
}

/// The displayed form of a codec backend is ASCII and reads back as the same backend.
pub proof fn law_codec_type_round_trip(t: CodecType)
    ensures
        all_ascii(t.display()),
        codec_type_parse(ascii_lowercase(t.display())) == Ok::<CodecType, ErrorClass>(t),
{
    reveal_strlit("nvidia");
    reveal_strlit("vaapi");
    reveal_strlit("software");
    reveal_strlit("nv");
    reveal_strlit("sw");
    lemma_ascii_lowercase_of_lower(t.display());
}

/// The displayed form of a video codec (`<codec>:<type>`) is ASCII and reads back as the same
/// codec.
pub proof fn law_video_codec_round_trip(c: VideoCodec)
    ensures
        all_ascii(c.display()),
        video_codec_parse(c.display(), |x: Seq<char>| ascii_lowercase(x)) == Ok::<
            VideoCodec,
            ErrorClass,
        >(c),
{
    law_codec_type_round_trip(c.get_backend_spec());
    match c {
        VideoCodec::H264(t) => lemma_h264_round_trip(t),
        VideoCodec::H265(t) => lemma_h265_round_trip(t),
        VideoCodec::AV1(t) => lemma_av1_round_trip(t),
    }
}

proof fn lemma_codec_pieces(name: Seq<char>, ty: Seq<char>)
    requires
        crate::text::lacks(name, ':'),
        forall|i: int| 0 <= i < name.len() ==> !crate::text::is_ascii_upper(#[trigger] name[i]),
        all_ascii(name),
        all_ascii(ty),
    ensures
        all_ascii(name + seq![':'] + ty),
        split_once(name + seq![':'] + ty, ':') == Some((name, ty)),
        ascii_lowercase(name) == name,
{
    lemma_split_once_at(name, ':', ty);
    lemma_ascii_lowercase_of_lower(name);
    let d = name + seq![':'] + ty;
    assert forall|i: int| 0 <= i < d.len() implies crate::text::is_ascii_char(#[trigger] d[i]) by {
        if i < name.len() {
            assert(d[i] == name[i]);
        } else if i > name.len() {
            assert(d[i] == ty[i - name.len() - 1]);
        }
    }
}

proof fn lemma_h264_round_trip(t: CodecType)
    requires
        all_ascii(t.display()),
        codec_type_parse(ascii_lowercase(t.display())) == Ok::<CodecType, ErrorClass>(t),
    ensures
        all_ascii(VideoCodec::H264(t).display()),
        video_codec_parse(VideoCodec::H264(t).display(), |x: Seq<char>| ascii_lowercase(x))
            == Ok::<VideoCodec, ErrorClass>(VideoCodec::H264(t)),
{
    reveal_strlit("h264:");
    reveal_strlit("h264");
    let name = "h264"@;
    assert(VideoCodec::H264(t).display() =~= name + seq![':'] + t.display());
    lemma_codec_pieces(name, t.display());
    let lower = |x: Seq<char>| ascii_lowercase(x);
    assert(lower(name) == name);
    assert(lower(t.display()) == ascii_lowercase(t.display()));
}

#[verifier::spinoff_prover]
proof fn lemma_h265_round_trip(t: CodecType)
    requires
        all_ascii(t.display()),
        codec_type_parse(ascii_lowercase(t.display())) == Ok::<CodecType, ErrorClass>(t),
    ensures
        all_ascii(VideoCodec::H265(t).display()),
        video_codec_parse(VideoCodec::H265(t).display(), |x: Seq<char>| ascii_lowercase(x))
            == Ok::<VideoCodec, ErrorClass>(VideoCodec::H265(t)),
{
    reveal_strlit("h265:");
    reveal_strlit("h265");
    let name = "h265"@;
    assert(VideoCodec::H265(t).display() =~= name + seq![':'] + t.display());
    lemma_codec_pieces(name, t.display());
    reveal_strlit("h264");
    assert(name[3] != "h264"@[3]);
    let lower = |x: Seq<char>| ascii_lowercase(x);
    assert(lower(name) == name);
    assert(lower(t.display()) == ascii_lowercase(t.display()));
}

#[verifier::spinoff_prover]
#[verifier::rlimit(40)]
proof fn lemma_av1_round_trip(t: CodecType)
    requires
        all_ascii(t.display()),
        codec_type_parse(ascii_lowercase(t.display())) == Ok::<CodecType, ErrorClass>(t),
    ensures
        all_ascii(VideoCodec::AV1(t).display()),
        video_codec_parse(VideoCodec::AV1(t).display(), |x: Seq<char>| ascii_lowercase(x))
            == Ok::<VideoCodec, ErrorClass>(VideoCodec::AV1(t)),
{
    reveal_strlit("av1:");
    reveal_strlit("av1");
    let name = "av1"@;
    assert(VideoCodec::AV1(t).display() =~= name + seq![':'] + t.display());
    lemma_codec_pieces(name, t.display());
    assert("h264"@.len() == 4) by {
        reveal_strlit("h264");
    }
    assert("h265"@.len() == 4) by {
        reveal_strlit("h265");
    }
    let lower = |x: Seq<char>| ascii_lowercase(x);
    let d = VideoCodec::AV1(t).display();
    assert(split_once(d, ':') == Some((name, t.display())));
    assert(lower(name) == name);
    assert(codec_type_parse(lower(t.display())) == Ok::<CodecType, ErrorClass>(t));
    assert(lower(name) != "h264"@);
    assert(lower(name) != "h265"@);
    assert(lower(name) == "av1"@);
}

/// The displayed form of an audio codec is ASCII and reads back as the same codec.
pub proof fn law_audio_codec_round_trip(c: AudioCodec)
    ensures
        all_ascii(c.display()),
        audio_codec_parse(ascii_lowercase(c.display())) == Ok::<AudioCodec, ErrorClass>(c),
{
    reveal_strlit("opus");
    reveal_strlit("aac");
    reveal_strlit("mp3");
    lemma_ascii_lowercase_of_lower(c.display());
    match c {
        AudioCodec::Opus => assert(c.display() == seq!['o', 'p', 'u', 's']),
        AudioCodec::AAC => {
            assert(c.display() == seq!['a', 'a', 'c']);
            assert("opus"@ != seq!['a', 'a', 'c']);
        },
        AudioCodec::MP3 => {
            assert(c.display() == seq!['m', 'p', '3']);
            assert("opus"@ != seq!['m', 'p', '3']);
            assert("aac"@[0] != seq!['m', 'p', '3'][0]);
        },
    }
}

} // verus!
