//! Finding settings by key and reading their values from text.
use vstd::prelude::*;
use crate::error::{class_of, not_found, ErrorClass, IntErrorKind, WayclipError};
use crate::models::input::keyboard::{key_combo_parse, WayclipKeyCombo};
use crate::num::{parse_u64, parse_uint};
use crate::settings::output::{
    directory_path, prune_from_str, video_format_parse, Directory, Prune, VideoFormat,
};
use crate::settings::recording::{
    audio_codec_from_str, bitrate_from_str, fps_from_str, resolution_from_str,
    sample_rate_from_str, video_codec_from_str, AudioCodec, Bitrate, Fps, Resolution, SampleRate,
    VideoCodec,
};
use crate::settings::schema::SettingsDefinition;
use crate::text::{chars_are, chars_eq_ignore_ascii_case, eq_ignore_ascii_case, owned, str_chars, unicode_lowercase};

verus! {

/// The name that `url::Url::parse` gives its result for `s`: the URL's serialization, or the
/// parse error's message.
pub uninterp spec fn url_parse(s: Seq<char>) -> Result<Seq<char>, Seq<char>>;

/// Parses an absolute URL with `url::Url::parse`; the result is the URL's serialization
/// (`as_str`), the error is the `ParseError`'s message. Both are named by `url_parse`.
#[verifier::external_body]
fn parse_url(s: &str) -> (r: Result<String, String>)
    ensures
        match r {
            Ok(u) => url_parse(s@) == Ok::<Seq<char>, Seq<char>>(u@),
            Err(m) => url_parse(s@) == Err::<Seq<char>, Seq<char>>(m@),
        },
{
    match url::Url::parse(s) {
        Ok(u) => Ok(u.as_str().to_owned()),
        Err(e) => Err(e.to_string()),
    }
}

/// How the value of a setting is read, by the setting's type name.
#[derive(Debug, Clone, Copy, PartialEq, Eq, Structural)]
pub enum SettingKind {
    Bool,
    U64,
    F64,
    Text,
    Directory,
    Bitrate,
    Url,
    Fps,
    SampleRate,
    AudioLevel,
    Resolution,
    VideoCodec,
    AudioCodec,
    VideoFormat,
    Prune,
    KeyCombo,
}

/// The kind a type name of the schema stands for (`string` and `path` are both text).
pub open spec fn kind_of_type(t: Seq<char>) -> Option<SettingKind> {
    if t == "bool"@ {
        Some(SettingKind::Bool)
    } else if t == "u64"@ {
        Some(SettingKind::U64)
    } else if t == "f64"@ {
        Some(SettingKind::F64)
    } else if t == "string"@ || t == "path"@ {
        Some(SettingKind::Text)
    } else if t == "directory"@ {
        Some(SettingKind::Directory)
    } else if t == "bitrate"@ {
        Some(SettingKind::Bitrate)
    } else if t == "url"@ {
        Some(SettingKind::Url)
    } else if t == "fps"@ {
        Some(SettingKind::Fps)
    } else if t == "sample_rate"@ {
        Some(SettingKind::SampleRate)
    } else if t == "audio_level"@ {
        Some(SettingKind::AudioLevel)
    } else if t == "resolution"@ {
        Some(SettingKind::Resolution)
    } else if t == "video_codec"@ {
        Some(SettingKind::VideoCodec)
    } else if t == "audio_codec"@ {
        Some(SettingKind::AudioCodec)
    } else if t == "video_format"@ {
        Some(SettingKind::VideoFormat)
    } else if t == "prune"@ {
        Some(SettingKind::Prune)
    } else if t == "key_combo"@ {
        Some(SettingKind::KeyCombo)
    } else {
        None
    }
}

fn kind_of_type_exec(t: &str) -> (k: Option<SettingKind>)
    ensures
        k == kind_of_type(t@),
{
    let c = str_chars(t);
    let c = c.as_slice();
    if chars_are(c, "bool") {
        Some(SettingKind::Bool)
    } else if chars_are(c, "u64") {
        Some(SettingKind::U64)
    } else if chars_are(c, "f64") {
        Some(SettingKind::F64)
    } else if chars_are(c, "string") || chars_are(c, "path") {
        Some(SettingKind::Text)
    } else if chars_are(c, "directory") {
        Some(SettingKind::Directory)
    } else if chars_are(c, "bitrate") {
        Some(SettingKind::Bitrate)
    } else if chars_are(c, "url") {
        Some(SettingKind::Url)
    } else if chars_are(c, "fps") {
        Some(SettingKind::Fps)
    } else if chars_are(c, "sample_rate") {
        Some(SettingKind::SampleRate)
    } else if chars_are(c, "audio_level") {
        Some(SettingKind::AudioLevel)
    } else if chars_are(c, "resolution") {
        Some(SettingKind::Resolution)
    } else if chars_are(c, "video_codec") {
        Some(SettingKind::VideoCodec)
    } else if chars_are(c, "audio_codec") {
        Some(SettingKind::AudioCodec)
    } else if chars_are(c, "video_format") {
        Some(SettingKind::VideoFormat)
    } else if chars_are(c, "prune") {
        Some(SettingKind::Prune)
    } else if chars_are(c, "key_combo") {
        Some(SettingKind::KeyCombo)
    } else {
        None
    }
}

/// The index of the first definition whose key equals `key` up to ASCII case.
pub open spec fn find_spec(defs: Seq<(String, SettingsDefinition)>, key: Seq<char>) -> Option<int>
    decreases defs.len(),
{
    if defs.len() == 0 {
        None
    } else if eq_ignore_ascii_case(defs[0].1.key@, key) {
        Some(0)
    } else {
        match find_spec(defs.drop_first(), key) {
            Some(i) => Some(i + 1),
            None => None,
        }
    }
}

proof fn lemma_find_skip(defs: Seq<(String, SettingsDefinition)>, key: Seq<char>, i: int)
    requires
        0 <= i <= defs.len(),
        forall|j: int| 0 <= j < i ==> !eq_ignore_ascii_case((#[trigger] defs[j]).1.key@, key),
    ensures
        find_spec(defs, key) == match find_spec(defs.skip(i), key) {
            Some(x) => Some(x + i),
            None => None::<int>,
        },
    decreases i,
{
    if i == 0 {
        assert(defs.skip(0) =~= defs);
    } else {
        let t = defs.drop_first();
        assert forall|j: int| 0 <= j < i - 1 implies !eq_ignore_ascii_case((#[trigger] t[j]).1.key@, key) by {
            assert(t[j] == defs[j + 1]);
        }
        lemma_find_skip(t, key, i - 1);
        assert(t.skip(i - 1) =~= defs.skip(i));
        assert(!eq_ignore_ascii_case(defs[0].1.key@, key));
    }
}

/// The kind of the setting `key`: `NotFound` when no definition has that key, or when its type
/// has no reader.
pub open spec fn setting_kind_spec(defs: Seq<(String, SettingsDefinition)>, key: Seq<char>) -> Result<SettingKind, ErrorClass> {
    match find_spec(defs, key) {
        None => Err(ErrorClass::NotFound),
        Some(i) => match kind_of_type(defs[i].1.value_type@) {
            Some(k) => Ok(k),
            None => Err(ErrorClass::NotFound),
        },
    }
}

/// A setting's value read from text. Directories are the expanded path, still to be checked
/// for existence; floating-point values (`f64`, audio levels) are the text, to be read as a
/// float by the caller.
#[derive(Debug, Clone)]
pub enum RawSetting {
    Bool(bool),
    U64(u64),
    Float(String),
    AudioLevel(String),
    Text(String),
    DirectoryPath(String),
    Bitrate(Bitrate),
    Url(String),
    Fps(Fps),
    SampleRate(SampleRate),
    Resolution(Resolution),
    VideoCodec(VideoCodec),
    AudioCodec(AudioCodec),
    VideoFormat(VideoFormat),
    Prune(Prune),
    KeyCombo(WayclipKeyCombo),
}

/// What `str::parse::<bool>` accepts.
pub open spec fn bool_parse(s: Seq<char>) -> Option<bool> {
    if s == "true"@ {
        Some(true)
    } else if s == "false"@ {
        Some(false)
    } else {
        None
    }
}

/// `r` is `Ok(make(x))` when reading gave `Ok(x)`, and an error of the same category otherwise.
pub open spec fn lifted<T>(
    read: Result<T, ErrorClass>,
    make: spec_fn(T) -> RawSetting,
    r: Result<RawSetting, WayclipError>,
) -> bool {
    match read {
        Ok(x) => r matches Ok(v) && v == make(x),
        Err(c) => r matches Err(e) && class_of(e) == c,
    }
}

/// What reading `v` as a value of kind `k` gives, with `home` the home directory.
pub open spec fn raw_read(
    k: SettingKind,
    v: Seq<char>,
    home: Option<Seq<char>>,
    r: Result<RawSetting, WayclipError>,
) -> bool {
    match k {
        SettingKind::Bool => match bool_parse(v) {
            Some(b) => r matches Ok(RawSetting::Bool(x)) && x == b,
            None => r matches Err(WayclipError::ParseBool),
        },
        SettingKind::U64 => match parse_uint(v, u64::MAX as int) {
            Ok(n) => r matches Ok(RawSetting::U64(x)) && x == n,
            Err(e) => r matches Err(WayclipError::ParseInt(x)) && x == e,
        },
        SettingKind::F64 => r matches Ok(RawSetting::Float(t)) && t@ == v,
        SettingKind::AudioLevel => r matches Ok(RawSetting::AudioLevel(t)) && t@ == v,
        SettingKind::Text => r matches Ok(RawSetting::Text(t)) && t@ == v,
        SettingKind::Directory => r matches Ok(RawSetting::DirectoryPath(p)) && p@ == directory_path(
            v,
            home,
        ),
        SettingKind::Url => match url_parse(v) {
            Ok(u) => r matches Ok(RawSetting::Url(x)) && x@ == u,
            Err(m) => r matches Err(WayclipError::Url(x)) && x@ == m,
        },
        SettingKind::Bitrate => lifted(bitrate_from_str(v), |x: Bitrate| RawSetting::Bitrate(x), r),
        SettingKind::Fps => lifted(fps_from_str(v), |x: Fps| RawSetting::Fps(x), r),
        SettingKind::SampleRate => lifted(
            sample_rate_from_str(v),
            |x: SampleRate| RawSetting::SampleRate(x),
            r,
        ),
        SettingKind::Resolution => lifted(
            resolution_from_str(v),
            |x: Resolution| RawSetting::Resolution(x),
            r,
        ),
        SettingKind::VideoCodec => lifted(
            video_codec_from_str(v),
            |x: VideoCodec| RawSetting::VideoCodec(x),
            r,
        ),
        SettingKind::AudioCodec => lifted(
            audio_codec_from_str(v),
            |x: AudioCodec| RawSetting::AudioCodec(x),
            r,
        ),
        SettingKind::VideoFormat => lifted(
            video_format_parse(unicode_lowercase(v)),
            |x: VideoFormat| RawSetting::VideoFormat(x),
            r,
        ),
        SettingKind::Prune => lifted(prune_from_str(v), |x: Prune| RawSetting::Prune(x), r),
        SettingKind::KeyCombo => lifted(
            key_combo_parse(v, |x: Seq<char>| unicode_lowercase(x)),
            |x: WayclipKeyCombo| RawSetting::KeyCombo(x),
            r,
        ),
    }
}

/// Registry responsible for finding settings in the schema and reading their values.
pub struct SettingsRegistry;

impl SettingsRegistry {
    /// The first definition whose key equals `key` up to ASCII case.
    pub fn find_by_key<'a>(defs: &'a Vec<(String, SettingsDefinition)>, key: &str) -> (r: Option<
        &'a (String, SettingsDefinition),
    >)
        ensures
            match find_spec(defs@, key@) {
                Some(i) => r == Some(&defs@[i]),
                None => r is None,
            },
    {
        let k = str_chars(key);
        let mut i: usize = 0;
        while i < defs.len()
            invariant
                i <= defs@.len(),
                k@ == key@,
                forall|j: int| 0 <= j < i ==> !eq_ignore_ascii_case((#[trigger] defs@[j]).1.key@, key@),
            decreases defs@.len() - i,
        {
            let d = str_chars(defs[i].1.key.as_str());
            if chars_eq_ignore_ascii_case(d.as_slice(), k.as_slice()) {
                proof {
                    lemma_find_skip(defs@, key@, i as int);
                    assert(defs@.skip(i as int)[0] == defs@[i as int]);
                }
                return Some(&defs[i]);
            }
            i = i + 1;
        }
        proof {
            lemma_find_skip(defs@, key@, i as int);
            assert(defs@.skip(i as int) =~= Seq::<(String, SettingsDefinition)>::empty());
        }
        None
    }

    /// How the value of the setting `key` is read.
    pub fn setting_kind(defs: &Vec<(String, SettingsDefinition)>, key: &str) -> (r: Result<
        SettingKind,
        WayclipError,
    >)
        ensures
            match setting_kind_spec(defs@, key@) {
                Ok(k) => r == Ok::<SettingKind, WayclipError>(k),
                Err(c) => r matches Err(e) && class_of(e) == c,
            },
    {
        match Self::find_by_key(defs, key) {
            None => Err(not_found("No such key")),
            Some(entry) => match kind_of_type_exec(entry.1.value_type.as_str()) {
                Some(k) => Ok(k),
                None => Err(not_found("No type handler found for this key")),
            },
        }
    }

    /// Reads the text `value` as the value of the setting `key`, with `home` the home directory
    /// that `~/` paths start from.
    pub fn parse_raw_str(
        defs: &Vec<(String, SettingsDefinition)>,
        key: &str,
        value: &str,
        home: Option<&str>,
    ) -> (r: Result<RawSetting, WayclipError>)
        ensures
            match setting_kind_spec(defs@, key@) {
                Err(c) => r matches Err(e) && class_of(e) == c,
                Ok(k) => raw_read(
                    k,
                    value@,
                    match home {
                        Some(h) => Some(h@),
                        None => None,
                    },
                    r,
                ),
            },
    {
        let kind = match Self::setting_kind(defs, key) {
            Ok(k) => k,
            Err(e) => return Err(e),
        };
        match kind {
            SettingKind::Bool => {
                let c = str_chars(value);
                if chars_are(c.as_slice(), "true") {
                    Ok(RawSetting::Bool(true))
                } else if chars_are(c.as_slice(), "false") {
                    Ok(RawSetting::Bool(false))
                } else {
                    Err(WayclipError::ParseBool)
                }
            },
            SettingKind::U64 => {
                let c = str_chars(value);
                proof {
                    crate::num::lemma_parse_bounds(c@, u64::MAX as int);
                }
                match parse_u64(c.as_slice()) {
                    Ok(n) => Ok(RawSetting::U64(n)),
                    Err(k) => Err(WayclipError::ParseInt(k)),
                }
            },
            SettingKind::F64 => Ok(RawSetting::Float(owned(value))),
            SettingKind::AudioLevel => Ok(RawSetting::AudioLevel(owned(value))),
            SettingKind::Text => Ok(RawSetting::Text(owned(value))),
            SettingKind::Directory => Ok(RawSetting::DirectoryPath(Directory::expand(value, home))),
            SettingKind::Url => match parse_url(value) {
                Ok(u) => Ok(RawSetting::Url(u)),
                Err(m) => Err(WayclipError::Url(m)),
            },
            SettingKind::Bitrate => match Bitrate::from_str(value) {
                Ok(x) => Ok(RawSetting::Bitrate(x)),
                Err(e) => Err(e),
            },
            SettingKind::Fps => match Fps::from_str(value) {
                Ok(x) => Ok(RawSetting::Fps(x)),
                Err(e) => Err(e),
            },
            SettingKind::SampleRate => match SampleRate::from_str(value) {
                Ok(x) => Ok(RawSetting::SampleRate(x)),
                Err(e) => Err(e),
            },
            SettingKind::Resolution => match Resolution::from_str(value) {
                Ok(x) => Ok(RawSetting::Resolution(x)),
                Err(e) => Err(e),
            },
            SettingKind::VideoCodec => match VideoCodec::from_str(value) {
                Ok(x) => Ok(RawSetting::VideoCodec(x)),
                Err(e) => Err(e),
            },
            SettingKind::AudioCodec => match AudioCodec::from_str(value) {
                Ok(x) => Ok(RawSetting::AudioCodec(x)),
                Err(e) => Err(e),
            },
            SettingKind::VideoFormat => match VideoFormat::from_str(value) {
                Ok(x) => Ok(RawSetting::VideoFormat(x)),
                Err(e) => Err(e),
            },
            SettingKind::Prune => match Prune::from_str(value) {
                Ok(x) => Ok(RawSetting::Prune(x)),
                Err(e) => Err(e),
            },
            SettingKind::KeyCombo => match WayclipKeyCombo::from_str(value) {
                Ok(x) => Ok(RawSetting::KeyCombo(x)),
                Err(e) => Err(e),
            },
        }
    }
}

} // verus!

verus! {

/// Whether the setting `key` is found and its schema type is `t`.
pub open spec fn typed(defs: Seq<(String, SettingsDefinition)>, key: Seq<char>, t: Seq<char>) -> bool {
    find_spec(defs, key) matches Some(i) && defs[i].1.value_type@ == t
}

/// A number that tells the type names apart: made of the length and the first two and the
/// last characters.
spec fn type_key(s: Seq<char>) -> int {
    ((s.len() * 0x110000 + s[0] as int) * 0x110000 + s[1] as int) * 0x110000 + s[s.len() - 1] as int
}

#[verifier::rlimit(100)]
proof fn lemma_type_names()
    ensures
        kind_of_type("bool"@) == Some(SettingKind::Bool),
        kind_of_type("u64"@) == Some(SettingKind::U64),
        kind_of_type("f64"@) == Some(SettingKind::F64),
        kind_of_type("string"@) == Some(SettingKind::Text),
        kind_of_type("path"@) == Some(SettingKind::Text),
        kind_of_type("directory"@) == Some(SettingKind::Directory),
        kind_of_type("bitrate"@) == Some(SettingKind::Bitrate),
        kind_of_type("url"@) == Some(SettingKind::Url),
        kind_of_type("fps"@) == Some(SettingKind::Fps),
        kind_of_type("sample_rate"@) == Some(SettingKind::SampleRate),
        kind_of_type("audio_level"@) == Some(SettingKind::AudioLevel),
        kind_of_type("resolution"@) == Some(SettingKind::Resolution),
        kind_of_type("video_codec"@) == Some(SettingKind::VideoCodec),
        kind_of_type("audio_codec"@) == Some(SettingKind::AudioCodec),
        kind_of_type("video_format"@) == Some(SettingKind::VideoFormat),
        kind_of_type("prune"@) == Some(SettingKind::Prune),
        kind_of_type("key_combo"@) == Some(SettingKind::KeyCombo),
{
    reveal_strlit("bool");
    assert(type_key("bool"@) == 5531667884505235564);
    reveal_strlit("u64");
    assert(type_key("u64"@) == 4148804907527700532);
    reveal_strlit("f64");
    assert(type_key("f64"@) == 4148786288844472372);
    reveal_strlit("string");
    assert(type_key("string"@) == 8297462106844037223);
    reveal_strlit("path");
    assert(type_key("path"@) == 5531685261927317608);
    reveal_strlit("directory");
    assert(type_key("directory"@) == 12446103169886912633);
    reveal_strlit("bitrate");
    assert(type_key("bitrate"@) == 9680327566236909669);
    reveal_strlit("url");
    assert(type_key("url"@) == 4148804907594547308);
    reveal_strlit("fps");
    assert(type_key("fps"@) == 4148786288909090931);
    reveal_strlit("sample_rate");
    assert(type_key("sample_rate"@) == 15211894909720133733);
    reveal_strlit("audio_level");
    assert(type_key("audio_level"@) == 15211872567322542188);
    reveal_strlit("resolution");
    assert(type_key("resolution"@) == 13829007107899588718);
    reveal_strlit("video_codec");
    assert(type_key("video_codec"@) == 15211898633465692259);
    reveal_strlit("audio_codec");
    assert(type_key("audio_codec"@) == 15211872567322542179);
    reveal_strlit("video_format");
    assert(type_key("video_format"@) == 16594785194045145204);
    reveal_strlit("prune");
    assert(type_key("prune"@) == 6914571822525710437);
    reveal_strlit("key_combo");
    assert(type_key("key_combo"@) == 12446111858601295983);
}

/// A setting is read by its schema type: each type name stands for its own kind of value, and
/// the text is read as a value of that kind, the error of that reading being the error given.
/// A key that no setting has is not found.
pub proof fn law_setting_types(
    defs: Seq<(String, SettingsDefinition)>,
    key: Seq<char>,
    v: Seq<char>,
    home: Option<Seq<char>>,
    r: Result<RawSetting, WayclipError>,
)
    requires
        match setting_kind_spec(defs, key) {
            Err(c) => r matches Err(e) && class_of(e) == c,
            Ok(k) => raw_read(k, v, home, r),
        },
    ensures
        find_spec(defs, key) is None ==> (r matches Err(e) && class_of(e) == ErrorClass::NotFound),
        typed(defs, key, "bool"@) ==> (setting_kind_spec(defs, key) == Ok::<SettingKind, ErrorClass>(SettingKind::Bool) && (bool_parse(v) matches Some(b) ==> (r matches Ok(RawSetting::Bool(x)) && x == b)) && (bool_parse(v) is None ==> r is Err)),
        typed(defs, key, "u64"@) ==> (setting_kind_spec(defs, key) == Ok::<SettingKind, ErrorClass>(SettingKind::U64) && (parse_uint(v, u64::MAX as int) matches Ok(n) ==> (r matches Ok(RawSetting::U64(x)) && x == n)) && (parse_uint(v, u64::MAX as int) is Err ==> r is Err)),
        typed(defs, key, "f64"@) ==> (setting_kind_spec(defs, key) == Ok::<SettingKind, ErrorClass>(SettingKind::F64) && (r matches Ok(RawSetting::Float(t)) && t@ == v)),
        typed(defs, key, "string"@) ==> (setting_kind_spec(defs, key) == Ok::<SettingKind, ErrorClass>(SettingKind::Text) && (r matches Ok(RawSetting::Text(t)) && t@ == v)),
        typed(defs, key, "path"@) ==> (setting_kind_spec(defs, key) == Ok::<SettingKind, ErrorClass>(SettingKind::Text) && (r matches Ok(RawSetting::Text(t)) && t@ == v)),
        typed(defs, key, "directory"@) ==> (setting_kind_spec(defs, key) == Ok::<SettingKind, ErrorClass>(SettingKind::Directory) && (r matches Ok(RawSetting::DirectoryPath(p)) && p@ == directory_path(v, home))),
        typed(defs, key, "bitrate"@) ==> (setting_kind_spec(defs, key) == Ok::<SettingKind, ErrorClass>(SettingKind::Bitrate) && (bitrate_from_str(v) matches Ok(c) ==> (r matches Ok(RawSetting::Bitrate(x)) && x == c)) && (bitrate_from_str(v) is Err ==> r is Err)),
        typed(defs, key, "url"@) ==> (setting_kind_spec(defs, key) == Ok::<SettingKind, ErrorClass>(SettingKind::Url) && (url_parse(v) matches Ok(u) ==> (r matches Ok(RawSetting::Url(x)) && x@ == u)) && (url_parse(v) is Err ==> r matches Err(WayclipError::Url(_)))),
        typed(defs, key, "fps"@) ==> (setting_kind_spec(defs, key) == Ok::<SettingKind, ErrorClass>(SettingKind::Fps) && (fps_from_str(v) matches Ok(c) ==> (r matches Ok(RawSetting::Fps(x)) && x == c)) && (fps_from_str(v) is Err ==> r is Err)),
        typed(defs, key, "sample_rate"@) ==> (setting_kind_spec(defs, key) == Ok::<SettingKind, ErrorClass>(SettingKind::SampleRate) && (sample_rate_from_str(v) matches Ok(c) ==> (r matches Ok(RawSetting::SampleRate(x)) && x == c)) && (sample_rate_from_str(v) is Err ==> r is Err)),
        typed(defs, key, "audio_level"@) ==> (setting_kind_spec(defs, key) == Ok::<SettingKind, ErrorClass>(SettingKind::AudioLevel) && (r matches Ok(RawSetting::AudioLevel(t)) && t@ == v)),
        typed(defs, key, "resolution"@) ==> (setting_kind_spec(defs, key) == Ok::<SettingKind, ErrorClass>(SettingKind::Resolution) && (resolution_from_str(v) matches Ok(c) ==> (r matches Ok(RawSetting::Resolution(x)) && x == c)) && (resolution_from_str(v) is Err ==> r is Err)),
        typed(defs, key, "video_codec"@) ==> (setting_kind_spec(defs, key) == Ok::<SettingKind, ErrorClass>(SettingKind::VideoCodec) && (video_codec_from_str(v) matches Ok(c) ==> (r matches Ok(RawSetting::VideoCodec(x)) && x == c)) && (video_codec_from_str(v) is Err ==> r is Err)),
        typed(defs, key, "audio_codec"@) ==> (setting_kind_spec(defs, key) == Ok::<SettingKind, ErrorClass>(SettingKind::AudioCodec) && (audio_codec_from_str(v) matches Ok(c) ==> (r matches Ok(RawSetting::AudioCodec(x)) && x == c)) && (audio_codec_from_str(v) is Err ==> r is Err)),
        typed(defs, key, "video_format"@) ==> (setting_kind_spec(defs, key) == Ok::<SettingKind, ErrorClass>(SettingKind::VideoFormat) && (video_format_parse(unicode_lowercase(v)) matches Ok(c) ==> (r matches Ok(RawSetting::VideoFormat(x)) && x == c)) && (video_format_parse(unicode_lowercase(v)) is Err ==> r is Err)),
        typed(defs, key, "prune"@) ==> (setting_kind_spec(defs, key) == Ok::<SettingKind, ErrorClass>(SettingKind::Prune) && (prune_from_str(v) matches Ok(c) ==> (r matches Ok(RawSetting::Prune(x)) && x == c)) && (prune_from_str(v) is Err ==> r is Err)),
        typed(defs, key, "key_combo"@) ==> (setting_kind_spec(defs, key) == Ok::<SettingKind, ErrorClass>(SettingKind::KeyCombo) && (key_combo_parse(v, |x: Seq<char>| unicode_lowercase(x)) matches Ok(c) ==> (r matches Ok(RawSetting::KeyCombo(x)) && x == c)) && (key_combo_parse(v, |x: Seq<char>| unicode_lowercase(x)) is Err ==> r is Err)),
{
    lemma_type_names();
    if let Some(i) = find_spec(defs, key) {
        let t = defs[i].1.value_type@;
        assert(setting_kind_spec(defs, key) == match kind_of_type(t) {
            Some(k) => Ok::<SettingKind, ErrorClass>(k),
            None => Err::<SettingKind, ErrorClass>(ErrorClass::NotFound),
        });
    }

}

} // verus!
