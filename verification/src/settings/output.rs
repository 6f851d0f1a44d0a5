//! Where and how the daemon writes clips, and the local storage limits.
use vstd::prelude::*;
use crate::error::{outcome, not_found, validation, ErrorClass, IntErrorKind, WayclipError};
use crate::num::{decimal, lemma_parse_bounds, parse_u64, parse_uint, parse_usize, u64_to_string};
use crate::settings::recording::int_outcome;
use crate::text::{
    all_ascii, ascii_lowercase, chars_eq, chars_eq_ignore_ascii_case, chars_split_once,
    chars_strip_prefix, chars_strip_suffix, eq_ignore_ascii_case, push_str, split, split_chars,
    split_once, str_chars, string_from_chars, strip_prefix, strip_suffix, to_lowercase, trim,
    trim_chars, unicode_lowercase, views,
};

verus! {

pub const DEFAULT_MAX_SIZE_MB: u64 = 0;
pub const DEFAULT_MAX_CLIPS: u64 = 0;

// ---------------------------------------------------------------------------------------------
// Directories
// ---------------------------------------------------------------------------------------------

/// A directory path.
#[derive(Debug, Clone, PartialEq, Eq)]
pub struct Directory(pub String);

/// `PathBuf::join` of a relative path onto `base`.
pub open spec fn join_path(base: Seq<char>, rel: Seq<char>) -> Seq<char> {
    if base.len() == 0 || base.last() == '/' {
        base + rel
    } else {
        base + seq!['/'] + rel
    }
}

/// The path that `Directory::from_str` looks at: a path starting with `~/` is joined (as a whole)
/// onto the home directory when there is one; any other path is taken as it is.
pub open spec fn directory_path(s: Seq<char>, home: Option<Seq<char>>) -> Seq<char> {
    if crate::text::is_prefix("~/"@, s) && home is Some {
        join_path(home->0, s)
    } else {
        s
    }
}

/// Joins a relative path onto `base`, as `PathBuf::join` does.
pub fn join_path_exec(base: &str, rel: &str) -> (r: String)
    ensures
        r@ == join_path(base@, rel@),
{
    let b = str_chars(base);
    let mut r = owned_str(base);
    if !(b.len() == 0 || b[b.len() - 1] == '/') {
        r.push('/');
    }
    push_str(&mut r, rel);
    r
}

fn owned_str(s: &str) -> (r: String)
    ensures
        r@ == s@,
{
    s.to_owned()
}

impl Directory {
    /// The path that a user-entered directory stands for, given the home directory (if any).
    pub fn expand(s: &str, home: Option<&str>) -> (r: String)
        ensures
            r@ == directory_path(s@, match home {
                Some(h) => Some(h@),
                None => None,
            }),
    {
        let chars = str_chars(s);
        let tilde = str_chars("~/");
        if crate::text::chars_starts_with(chars.as_slice(), tilde.as_slice()) {
            if let Some(h) = home {
                return join_path_exec(h, s);
            }
        }
        owned_str(s)
    }

    /// A directory from an expanded path, given whether that path exists and is a directory.
    pub fn from_checked(path: String, is_existing_dir: bool) -> (r: Result<Directory, WayclipError>)
        ensures
            is_existing_dir ==> (r matches Ok(d) && d.0@ == path@),
            !is_existing_dir ==> r matches Err(WayclipError::NotFound(_)),
    {
        if !is_existing_dir {
            return Err(not_found("Provided path doesnt exist or is not a directory"));
        }
        Ok(Directory(path))
    }

    /// The displayed form: the path itself.
    pub fn to_string(&self) -> (s: String)
        ensures
            s@ == self.0@,
    {
        self.0.clone()
    }
}

// ---------------------------------------------------------------------------------------------
// Video format
// ---------------------------------------------------------------------------------------------

/// The container in which clips are saved (all clips are first recorded as MKV).
#[derive(Debug, Clone, Copy, PartialEq, Eq, Structural)]
pub enum VideoFormat {
    MP4,
    MKV,
    MPEGTS,
}

/// What `VideoFormat::from_str` gives for the lowercased input `l`.
pub open spec fn video_format_parse(l: Seq<char>) -> Result<VideoFormat, ErrorClass> {
    if l == "mp4"@ {
        Ok(VideoFormat::MP4)
    } else if l == "mkv"@ {
        Ok(VideoFormat::MKV)
    } else if l == "mpegts"@ {
        Ok(VideoFormat::MPEGTS)
    } else {
        Err(ErrorClass::Validation)
    }
}

impl VideoFormat {
    /// The format used when none is configured.
    pub fn default() -> (f: Self)
        ensures
            f == VideoFormat::MKV,
    {
        VideoFormat::MKV
    }

    pub fn from_str(s: &str) -> (r: Result<Self, WayclipError>)
        ensures
            outcome(r) == video_format_parse(unicode_lowercase(s@)),
            all_ascii(s@) ==> outcome(r) == video_format_parse(ascii_lowercase(s@)),
    {
        let lower = to_lowercase(s);
        let l = str_chars(lower.as_str());
        let mp4 = str_chars("mp4");
        let mkv = str_chars("mkv");
        let mpegts = str_chars("mpegts");
        if chars_eq(l.as_slice(), mp4.as_slice()) {
            Ok(VideoFormat::MP4)
        } else if chars_eq(l.as_slice(), mkv.as_slice()) {
            Ok(VideoFormat::MKV)
        } else if chars_eq(l.as_slice(), mpegts.as_slice()) {
            Ok(VideoFormat::MPEGTS)
        } else {
            Err(validation("Invalid format type"))
        }
    }

    pub open spec fn display(self) -> Seq<char> {
        match self {
            VideoFormat::MPEGTS => "mpegts"@,
            VideoFormat::MKV => "mkv"@,
            VideoFormat::MP4 => "mp4"@,
        }
    }

    /// The displayed form: `mp4`, `mkv` or `mpegts`.
    pub fn to_string(&self) -> (s: String)
        ensures
            s@ == self.display(),
    {
        match self {
            VideoFormat::MPEGTS => "mpegts".to_owned(),
            VideoFormat::MKV => "mkv".to_owned(),
            VideoFormat::MP4 => "mp4".to_owned(),
        }
    }

    /// The GStreamer muxer element.
    pub fn get_mux(&self) -> (s: &'static str)
        ensures
            s@ == match self {
                VideoFormat::MKV => "matroskamux"@,
                VideoFormat::MP4 => "mp4mux"@,
                VideoFormat::MPEGTS => "mpegtsmux"@,
            },
    {
        match self {
            VideoFormat::MKV => "matroskamux",
            VideoFormat::MP4 => "mp4mux",
            VideoFormat::MPEGTS => "mpegtsmux",
        }
    }

    /// The file extension.
    pub fn get_extension(&self) -> (s: &'static str)
        ensures
            s@ == match self {
                VideoFormat::MKV => "mkv"@,
                VideoFormat::MP4 => "mp4"@,
                VideoFormat::MPEGTS => "ts"@,
            },
    {
        match self {
            VideoFormat::MKV => "mkv",
            VideoFormat::MP4 => "mp4",
            VideoFormat::MPEGTS => "ts",
        }
    }

    /// The MIME type for HTTP uploads.
    pub fn get_mime_str(&self) -> (s: &'static str)
        ensures
            s@ == match self {
                VideoFormat::MP4 => "video/mp4"@,
                VideoFormat::MKV => "video/x-matroska"@,
                VideoFormat::MPEGTS => "video/mp2t"@,
            },
    {
        match self {
            VideoFormat::MP4 => "video/mp4",
            VideoFormat::MKV => "video/x-matroska",
            VideoFormat::MPEGTS => "video/mp2t",
        }
    }
}

// ---------------------------------------------------------------------------------------------
// Age
// ---------------------------------------------------------------------------------------------

/// An age given in months, weeks, days and hours.
#[derive(Debug, Clone, Copy, PartialEq, Eq, Structural)]
pub struct Age {
    pub months: u64,
    pub weeks: u64,
    pub days: u64,
    pub hours: u64,
}

/// The number of hours in an age, a month counting 30 days.
pub open spec fn age_hours(a: Age) -> int {
    a.hours + a.days * 24 + a.weeks * 7 * 24 + a.months * 30 * 24
}

/// One `<number> <label>` part of an age.
#[verifier::opaque]
pub open spec fn age_part(part: Seq<char>, label: Seq<char>) -> Result<int, ErrorClass> {
    match split_once(trim(part), ' ') {
        None => Err(ErrorClass::NotFound),
        Some((num, lab)) => if !eq_ignore_ascii_case(lab, label) {
            Err(ErrorClass::Validation)
        } else {
            int_outcome(parse_uint(num, u64::MAX as int))
        },
    }
}

/// What `Age::from_str` gives: four comma-separated parts `<n> Months`, `<n> Weeks`, `<n> Days`,
/// `<n> Hours` (labels compared ignoring ASCII case), the first failing part deciding the error.
pub open spec fn age_from_str(s: Seq<char>) -> Result<Age, ErrorClass> {
    let parts = split(s, ',');
    if parts.len() != 4 {
        Err(ErrorClass::Validation)
    } else {
        match age_part(parts[0], "Months"@) {
            Err(e) => Err(e),
            Ok(m) => match age_part(parts[1], "Weeks"@) {
                Err(e) => Err(e),
                Ok(w) => match age_part(parts[2], "Days"@) {
                    Err(e) => Err(e),
                    Ok(d) => match age_part(parts[3], "Hours"@) {
                        Err(e) => Err(e),
                        Ok(h) => Ok(
                            Age { months: m as u64, weeks: w as u64, days: d as u64, hours: h as u64 },
                        ),
                    },
                },
            },
        }
    }
}

fn parse_age_part(part: &[char], label: &str) -> (r: Result<u64, WayclipError>)
    ensures
        match age_part(part@, label@) {
            Ok(v) => (r matches Ok(x) && x as int == v),
            Err(e) => (r matches Err(err) && crate::error::class_of(err) == e),
        },
{
    reveal(age_part);
    let p = trim_chars(part);
    let (num, lab) = match chars_split_once(p.as_slice(), ' ') {
        Some(pair) => pair,
        None => {
            let mut msg = "Missing space in part '".to_owned();
            let ps = string_from_chars(p.as_slice());
            push_str(&mut msg, ps.as_str());
            push_str(&mut msg, "'");
            return Err(WayclipError::NotFound(msg));
        },
    };
    let expected = str_chars(label);
    if !chars_eq_ignore_ascii_case(lab.as_slice(), expected.as_slice()) {
        let mut msg = "Expected '".to_owned();
        push_str(&mut msg, label);
        push_str(&mut msg, "', found '");
        let ls = string_from_chars(lab.as_slice());
        push_str(&mut msg, ls.as_str());
        push_str(&mut msg, "'");
        return Err(WayclipError::Validation(msg));
    }
    proof {
        lemma_parse_bounds(num@, u64::MAX as int);
    }
    match parse_u64(num.as_slice()) {
        Ok(v) => Ok(v),
        Err(k) => Err(WayclipError::ParseInt(k)),
    }
}

impl Age {
    /// The length of the age in seconds (`months` count 30 days).
    pub fn get_duration(&self) -> (secs: u64)
        requires
            age_hours(*self) * 3600 <= u64::MAX,
        ensures
            secs == age_hours(*self) * 3600,
    {
        assert(self.days * 24 <= age_hours(*self));
        assert(self.weeks * 7 * 24 <= age_hours(*self));
        assert(self.months * 30 * 24 <= age_hours(*self));
        let hours = self.hours + self.days * 24 + self.weeks * 7 * 24 + self.months * 30 * 24;
        hours * 3600
    }

    pub fn from_str(s: &str) -> (r: Result<Self, WayclipError>)
        ensures
            outcome(r) == age_from_str(s@),
    {
        let chars = str_chars(s);
        let parts = split_chars(chars.as_slice(), ',');
        proof {
            assert(views(parts@).len() == parts@.len());
        }
        if parts.len() != 4 {
            let mut msg = "Invalid Age format, expected 4 parts: ".to_owned();
            push_str(&mut msg, s);
            return Err(WayclipError::Validation(msg));
        }
        proof {
            assert(views(parts@)[0] == parts@[0]@);
            assert(views(parts@)[1] == parts@[1]@);
            assert(views(parts@)[2] == parts@[2]@);
            assert(views(parts@)[3] == parts@[3]@);
        }
        let months = match parse_age_part(parts[0].as_slice(), "Months") {
            Ok(v) => v,
            Err(e) => return Err(e),
        };
        let weeks = match parse_age_part(parts[1].as_slice(), "Weeks") {
            Ok(v) => v,
            Err(e) => return Err(e),
        };
        let days = match parse_age_part(parts[2].as_slice(), "Days") {
            Ok(v) => v,
            Err(e) => return Err(e),
        };
        let hours = match parse_age_part(parts[3].as_slice(), "Hours") {
            Ok(v) => v,
            Err(e) => return Err(e),
        };
        Ok(Age { months, weeks, days, hours })
    }

    pub open spec fn display(self) -> Seq<char> {
        decimal(self.months as nat) + " Months, "@ + decimal(self.weeks as nat) + " Weeks, "@
            + decimal(self.days as nat) + " Days, "@ + decimal(self.hours as nat) + " Hours"@
    }

    /// The displayed form, e.g. `1 Months, 2 Weeks, 3 Days, 4 Hours`.
    pub fn to_string(&self) -> (s: String)
        ensures
            s@ == self.display(),
    {
        let mut s = u64_to_string(self.months);
        push_str(&mut s, " Months, ");
        let w = u64_to_string(self.weeks);
        push_str(&mut s, w.as_str());
        push_str(&mut s, " Weeks, ");
        let d = u64_to_string(self.days);
        push_str(&mut s, d.as_str());
        push_str(&mut s, " Days, ");
        let h = u64_to_string(self.hours);
        push_str(&mut s, h.as_str());
        push_str(&mut s, " Hours");
        s
    }
}

// ---------------------------------------------------------------------------------------------
// Prune
// ---------------------------------------------------------------------------------------------

/// The strategy with which old clips are deleted.
#[derive(Debug, Clone, Copy, PartialEq, Eq, Structural)]
pub enum Prune {
    /// Do not delete clips
    Disabled,
    /// Delete the oldest clips until their total size is at most this many MB
    SizeMb(u64),
    /// Delete the oldest clips until at most this many are left
    Clips(usize),
    /// Delete all clips longer than this many seconds
    DurationS(u64),
    /// Delete all clips older than this age
    Age(Age),
}

/// The outcome of a branch of `Prune::from_str`, if the branch applies.
pub open spec fn branch_outcome(r: Option<Result<Prune, WayclipError>>) -> Option<Result<Prune, ErrorClass>> {
    match r {
        Some(x) => Some(outcome(x)),
        None => None,
    }
}

/// `After <n>MB in dir` or `After <n> clips in dir`.
pub open spec fn prune_after(s: Seq<char>) -> Option<Result<Prune, ErrorClass>> {
    match strip_prefix(s, "After "@) {
        None => None,
        Some(rest) => match strip_suffix(rest, "MB in dir"@) {
            Some(num) => Some(
                match int_outcome(parse_uint(num, u64::MAX as int)) {
                    Ok(n) => Ok(Prune::SizeMb(n as u64)),
                    Err(e) => Err(e),
                },
            ),
            None => match strip_suffix(rest, " clips in dir"@) {
                Some(num) => Some(
                    match int_outcome(parse_uint(num, usize::MAX as int)) {
                        Ok(n) => Ok(Prune::Clips(n as usize)),
                        Err(e) => Err(e),
                    },
                ),
                None => None,
            },
        },
    }
}

/// `Longer than <n>s`.
pub open spec fn prune_longer(s: Seq<char>) -> Option<Result<Prune, ErrorClass>> {
    match strip_prefix(s, "Longer than "@) {
        None => None,
        Some(rest) => match strip_suffix(rest, "s"@) {
            Some(num) => Some(
                match int_outcome(parse_uint(num, u64::MAX as int)) {
                    Ok(n) => Ok(Prune::DurationS(n as u64)),
                    Err(e) => Err(e),
                },
            ),
            None => None,
        },
    }
}

/// `Older than <age> from now`.
pub open spec fn prune_older(s: Seq<char>) -> Option<Result<Prune, ErrorClass>> {
    match strip_prefix(s, "Older than "@) {
        None => None,
        Some(rest) => match strip_suffix(rest, " from now"@) {
            Some(a) => Some(
                match age_from_str(a) {
                    Ok(a) => Ok(Prune::Age(a)),
                    Err(e) => Err(e),
                },
            ),
            None => None,
        },
    }
}

/// What `Prune::from_str` gives: the forms that `Prune::to_string` writes, tried in the order
/// `Disabled`, `After ...`, `Longer than ...`, `Older than ...`.
pub open spec fn prune_from_str(s: Seq<char>) -> Result<Prune, ErrorClass> {
    if s == "Disabled"@ {
        Ok(Prune::Disabled)
    } else {
        match prune_after(s) {
            Some(r) => r,
            None => match prune_longer(s) {
                Some(r) => r,
                None => match prune_older(s) {
                    Some(r) => r,
                    None => Err(ErrorClass::Validation),
                },
            },
        }
    }
}

fn prune_after_exec(chars: &[char]) -> (r: Option<Result<Prune, WayclipError>>)
    ensures
        branch_outcome(r) == prune_after(chars@),
{
    let after = str_chars("After ");
    if let Some(rest) = chars_strip_prefix(chars, after.as_slice()) {
        let mb = str_chars("MB in dir");
        if let Some(num) = chars_strip_suffix(rest.as_slice(), mb.as_slice()) {
            proof {
                lemma_parse_bounds(num@, u64::MAX as int);
            }
            return Some(
                match parse_u64(num.as_slice()) {
                    Ok(n) => Ok(Prune::SizeMb(n)),
                    Err(k) => Err(WayclipError::ParseInt(k)),
                },
            );
        }
        let clips = str_chars(" clips in dir");
        if let Some(num) = chars_strip_suffix(rest.as_slice(), clips.as_slice()) {
            proof {
                lemma_parse_bounds(num@, usize::MAX as int);
            }
            return Some(
                match parse_usize(num.as_slice()) {
                    Ok(n) => Ok(Prune::Clips(n)),
                    Err(k) => Err(WayclipError::ParseInt(k)),
                },
            );
        }
    }
    None
}

fn prune_longer_exec(chars: &[char]) -> (r: Option<Result<Prune, WayclipError>>)
    ensures
        branch_outcome(r) == prune_longer(chars@),
{
    let longer = str_chars("Longer than ");
    if let Some(rest) = chars_strip_prefix(chars, longer.as_slice()) {
        let sfx = str_chars("s");
        if let Some(num) = chars_strip_suffix(rest.as_slice(), sfx.as_slice()) {
            proof {
                lemma_parse_bounds(num@, u64::MAX as int);
            }
            return Some(
                match parse_u64(num.as_slice()) {
                    Ok(n) => Ok(Prune::DurationS(n)),
                    Err(k) => Err(WayclipError::ParseInt(k)),
                },
            );
        }
    }
    None
}

fn prune_older_exec(chars: &[char]) -> (r: Option<Result<Prune, WayclipError>>)
    ensures
        branch_outcome(r) == prune_older(chars@),
{
    let older = str_chars("Older than ");
    if let Some(rest) = chars_strip_prefix(chars, older.as_slice()) {
        let now = str_chars(" from now");
        if let Some(age_chars) = chars_strip_suffix(rest.as_slice(), now.as_slice()) {
            let age_s = string_from_chars(age_chars.as_slice());
            return Some(
                match Age::from_str(age_s.as_str()) {
                    Ok(a) => Ok(Prune::Age(a)),
                    Err(e) => Err(e),
                },
            );
        }
    }
    None
}

impl Prune {
    /// The strategy used when none is configured.
    pub fn default() -> (p: Self)
        ensures
            p == Prune::Disabled,
    {
        Prune::Disabled
    }

    pub fn from_str(s: &str) -> (r: Result<Self, WayclipError>)
        ensures
            outcome(r) == prune_from_str(s@),
    {
        let chars = str_chars(s);
        let disabled = str_chars("Disabled");
        if chars_eq(chars.as_slice(), disabled.as_slice()) {
            return Ok(Prune::Disabled);
        }
        if let Some(r) = prune_after_exec(chars.as_slice()) {
            return r;
        }
        if let Some(r) = prune_longer_exec(chars.as_slice()) {
            return r;
        }
        if let Some(r) = prune_older_exec(chars.as_slice()) {
            return r;
        }
        let mut msg = "Unrecognized Prune format: '".to_owned();
        push_str(&mut msg, s);
        push_str(&mut msg, "'");
        Err(WayclipError::Validation(msg))
    }

    pub open spec fn display(self) -> Seq<char> {
        match self {
            Prune::Disabled => "Disabled"@,
            Prune::SizeMb(mb) => "After "@ + decimal(mb as nat) + "MB in dir"@,
            Prune::Clips(n) => "After "@ + decimal(n as nat) + " clips in dir"@,
            Prune::DurationS(s) => "Longer than "@ + decimal(s as nat) + "s"@,
            Prune::Age(a) => "Older than "@ + a.display() + " from now"@,
        }
    }

    /// The displayed form, e.g. `After 5 clips in dir`.
    pub fn to_string(&self) -> (s: String)
        ensures
            s@ == self.display(),
    {
        match self {
            Prune::Disabled => "Disabled".to_owned(),
            Prune::SizeMb(mb) => {
                let mut s = "After ".to_owned();
                let n = u64_to_string(*mb);
                push_str(&mut s, n.as_str());
                push_str(&mut s, "MB in dir");
                s
            },
            Prune::Clips(num) => {
                let mut s = "After ".to_owned();
                let n = u64_to_string(*num as u64);
                push_str(&mut s, n.as_str());
                push_str(&mut s, " clips in dir");
                s
            },
            Prune::DurationS(secs) => {
                let mut s = "Longer than ".to_owned();
                let n = u64_to_string(*secs);
                push_str(&mut s, n.as_str());
                push_str(&mut s, "s");
                s
            },
            Prune::Age(age) => {
                let mut s = "Older than ".to_owned();
                let a = age.to_string();
                push_str(&mut s, a.as_str());
                push_str(&mut s, " from now");
                s
            },
        }
    }
}

// ---------------------------------------------------------------------------------------------
// Limits and output settings
// ---------------------------------------------------------------------------------------------

/// Local storage limits (0 means unlimited).
#[derive(Debug, Clone, Copy, PartialEq, Eq, Structural)]
pub struct LimitSettings {
    /// Limit for the total size of all clips
    pub max_size_mb: u64,
    /// Limit for the number of clips
    pub max_clips: u64,
    /// Prune method
    pub prune: Prune,
}

impl LimitSettings {
    /// No limits and no pruning.
    pub fn default() -> (l: Self)
        ensures
            l == (LimitSettings { max_size_mb: 0, max_clips: 0, prune: Prune::Disabled }),
    {
        LimitSettings {
            max_size_mb: DEFAULT_MAX_SIZE_MB,
            max_clips: DEFAULT_MAX_CLIPS,
            prune: Prune::Disabled,
        }
    }
}

/// Where and how the daemon writes clips.
#[derive(Debug, Clone, PartialEq, Eq)]
pub struct OutputSettings {
    /// Name formatting to follow
    pub name_format: String,
    /// What directory to save clips to
    pub clip_directory: Directory,
    /// What directory to save previews to
    pub preview_directory: Directory,
    /// What directory to save metadata to
    pub metadata_directory: Directory,
    /// The local user-set storage limits
    pub limit: LimitSettings,
    /// The video format in which to save
    pub video_format: VideoFormat,
}

impl OutputSettings {
    /// The default output settings for a user whose home directory is `home`: clips, previews
    /// and metadata under `Videos/wayclip/`, MKV, no limits.
    pub fn default_in(home: &str) -> (o: Self)
        ensures
            o.name_format@ == "wayclip_{game}_%Y-%m-%d_%H-%M-%S"@,
            o.clip_directory.0@ == join_path(home@, "Videos/wayclip/"@),
            o.preview_directory.0@ == join_path(home@, "Videos/wayclip/"@),
            o.metadata_directory.0@ == join_path(home@, "Videos/wayclip/"@),
            o.limit == (LimitSettings { max_size_mb: 0, max_clips: 0, prune: Prune::Disabled }),
            o.video_format == VideoFormat::MKV,
    {
        OutputSettings {
            name_format: "wayclip_{game}_%Y-%m-%d_%H-%M-%S".to_owned(),
            clip_directory: Directory(join_path_exec(home, "Videos/wayclip/")),
            preview_directory: Directory(join_path_exec(home, "Videos/wayclip/")),
            metadata_directory: Directory(join_path_exec(home, "Videos/wayclip/")),
            limit: LimitSettings::default(),
            video_format: VideoFormat::MKV,
        }
    }
}

// ---------------------------------------------------------------------------------------------
// Laws: what is displayed reads back as the same value
// ---------------------------------------------------------------------------------------------

/// The displayed form of a video format is ASCII and reads back as the same format.
pub proof fn law_video_format_round_trip(f: VideoFormat)
    ensures
        all_ascii(f.display()),
        video_format_parse(ascii_lowercase(f.display())) == Ok::<VideoFormat, ErrorClass>(f),
{
    reveal_strlit("mp4");
    reveal_strlit("mkv");
    reveal_strlit("mpegts");
    crate::text::lemma_ascii_lowercase_of_lower(f.display());
    match f {
        VideoFormat::MP4 => {},
        VideoFormat::MKV => {
            assert("mkv"@[1] != "mp4"@[1]);
        },
        VideoFormat::MPEGTS => {
            assert("mpegts"@.len() != "mp4"@.len());
            assert("mpegts"@.len() != "mkv"@.len());
        },
    }
}

proof fn lemma_age_part_round_trip(n: nat, label: Seq<char>)
    requires
        n <= u64::MAX,
        label.len() > 0,
        !crate::text::is_whitespace(label.last()),
    ensures
        age_part(decimal(n) + seq![' '] + label, label) == Ok::<int, ErrorClass>(n as int),
        age_part(seq![' '] + decimal(n) + seq![' '] + label, label) == Ok::<int, ErrorClass>(
            n as int,
        ),
{
    reveal(age_part);
    let d = decimal(n);
    crate::num::lemma_decimal_digits(n);
    crate::num::lemma_parse_decimal(n, u64::MAX as int);
    let p = d + seq![' '] + label;
    assert(p[0] == d[0]);
    assert(p.last() == label.last());
    crate::text::lemma_trim_noop(p);
    crate::text::lemma_trim_leading_space(p);
    assert(seq![' '] + decimal(n) + seq![' '] + label =~= seq![' '] + p);
    assert(crate::text::lacks(d, ' '));
    crate::text::lemma_split_once_at(d, ' ', label);
    crate::text::lemma_eq_ignore_case_refl(label);
}

spec fn age_piece(n: u64, label: Seq<char>, lead: bool) -> Seq<char> {
    if lead {
        seq![' '] + decimal(n as nat) + seq![' '] + label
    } else {
        decimal(n as nat) + seq![' '] + label
    }
}

proof fn lemma_age_display_pieces(a: Age)
    ensures
        a.display() == age_piece(a.months, "Months"@, false) + seq![','] + (age_piece(
            a.weeks,
            "Weeks"@,
            true,
        ) + seq![','] + (age_piece(a.days, "Days"@, true) + seq![','] + age_piece(
            a.hours,
            "Hours"@,
            true,
        ))),
{
    reveal_strlit(" Months, ");
    reveal_strlit(" Weeks, ");
    reveal_strlit(" Days, ");
    reveal_strlit(" Hours");
    reveal_strlit("Months");
    reveal_strlit("Weeks");
    reveal_strlit("Days");
    reveal_strlit("Hours");
    assert(a.display() =~= age_piece(a.months, "Months"@, false) + seq![','] + (age_piece(
        a.weeks,
        "Weeks"@,
        true,
    ) + seq![','] + (age_piece(a.days, "Days"@, true) + seq![','] + age_piece(
        a.hours,
        "Hours"@,
        true,
    ))));
}

proof fn lemma_age_piece_lacks_comma(n: u64, label: Seq<char>, lead: bool)
    requires
        crate::text::lacks(label, ','),
    ensures
        crate::text::lacks(age_piece(n, label, lead), ','),
{
    crate::num::lemma_decimal_digits(n as nat);
    let p = age_piece(n, label, lead);
    let d = decimal(n as nat);
    assert forall|i: int| 0 <= i < p.len() implies #[trigger] p[i] != ',' by {
        if lead {
            if 1 <= i < 1 + d.len() {
                assert(p[i] == d[i - 1]);
            } else if i > 1 + d.len() {
                assert(p[i] == label[i - 2 - d.len()]);
            }
        } else {
            if i < d.len() {
                assert(p[i] == d[i]);
            } else if i > d.len() {
                assert(p[i] == label[i - 1 - d.len()]);
            }
        }
    }
}

proof fn lemma_split4(p0: Seq<char>, p1: Seq<char>, p2: Seq<char>, p3: Seq<char>)
    requires
        crate::text::lacks(p0, ','),
        crate::text::lacks(p1, ','),
        crate::text::lacks(p2, ','),
        crate::text::lacks(p3, ','),
    ensures
        split(p0 + seq![','] + (p1 + seq![','] + (p2 + seq![','] + p3)), ',') == seq![
            p0,
            p1,
            p2,
            p3,
        ],
{
    crate::text::lemma_split_without_sep(p3, ',');
    crate::text::lemma_split_at_sep(p2, ',', p3);
    crate::text::lemma_split_at_sep(p1, ',', p2 + seq![','] + p3);
    crate::text::lemma_split_at_sep(p0, ',', p1 + seq![','] + (p2 + seq![','] + p3));
    assert(split(p0 + seq![','] + (p1 + seq![','] + (p2 + seq![','] + p3)), ',') =~= seq![
        p0,
        p1,
        p2,
        p3,
    ]);
}

/// Every age reads back from its displayed form.
pub proof fn law_age_round_trip(a: Age)
    ensures
        age_from_str(a.display()) == Ok::<Age, ErrorClass>(a),
{
    let p0 = age_piece(a.months, "Months"@, false);
    let p1 = age_piece(a.weeks, "Weeks"@, true);
    let p2 = age_piece(a.days, "Days"@, true);
    let p3 = age_piece(a.hours, "Hours"@, true);
    lemma_age_display_pieces(a);
    assert(crate::text::lacks("Months"@, ',') && "Months"@.len() > 0 && !crate::text::is_whitespace("Months"@.last())) by {
        reveal_strlit("Months");
    }
    assert(crate::text::lacks("Weeks"@, ',') && "Weeks"@.len() > 0 && !crate::text::is_whitespace("Weeks"@.last())) by {
        reveal_strlit("Weeks");
    }
    assert(crate::text::lacks("Days"@, ',') && "Days"@.len() > 0 && !crate::text::is_whitespace("Days"@.last())) by {
        reveal_strlit("Days");
    }
    assert(crate::text::lacks("Hours"@, ',') && "Hours"@.len() > 0 && !crate::text::is_whitespace("Hours"@.last())) by {
        reveal_strlit("Hours");
    }
    lemma_age_piece_lacks_comma(a.months, "Months"@, false);
    lemma_age_piece_lacks_comma(a.weeks, "Weeks"@, true);
    lemma_age_piece_lacks_comma(a.days, "Days"@, true);
    lemma_age_piece_lacks_comma(a.hours, "Hours"@, true);
    lemma_split4(p0, p1, p2, p3);
    lemma_age_part_round_trip(a.months as nat, "Months"@);
    lemma_age_part_round_trip(a.weeks as nat, "Weeks"@);
    lemma_age_part_round_trip(a.days as nat, "Days"@);
    lemma_age_part_round_trip(a.hours as nat, "Hours"@);
    let parts = split(a.display(), ',');
    assert(parts.len() == 4);
    assert(age_part(parts[0], "Months"@) == Ok::<int, ErrorClass>(a.months as int));
    assert(age_part(parts[1], "Weeks"@) == Ok::<int, ErrorClass>(a.weeks as int));
    assert(age_part(parts[2], "Days"@) == Ok::<int, ErrorClass>(a.days as int));
    assert(age_part(parts[3], "Hours"@) == Ok::<int, ErrorClass>(a.hours as int));
}

/// Every pruning strategy reads back from its displayed form.
pub proof fn law_prune_round_trip(p: Prune)
    ensures
        prune_from_str(p.display()) == Ok::<Prune, ErrorClass>(p),
{
    match p {
        Prune::Disabled => {},
        Prune::SizeMb(mb) => lemma_prune_size_round_trip(mb),
        Prune::Clips(n) => lemma_prune_clips_round_trip(n),
        Prune::DurationS(secs) => lemma_prune_duration_round_trip(secs),
        Prune::Age(a) => lemma_prune_age_round_trip(a),
    }
}

proof fn lemma_prune_size_round_trip(mb: u64)
    ensures
        prune_from_str(Prune::SizeMb(mb).display()) == Ok::<Prune, ErrorClass>(Prune::SizeMb(mb)),
{
    let d = decimal(mb as nat);
    let s = Prune::SizeMb(mb).display();
    assert(s[0] == 'A') by {
        reveal_strlit("After ");
    }
    assert("Disabled"@[0] == 'D') by {
        reveal_strlit("Disabled");
    }
    crate::text::lemma_strip_prefix_concat("After "@, d + "MB in dir"@);
    assert(s =~= "After "@ + (d + "MB in dir"@));
    crate::text::lemma_strip_suffix_concat(d, "MB in dir"@);
    crate::num::lemma_parse_decimal(mb as nat, u64::MAX as int);
}

proof fn lemma_prune_clips_round_trip(n: usize)
    ensures
        prune_from_str(Prune::Clips(n).display()) == Ok::<Prune, ErrorClass>(Prune::Clips(n)),
{
    let d = decimal(n as nat);
    let s = Prune::Clips(n).display();
    assert(s[0] == 'A') by {
        reveal_strlit("After ");
    }
    assert("Disabled"@[0] == 'D') by {
        reveal_strlit("Disabled");
    }
    crate::text::lemma_strip_prefix_concat("After "@, d + " clips in dir"@);
    assert(s =~= "After "@ + (d + " clips in dir"@));
    let rest = d + " clips in dir"@;
    let tail = " clips in dir"@;
    assert(tail.len() == 13 && tail[4] == 'p' && "MB in dir"@[0] == 'M' && "MB in dir"@.len() == 9)
        by {
        reveal_strlit(" clips in dir");
        reveal_strlit("MB in dir");
    }
    assert(rest[rest.len() - 9] == tail[4]);
    assert(rest.subrange(rest.len() - 9, rest.len() as int)[0] == 'p');
    assert(strip_suffix(rest, "MB in dir"@) is None);
    crate::text::lemma_strip_suffix_concat(d, " clips in dir"@);
    crate::num::lemma_parse_decimal(n as nat, usize::MAX as int);
}

proof fn lemma_prune_duration_round_trip(secs: u64)
    ensures
        prune_from_str(Prune::DurationS(secs).display()) == Ok::<Prune, ErrorClass>(
            Prune::DurationS(secs),
        ),
{
    let d = decimal(secs as nat);
    let s = Prune::DurationS(secs).display();
    assert(s[0] == 'L') by {
        reveal_strlit("Longer than ");
    }
    assert("Disabled"@[0] == 'D' && "After "@[0] == 'A' && "After "@.len() == 6) by {
        reveal_strlit("Disabled");
        reveal_strlit("After ");
    }
    assert(s.len() >= 6) by {
        reveal_strlit("Longer than ");
    }
    assert(s.subrange(0, 6)[0] == 'L');
    assert(strip_prefix(s, "After "@) is None);
    crate::text::lemma_strip_prefix_concat("Longer than "@, d + "s"@);
    assert(s =~= "Longer than "@ + (d + "s"@));
    crate::text::lemma_strip_suffix_concat(d, "s"@);
    crate::num::lemma_parse_decimal(secs as nat, u64::MAX as int);
}

proof fn lemma_prune_age_round_trip(a: Age)
    ensures
        prune_from_str(Prune::Age(a).display()) == Ok::<Prune, ErrorClass>(Prune::Age(a)),
{
    let s = Prune::Age(a).display();
    assert(s[0] == 'O' && s.len() >= 12) by {
        reveal_strlit("Older than ");
    }
    assert("Disabled"@[0] == 'D' && "After "@[0] == 'A' && "After "@.len() == 6) by {
        reveal_strlit("Disabled");
        reveal_strlit("After ");
    }
    assert("Longer than "@[0] == 'L' && "Longer than "@.len() == 12) by {
        reveal_strlit("Longer than ");
    }
    assert(s.subrange(0, 6)[0] == 'O');
    assert(s.subrange(0, 12)[0] == 'O');
    assert(strip_prefix(s, "After "@) is None);
    assert(strip_prefix(s, "Longer than "@) is None);
    crate::text::lemma_strip_prefix_concat("Older than "@, a.display() + " from now"@);
    assert(s =~= "Older than "@ + (a.display() + " from now"@));
    crate::text::lemma_strip_suffix_concat(a.display(), " from now"@);
    law_age_round_trip(a);
}

} // verus!
