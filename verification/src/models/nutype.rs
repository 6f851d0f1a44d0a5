//! Validated values that the API accepts: trimmed strings within length limits and character
//! sets, and integers within bounds.
use vstd::prelude::*;
use crate::error::{validation, WayclipError};
use crate::pattern::{regex_is_match, regex_match, regex_rejects};
use crate::text::{
    char_is_ascii_alphanumeric, is_ascii_alphanumeric, is_ascii_digit, str_chars, string_from_chars, to_lowercase, trim,
    trim_chars, unicode_lowercase,
};

verus! {

/// A clip name may hold ASCII letters and digits, `_`, space and `-`.
pub open spec fn clip_name_char(c: char) -> bool {
    is_ascii_alphanumeric(c) || c == '_' || c == ' ' || c == '-'
}

/// What `ClipNameSanitised` accepts of its trimmed input: 3 to 100 characters, all of them
/// clip name characters.
pub open spec fn clip_name_ok(t: Seq<char>) -> bool {
    &&& 3 <= t.len() <= 100
    &&& forall|i: int| 0 <= i < t.len() ==> clip_name_char(#[trigger] t[i])
}

/// A clip name, trimmed and validated.
#[derive(Debug, Clone, PartialEq, Eq)]
pub struct ClipNameSanitised(String);

impl ClipNameSanitised {
    pub closed spec fn view(&self) -> Seq<char> {
        self.0@
    }

    /// Trims `s` and validates it (see `clip_name_ok`).
    pub fn try_new(s: &str) -> (r: Result<Self, WayclipError>)
        ensures
            clip_name_ok(trim(s@)) ==> (r matches Ok(v) && v.view() == trim(s@)),
            !clip_name_ok(trim(s@)) ==> r matches Err(WayclipError::Validation(_)),
    {
        let c = str_chars(s);
        let t = trim_chars(c.as_slice());
        if t.len() < 3 || t.len() > 100 {
            return Err(validation("Clip name must be 3 to 100 characters long"));
        }
        let mut i: usize = 0;
        while i < t.len()
            invariant
                i <= t@.len(),
                t@ == trim(s@),
                forall|j: int| 0 <= j < i ==> clip_name_char(#[trigger] t@[j]),
            decreases t@.len() - i,
        {
            let ch = t[i];
            if !(char_is_ascii_alphanumeric(ch) || ch == '_' || ch == ' ' || ch == '-') {
                assert(!clip_name_char(t@[i as int]));
                return Err(validation("Clip name may hold letters, digits, '_', '-' and spaces"));
            }
            i = i + 1;
        }
        Ok(ClipNameSanitised(string_from_chars(t.as_slice())))
    }

    /// The validated name.
    pub fn into_inner(self) -> (s: String)
        ensures
            s@ == self.view(),
    {
        self.0
    }
}

/// A clip comment, trimmed, of at most 200 characters.
#[derive(Debug, Clone, PartialEq, Eq)]
pub struct ClipCommentContentSanitised(String);

impl ClipCommentContentSanitised {
    pub closed spec fn view(&self) -> Seq<char> {
        self.0@
    }

    /// Trims `s` and accepts it when at most 200 characters remain.
    pub fn try_new(s: &str) -> (r: Result<Self, WayclipError>)
        ensures
            trim(s@).len() <= 200 ==> (r matches Ok(v) && v.view() == trim(s@)),
            trim(s@).len() > 200 ==> r matches Err(WayclipError::Validation(_)),
    {
        let c = str_chars(s);
        let t = trim_chars(c.as_slice());
        if t.len() > 200 {
            return Err(validation("Comment must be at most 200 characters long"));
        }
        Ok(ClipCommentContentSanitised(string_from_chars(t.as_slice())))
    }

    /// The validated comment.
    pub fn into_inner(self) -> (s: String)
        ensures
            s@ == self.view(),
    {
        self.0
    }
}

/// What `TagNameSanitised` accepts of its trimmed input: 1 to 19 characters that the pattern
/// `^[\p{L}\p{N}_-]+$` (letters, numbers, `_` and `-`) matches.
pub open spec fn tag_name_ok(t: Seq<char>) -> bool {
    &&& 1 <= t.len() <= 19
    &&& !regex_rejects("^[\\p{L}\\p{N}_-]+$"@)
    &&& regex_is_match("^[\\p{L}\\p{N}_-]+$"@, t)
}

/// A tag name, trimmed and validated.
#[derive(Debug, Clone, PartialEq, Eq)]
pub struct TagNameSanitised(String);

impl TagNameSanitised {
    /// The name that `try_new` makes of `s`, if it accepts it.
    pub open spec fn try_new_spec(s: Seq<char>) -> Option<Seq<char>> {
        if tag_name_ok(trim(s)) {
            Some(trim(s))
        } else {
            None
        }
    }

    pub closed spec fn view(&self) -> Seq<char> {
        self.0@
    }

    /// Trims `s` and validates it (see `tag_name_ok`).
    pub fn try_new(s: &str) -> (r: Result<Self, WayclipError>)
        ensures
            tag_name_ok(trim(s@)) ==> (r matches Ok(v) && v.view() == trim(s@)),
            !tag_name_ok(trim(s@)) ==> r matches Err(WayclipError::Validation(_)),
    {
        let c = str_chars(s);
        let t = trim_chars(c.as_slice());
        if t.len() < 1 || t.len() > 19 {
            return Err(validation("Tag name must be 1 to 19 characters long"));
        }
        let ts = string_from_chars(t.as_slice());
        match regex_match("^[\\p{L}\\p{N}_-]+$", ts.as_str()) {
            Ok(true) => Ok(TagNameSanitised(ts)),
            Ok(false) => Err(validation("Tag name may hold letters, numbers, '_' and '-'")),
            Err(m) => Err(WayclipError::Validation(m)),
        }
    }

    /// The validated name.
    pub fn into_inner(self) -> (s: String)
        ensures
            s@ == self.view(),
    {
        self.0
    }
}

/// A non-zero ASCII digit.
pub open spec fn nonzero_digit(c: char) -> bool {
    is_ascii_digit(c) && c != '0'
}

/// `[1-9][0-9]*`: a positive decimal number without leading zeros.
pub open spec fn positive_decimal(s: Seq<char>) -> bool {
    &&& s.len() >= 1
    &&& nonzero_digit(s[0])
    &&& forall|i: int| 0 <= i < s.len() ==> is_ascii_digit(#[trigger] s[i])
}

/// `^[1-9][0-9]*x[1-9][0-9]*$`: two positive decimal numbers joined by `x`.
pub open spec fn resolution_text_ok(t: Seq<char>) -> bool {
    exists|k: int|
        0 <= k < t.len() && #[trigger] t[k] == 'x' && positive_decimal(t.subrange(0, k))
            && positive_decimal(t.subrange(k + 1, t.len() as int))
}

/// A resolution text such as `1920x1080`, trimmed, lowercased and validated.
#[derive(Debug, Clone, PartialEq, Eq)]
pub struct ResolutionSanitised(String);

fn positive_decimal_exec(s: &[char], from: usize, to: usize) -> (b: bool)
    requires
        from <= to <= s@.len(),
    ensures
        b == positive_decimal(s@.subrange(from as int, to as int)),
{
    let ghost d = s@.subrange(from as int, to as int);
    if from == to {
        return false;
    }
    if !(s[from] >= '1' && s[from] <= '9') {
        assert(d[0] == s@[from as int]);
        return false;
    }
    let mut i = from;
    while i < to
        invariant
            from <= i <= to,
            to <= s@.len(),
            d == s@.subrange(from as int, to as int),
            forall|j: int| 0 <= j < i - from ==> is_ascii_digit(#[trigger] d[j]),
        decreases to - i,
    {
        if !(s[i] >= '0' && s[i] <= '9') {
            assert(d[i - from] == s@[i as int]);
            return false;
        }
        i = i + 1;
    }
    true
}

impl ResolutionSanitised {
    pub closed spec fn view(&self) -> Seq<char> {
        self.0@
    }

    /// Trims and lowercases `s`, then validates it (see `resolution_text_ok`).
    pub fn try_new(s: &str) -> (r: Result<Self, WayclipError>)
        ensures
            resolution_text_ok(unicode_lowercase(trim(s@))) ==> (r matches Ok(v) && v.view()
                == unicode_lowercase(trim(s@))),
            !resolution_text_ok(unicode_lowercase(trim(s@))) ==> r matches Err(
                WayclipError::Validation(_),
            ),
    {
        let c = str_chars(s);
        let t = trim_chars(c.as_slice());
        let ts = string_from_chars(t.as_slice());
        let lower = to_lowercase(ts.as_str());
        let l = str_chars(lower.as_str());
        let mut k: usize = 0;
        while k < l.len()
            invariant
                k <= l@.len(),
                l@ == lower@,
                lower@ == unicode_lowercase(trim(s@)),
                forall|j: int|
                    0 <= j < k ==> !(#[trigger] l@[j] == 'x' && positive_decimal(l@.subrange(0, j))
                        && positive_decimal(l@.subrange(j + 1, l@.len() as int))),
            decreases l@.len() - k,
        {
            if l[k] == 'x' && positive_decimal_exec(l.as_slice(), 0, k) && positive_decimal_exec(
                l.as_slice(),
                k + 1,
                l.len(),
            ) {
                return Ok(ResolutionSanitised(lower));
            }
            k = k + 1;
        }
        Err(validation("Resolution must look like 1920x1080"))
    }

    /// The validated resolution text.
    pub fn into_inner(self) -> (s: String)
        ensures
            s@ == self.view(),
    {
        self.0
    }
}

/// A clip duration in seconds, at least 1.
#[derive(Debug, Clone, Copy, PartialEq, Eq, Structural)]
pub struct ClipDurationSanitised(i32);

impl ClipDurationSanitised {
    pub closed spec fn value(&self) -> i32 {
        self.0
    }

    /// Accepts `v` when it is at least 1.
    pub fn try_new(v: i32) -> (r: Result<Self, WayclipError>)
        ensures
            v >= 1 ==> (r matches Ok(d) && d.value() == v),
            v < 1 ==> r matches Err(WayclipError::Validation(_)),
    {
        if v < 1 {
            return Err(validation("Clip duration must be at least 1"));
        }
        Ok(ClipDurationSanitised(v))
    }

    pub fn into_inner(self) -> (v: i32)
        ensures
            v == self.value(),
    {
        self.0
    }
}

/// A bitrate in kbps, at least 1.
#[derive(Debug, Clone, Copy, PartialEq, Eq, Structural)]
pub struct BitrateKbpsSanitised(i32);

impl BitrateKbpsSanitised {
    pub closed spec fn value(&self) -> i32 {
        self.0
    }

    /// Accepts `v` when it is at least 1.
    pub fn try_new(v: i32) -> (r: Result<Self, WayclipError>)
        ensures
            v >= 1 ==> (r matches Ok(d) && d.value() == v),
            v < 1 ==> r matches Err(WayclipError::Validation(_)),
    {
        if v < 1 {
            return Err(validation("Bitrate must be at least 1"));
        }
        Ok(BitrateKbpsSanitised(v))
    }

    pub fn into_inner(self) -> (v: i32)
        ensures
            v == self.value(),
    {
        self.0
    }
}

/// Frames per second, 1 to 1000.
#[derive(Debug, Clone, Copy, PartialEq, Eq, Structural)]
pub struct FpsSanitised(i32);

impl FpsSanitised {
    pub closed spec fn value(&self) -> i32 {
        self.0
    }

    /// Accepts `v` when it is within 1 to 1000.
    pub fn try_new(v: i32) -> (r: Result<Self, WayclipError>)
        ensures
            1 <= v <= 1000 ==> (r matches Ok(d) && d.value() == v),
            !(1 <= v <= 1000) ==> r matches Err(WayclipError::Validation(_)),
    {
        if v < 1 || v > 1000 {
            return Err(validation("Fps must be within 1 to 1000"));
        }
        Ok(FpsSanitised(v))
    }

    pub fn into_inner(self) -> (v: i32)
        ensures
            v == self.value(),
    {
        self.0
    }
}

} // verus!
