//! Tags that label clips, with a name and a color.
use vstd::prelude::*;
use crate::error::WayclipError;
use crate::models::nutype::TagNameSanitised;
use crate::text::{all_ascii, ascii_lowercase, chars_are, str_chars, to_lowercase, unicode_lowercase};

verus! {

/// The color of a tag.
#[derive(Debug, Clone, Copy, PartialEq, Eq, Hash, Structural)]
pub enum ClipsClipTagColor {
    Reset,
    Red,
    Green,
    Yellow,
    Blue,
    Magenta,
    Cyan,
    Grey,
}

/// The color that a lowercased name stands for.
pub open spec fn tag_color_from_lower(l: Seq<char>) -> Option<ClipsClipTagColor> {
    if l == "reset"@ {
        Some(ClipsClipTagColor::Reset)
    } else if l == "red"@ {
        Some(ClipsClipTagColor::Red)
    } else if l == "green"@ {
        Some(ClipsClipTagColor::Green)
    } else if l == "yellow"@ {
        Some(ClipsClipTagColor::Yellow)
    } else if l == "blue"@ {
        Some(ClipsClipTagColor::Blue)
    } else if l == "magenta"@ {
        Some(ClipsClipTagColor::Magenta)
    } else if l == "cyan"@ {
        Some(ClipsClipTagColor::Cyan)
    } else if l == "grey"@ {
        Some(ClipsClipTagColor::Grey)
    } else {
        None
    }
}

/// A terminal foreground color.
#[derive(Debug, Clone, Copy, PartialEq, Eq, Structural)]
pub enum TerminalColor {
    Red,
    Green,
    Yellow,
    Blue,
    Magenta,
    Cyan,
}

/// A text with the foreground color it is printed in (none: the terminal's own).
#[derive(Debug, Clone, PartialEq, Eq)]
pub struct ColoredLabel {
    pub input: String,
    pub fgcolor: Option<TerminalColor>,
}

impl ClipsClipTagColor {
    /// Reads a color name, compared after Unicode lowercasing.
    pub fn from_str(s: &str) -> (r: Result<Self, String>)
        ensures
            match tag_color_from_lower(unicode_lowercase(s@)) {
                Some(c) => r == Ok::<ClipsClipTagColor, String>(c),
                None => r matches Err(m) && m@ == "Invalid color"@,
            },
            all_ascii(s@) ==> match tag_color_from_lower(ascii_lowercase(s@)) {
                Some(c) => r == Ok::<ClipsClipTagColor, String>(c),
                None => r matches Err(m) && m@ == "Invalid color"@,
            },
    {
        let lower = to_lowercase(s);
        let l = str_chars(lower.as_str());
        let l = l.as_slice();
        if chars_are(l, "reset") {
            Ok(ClipsClipTagColor::Reset)
        } else if chars_are(l, "red") {
            Ok(ClipsClipTagColor::Red)
        } else if chars_are(l, "green") {
            Ok(ClipsClipTagColor::Green)
        } else if chars_are(l, "yellow") {
            Ok(ClipsClipTagColor::Yellow)
        } else if chars_are(l, "blue") {
            Ok(ClipsClipTagColor::Blue)
        } else if chars_are(l, "magenta") {
            Ok(ClipsClipTagColor::Magenta)
        } else if chars_are(l, "cyan") {
            Ok(ClipsClipTagColor::Cyan)
        } else if chars_are(l, "grey") {
            Ok(ClipsClipTagColor::Grey)
        } else {
            Err("Invalid color".to_owned())
        }
    }

    /// The label shown for the color: its name in that color; `Grey` and `Reset` (shown as
    /// `Normal`) keep the terminal's color.
    pub open spec fn label(self) -> (Seq<char>, Option<TerminalColor>) {
        match self {
            ClipsClipTagColor::Red => ("Red"@, Some(TerminalColor::Red)),
            ClipsClipTagColor::Green => ("Green"@, Some(TerminalColor::Green)),
            ClipsClipTagColor::Yellow => ("Yellow"@, Some(TerminalColor::Yellow)),
            ClipsClipTagColor::Blue => ("Blue"@, Some(TerminalColor::Blue)),
            ClipsClipTagColor::Magenta => ("Magenta"@, Some(TerminalColor::Magenta)),
            ClipsClipTagColor::Cyan => ("Cyan"@, Some(TerminalColor::Cyan)),
            ClipsClipTagColor::Grey => ("Grey"@, None),
            ClipsClipTagColor::Reset => ("Normal"@, None),
        }
    }

    /// The colored label of the color.
    pub fn get_colored_string(&self) -> (l: ColoredLabel)
        ensures
            l.input@ == self.label().0,
            l.fgcolor == self.label().1,
    {
        let (input, fgcolor) = match self {
            ClipsClipTagColor::Red => ("Red", Some(TerminalColor::Red)),
            ClipsClipTagColor::Green => ("Green", Some(TerminalColor::Green)),
            ClipsClipTagColor::Yellow => ("Yellow", Some(TerminalColor::Yellow)),
            ClipsClipTagColor::Blue => ("Blue", Some(TerminalColor::Blue)),
            ClipsClipTagColor::Magenta => ("Magenta", Some(TerminalColor::Magenta)),
            ClipsClipTagColor::Cyan => ("Cyan", Some(TerminalColor::Cyan)),
            ClipsClipTagColor::Grey => ("Grey", None),
            ClipsClipTagColor::Reset => ("Normal", None),
        };
        ColoredLabel { input: input.to_owned(), fgcolor }
    }
}

/// A tag of a clip, as the API sends it.
#[derive(Debug, Clone, PartialEq, Eq)]
pub struct ClipsClipTagResponse {
    /// Name of tag
    pub name: String,
    /// Color of tag
    pub color: ClipsClipTagColor,
}

/// The tag type used by the apps.
pub type ClipsTag = ClipsClipTagResponse;

/// A tag to create on a clip: a validated name and a color.
#[derive(Debug, Clone, PartialEq, Eq)]
pub struct ClipsClipTagRequest {
    /// The sanitised name of tag
    pub name: TagNameSanitised,
    /// The color of a tag
    pub color: ClipsClipTagColor,
}

impl ClipsClipTagResponse {
    /// The empty tag with the terminal's color.
    pub fn default() -> (t: Self)
        ensures
            t.name@ == Seq::<char>::empty(),
            t.color == ClipsClipTagColor::Reset,
    {
        ClipsClipTagResponse { name: String::new(), color: ClipsClipTagColor::Reset }
    }

    /// The colored label of the tag's color.
    pub fn get_colored_string(&self) -> (l: ColoredLabel)
        ensures
            l.input@ == self.color.label().0,
            l.fgcolor == self.color.label().1,
    {
        self.color.get_colored_string()
    }

    /// The tag that a creation request makes.
    pub fn from_request(value: ClipsClipTagRequest) -> (t: Self)
        ensures
            t.name@ == value.name.view(),
            t.color == value.color,
    {
        ClipsClipTagResponse { name: value.name.into_inner(), color: value.color }
    }
}

impl ClipsClipTagRequest {
    /// The creation request for a tag, with its name validated.
    pub fn try_from_response(value: ClipsClipTagResponse) -> (r: Result<Self, WayclipError>)
        ensures
            match TagNameSanitised::try_new_spec(value.name@) {
                Some(n) => r matches Ok(t) && t.name.view() == n && t.color == value.color,
                None => r matches Err(WayclipError::Validation(_)),
            },
    {
        match TagNameSanitised::try_new(value.name.as_str()) {
            Ok(name) => Ok(ClipsClipTagRequest { name, color: value.color }),
            Err(e) => Err(e),
        }
    }
}

} // verus!
