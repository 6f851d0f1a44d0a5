//! Keyboard keys and key combinations that trigger an action.
use vstd::prelude::*;
use crate::error::{outcome, validation, ErrorClass, WayclipError};
use crate::num::{decimal, lemma_parse_bounds, parse_u8, parse_uint, u64_to_string};
use crate::settings::recording::int_outcome;
use crate::text::{
    all_ascii, ascii_lowercase, chars_eq, chars_slice, is_ascii_char, is_ascii_upper, is_whitespace,
    lacks, push_str, split,
    split_chars, str_chars, string_from_chars, to_lowercase, trim, trim_chars, unicode_lowercase,
    views,
};

verus! {

/// A keyboard key.
#[derive(Debug, Clone, Copy, PartialEq, Eq, Hash, Structural)]
pub enum WayclipKeyCode {
    Char(char),
    F(u8),
    Enter,
    Esc,
    Backspace,
    Tab,
    Up,
    Down,
    Left,
    Right,
    Insert,
    Delete,
    Home,
    End,
    PageUp,
    PageDown,
    CapsLock,
    ScrollLock,
    NumLock,
    PrintScreen,
    Pause,
    Null,
}

/// The named key that a lowercased name stands for.
pub open spec fn named_key_from_lower(l: Seq<char>) -> Option<WayclipKeyCode> {
    if l == "enter"@ {
        Some(WayclipKeyCode::Enter)
    } else if l == "esc"@ || l == "escape"@ {
        Some(WayclipKeyCode::Esc)
    } else if l == "backspace"@ {
        Some(WayclipKeyCode::Backspace)
    } else if l == "tab"@ {
        Some(WayclipKeyCode::Tab)
    } else if l == "up"@ {
        Some(WayclipKeyCode::Up)
    } else if l == "down"@ {
        Some(WayclipKeyCode::Down)
    } else if l == "left"@ {
        Some(WayclipKeyCode::Left)
    } else if l == "right"@ {
        Some(WayclipKeyCode::Right)
    } else if l == "insert"@ {
        Some(WayclipKeyCode::Insert)
    } else if l == "delete"@ {
        Some(WayclipKeyCode::Delete)
    } else if l == "home"@ {
        Some(WayclipKeyCode::Home)
    } else if l == "end"@ {
        Some(WayclipKeyCode::End)
    } else if l == "page_up"@ || l == "pgup"@ {
        Some(WayclipKeyCode::PageUp)
    } else if l == "page_down"@ || l == "pgdown"@ {
        Some(WayclipKeyCode::PageDown)
    } else if l == "caps_lock"@ || l == "caps"@ {
        Some(WayclipKeyCode::CapsLock)
    } else if l == "scroll_lock"@ || l == "scroll"@ {
        Some(WayclipKeyCode::ScrollLock)
    } else if l == "num_lock"@ || l == "num"@ {
        Some(WayclipKeyCode::NumLock)
    } else if l == "print_screen"@ || l == "print"@ {
        Some(WayclipKeyCode::PrintScreen)
    } else if l == "pause"@ {
        Some(WayclipKeyCode::Pause)
    } else {
        None
    }
}

/// What `WayclipKeyCode::from_str` gives when names are lowercased with `lower`: a string of one
/// ASCII character is that character, a string starting with `f` is a function key numbered by
/// the rest, and otherwise the lowercased string names a key.
pub open spec fn key_code_parse(
    s: Seq<char>,
    lower: spec_fn(Seq<char>) -> Seq<char>,
) -> Result<WayclipKeyCode, ErrorClass> {
    if s.len() == 1 && is_ascii_char(s[0]) {
        Ok(WayclipKeyCode::Char(s[0]))
    } else if s.len() > 0 && s[0] == 'f' {
        match int_outcome(parse_uint(s.drop_first(), u8::MAX as int)) {
            Ok(n) => Ok(WayclipKeyCode::F(n as u8)),
            Err(e) => Err(e),
        }
    } else {
        match named_key_from_lower(lower(s)) {
            Some(k) => Ok(k),
            None => Err(ErrorClass::Validation),
        }
    }
}

fn is_name(l: &[char], name: &str) -> (r: bool)
    ensures
        r == (l@ == name@),
{
    let n = str_chars(name);
    chars_eq(l, n.as_slice())
}

fn named_key_exec(l: &[char]) -> (r: Option<WayclipKeyCode>)
    ensures
        r == named_key_from_lower(l@),
{
    if is_name(l, "enter") {
        Some(WayclipKeyCode::Enter)
    } else if is_name(l, "esc") || is_name(l, "escape") {
        Some(WayclipKeyCode::Esc)
    } else if is_name(l, "backspace") {
        Some(WayclipKeyCode::Backspace)
    } else if is_name(l, "tab") {
        Some(WayclipKeyCode::Tab)
    } else if is_name(l, "up") {
        Some(WayclipKeyCode::Up)
    } else if is_name(l, "down") {
        Some(WayclipKeyCode::Down)
    } else if is_name(l, "left") {
        Some(WayclipKeyCode::Left)
    } else if is_name(l, "right") {
        Some(WayclipKeyCode::Right)
    } else if is_name(l, "insert") {
        Some(WayclipKeyCode::Insert)
    } else if is_name(l, "delete") {
        Some(WayclipKeyCode::Delete)
    } else if is_name(l, "home") {
        Some(WayclipKeyCode::Home)
    } else if is_name(l, "end") {
        Some(WayclipKeyCode::End)
    } else if is_name(l, "page_up") || is_name(l, "pgup") {
        Some(WayclipKeyCode::PageUp)
    } else if is_name(l, "page_down") || is_name(l, "pgdown") {
        Some(WayclipKeyCode::PageDown)
    } else if is_name(l, "caps_lock") || is_name(l, "caps") {
        Some(WayclipKeyCode::CapsLock)
    } else if is_name(l, "scroll_lock") || is_name(l, "scroll") {
        Some(WayclipKeyCode::ScrollLock)
    } else if is_name(l, "num_lock") || is_name(l, "num") {
        Some(WayclipKeyCode::NumLock)
    } else if is_name(l, "print_screen") || is_name(l, "print") {
        Some(WayclipKeyCode::PrintScreen)
    } else if is_name(l, "pause") {
        Some(WayclipKeyCode::Pause)
    } else {
        None
    }
}

impl WayclipKeyCode {
    pub fn from_str(s: &str) -> (r: Result<Self, WayclipError>)
        ensures
            outcome(r) == key_code_parse(s@, |x: Seq<char>| unicode_lowercase(x)),
            all_ascii(s@) ==> outcome(r) == key_code_parse(s@, |x: Seq<char>| ascii_lowercase(x)),
    {
        let chars = str_chars(s);
        if chars.len() == 1 && (chars[0] as u32) < 128 {
            return Ok(WayclipKeyCode::Char(chars[0]));
        }
        if chars.len() > 0 && chars[0] == 'f' {
            let num = chars_slice(chars.as_slice(), 1, chars.len());
            assert(num@ =~= chars@.drop_first());
            proof {
                lemma_parse_bounds(num@, u8::MAX as int);
            }
            return match parse_u8(num.as_slice()) {
                Ok(n) => Ok(WayclipKeyCode::F(n)),
                Err(k) => Err(WayclipError::ParseInt(k)),
            };
        }
        let lower = to_lowercase(s);
        let l = str_chars(lower.as_str());
        match named_key_exec(l.as_slice()) {
            Some(k) => Ok(k),
            None => Err(validation("Invalid character key")),
        }
    }

    /// The name of a named key, as the key's displayed form.
    pub open spec fn display(self) -> Seq<char> {
        match self {
            WayclipKeyCode::Char(c) => seq![c],
            WayclipKeyCode::F(n) => "F"@ + decimal(n as nat),
            WayclipKeyCode::Enter => "Return"@,
            WayclipKeyCode::Esc => "Escape"@,
            WayclipKeyCode::Backspace => "BackSpace"@,
            WayclipKeyCode::Tab => "Tab"@,
            WayclipKeyCode::Up => "Up"@,
            WayclipKeyCode::Down => "Down"@,
            WayclipKeyCode::Left => "Left"@,
            WayclipKeyCode::Right => "Right"@,
            WayclipKeyCode::Insert => "Insert"@,
            WayclipKeyCode::Delete => "Delete"@,
            WayclipKeyCode::Home => "Home"@,
            WayclipKeyCode::End => "End"@,
            WayclipKeyCode::PageUp => "Page_Up"@,
            WayclipKeyCode::PageDown => "Page_Down"@,
            WayclipKeyCode::CapsLock => "Caps_Lock"@,
            WayclipKeyCode::ScrollLock => "Scroll_Lock"@,
            WayclipKeyCode::NumLock => "Num_Lock"@,
            WayclipKeyCode::PrintScreen => "Print_Screen"@,
            WayclipKeyCode::Pause => "Pause"@,
            WayclipKeyCode::Null => ""@,
        }
    }

    /// The displayed form, e.g. `c`, `F5`, `Return`, `Page_Up`.
    pub fn to_string(&self) -> (s: String)
        ensures
            s@ == self.display(),
    {
        match self {
            WayclipKeyCode::Char(c) => {
                let mut s = String::new();
                s.push(*c);
                s
            },
            WayclipKeyCode::F(n) => {
                let mut s = "F".to_owned();
                let d = u64_to_string(*n as u64);
                push_str(&mut s, d.as_str());
                s
            },
            WayclipKeyCode::Enter => "Return".to_owned(),
            WayclipKeyCode::Esc => "Escape".to_owned(),
            WayclipKeyCode::Backspace => "BackSpace".to_owned(),
            WayclipKeyCode::Tab => "Tab".to_owned(),
            WayclipKeyCode::Up => "Up".to_owned(),
            WayclipKeyCode::Down => "Down".to_owned(),
            WayclipKeyCode::Left => "Left".to_owned(),
            WayclipKeyCode::Right => "Right".to_owned(),
            WayclipKeyCode::Insert => "Insert".to_owned(),
            WayclipKeyCode::Delete => "Delete".to_owned(),
            WayclipKeyCode::Home => "Home".to_owned(),
            WayclipKeyCode::End => "End".to_owned(),
            WayclipKeyCode::PageUp => "Page_Up".to_owned(),
            WayclipKeyCode::PageDown => "Page_Down".to_owned(),
            WayclipKeyCode::CapsLock => "Caps_Lock".to_owned(),
            WayclipKeyCode::ScrollLock => "Scroll_Lock".to_owned(),
            WayclipKeyCode::NumLock => "Num_Lock".to_owned(),
            WayclipKeyCode::PrintScreen => "Print_Screen".to_owned(),
            WayclipKeyCode::Pause => "Pause".to_owned(),
            WayclipKeyCode::Null => "".to_owned(),
        }
    }
}

/// A set of modifier keys.
#[derive(Debug, Clone, Copy, PartialEq, Eq, Hash, Structural)]
pub struct WayclipKeyModifiers {
    pub shift: bool,
    pub ctrl: bool,
    pub alt: bool,
    pub meta: bool,
}

impl WayclipKeyModifiers {
    pub open spec fn is_empty_spec(self) -> bool {
        !self.shift && !self.ctrl && !self.alt && !self.meta
    }

    pub open spec fn union_spec(self, other: Self) -> Self {
        WayclipKeyModifiers {
            shift: self.shift || other.shift,
            ctrl: self.ctrl || other.ctrl,
            alt: self.alt || other.alt,
            meta: self.meta || other.meta,
        }
    }

    /// The empty set.
    pub fn empty() -> (m: Self)
        ensures
            m.is_empty_spec(),
    {
        WayclipKeyModifiers { shift: false, ctrl: false, alt: false, meta: false }
    }

    /// Shift alone.
    pub fn shift() -> (m: Self)
        ensures
            m == (WayclipKeyModifiers { shift: true, ctrl: false, alt: false, meta: false }),
    {
        WayclipKeyModifiers { shift: true, ctrl: false, alt: false, meta: false }
    }

    /// Control alone.
    pub fn ctrl() -> (m: Self)
        ensures
            m == (WayclipKeyModifiers { shift: false, ctrl: true, alt: false, meta: false }),
    {
        WayclipKeyModifiers { shift: false, ctrl: true, alt: false, meta: false }
    }

    /// Alt alone.
    pub fn alt() -> (m: Self)
        ensures
            m == (WayclipKeyModifiers { shift: false, ctrl: false, alt: true, meta: false }),
    {
        WayclipKeyModifiers { shift: false, ctrl: false, alt: true, meta: false }
    }

    /// The logo (super, windows, command) key alone.
    pub fn meta() -> (m: Self)
        ensures
            m == (WayclipKeyModifiers { shift: false, ctrl: false, alt: false, meta: true }),
    {
        WayclipKeyModifiers { shift: false, ctrl: false, alt: false, meta: true }
    }

    pub fn is_empty(&self) -> (b: bool)
        ensures
            b == self.is_empty_spec(),
    {
        !self.shift && !self.ctrl && !self.alt && !self.meta
    }

    /// Whether every modifier of `other` is in `self`.
    pub fn contains(&self, other: &Self) -> (b: bool)
        ensures
            b == ((other.shift ==> self.shift) && (other.ctrl ==> self.ctrl) && (other.alt
                ==> self.alt) && (other.meta ==> self.meta)),
    {
        (!other.shift || self.shift) && (!other.ctrl || self.ctrl) && (!other.alt || self.alt)
            && (!other.meta || self.meta)
    }

    /// The modifiers of both sets.
    pub fn union(&self, other: &Self) -> (m: Self)
        ensures
            m == self.union_spec(*other),
    {
        WayclipKeyModifiers {
            shift: self.shift || other.shift,
            ctrl: self.ctrl || other.ctrl,
            alt: self.alt || other.alt,
            meta: self.meta || other.meta,
        }
    }

    /// Adds the modifiers of `other`.
    pub fn insert(&mut self, other: &Self)
        ensures
            *final(self) == old(self).union_spec(*other),
    {
        *self = self.union(other);
    }

    /// The flag bits: shift `0b0001`, ctrl `0b0010`, alt `0b0100`, logo `0b1000`.
    pub open spec fn bits_spec(self) -> int {
        (if self.shift { 1int } else { 0 }) + (if self.ctrl { 2int } else { 0 }) + (if self.alt {
            4int
        } else {
            0
        }) + (if self.meta { 8int } else { 0 })
    }

    /// The set with the known flags of `bits`.
    pub open spec fn from_bits_spec(bits: int) -> Self {
        WayclipKeyModifiers {
            shift: bits % 2 == 1,
            ctrl: (bits / 2) % 2 == 1,
            alt: (bits / 4) % 2 == 1,
            meta: (bits / 8) % 2 == 1,
        }
    }

    pub fn bits(&self) -> (b: u8)
        ensures
            b == self.bits_spec(),
    {
        let mut b: u8 = 0;
        if self.shift {
            b = b + 1;
        }
        if self.ctrl {
            b = b + 2;
        }
        if self.alt {
            b = b + 4;
        }
        if self.meta {
            b = b + 8;
        }
        b
    }

    /// The set with the known flags of `bits` (unknown bits are dropped).
    pub fn from_bits_truncate(bits: u8) -> (m: Self)
        ensures
            m == Self::from_bits_spec(bits as int),
    {
        WayclipKeyModifiers {
            shift: bits % 2 == 1,
            ctrl: (bits / 2) % 2 == 1,
            alt: (bits / 4) % 2 == 1,
            meta: (bits / 8) % 2 == 1,
        }
    }

    /// The names of the modifiers present, in the order SHIFT, CTRL, ALT, LOGO.
    pub open spec fn names(self) -> Seq<Seq<char>> {
        (if self.shift { seq!["SHIFT"@] } else { Seq::empty() }) + (if self.ctrl {
            seq!["CTRL"@]
        } else {
            Seq::empty()
        }) + (if self.alt { seq!["ALT"@] } else { Seq::empty() }) + (if self.meta {
            seq!["LOGO"@]
        } else {
            Seq::empty()
        })
    }

    /// `null` for the empty set, otherwise the names joined by `+`.
    pub open spec fn display(self) -> Seq<char> {
        if self.is_empty_spec() {
            "null"@
        } else {
            join_plus(self.names())
        }
    }

    /// The displayed form, e.g. `CTRL+ALT`.
    pub fn to_string(&self) -> (s: String)
        ensures
            s@ == self.display(),
    {
        if self.is_empty() {
            return "null".to_owned();
        }
        let mut parts: Vec<&str> = Vec::new();
        if self.shift {
            parts.push("SHIFT");
        }
        if self.ctrl {
            parts.push("CTRL");
        }
        if self.alt {
            parts.push("ALT");
        }
        if self.meta {
            parts.push("LOGO");
        }
        let ghost names = parts@.map_values(|p: &str| p@);
        assert(names =~= self.names());
        join_strs_plus(&parts)
    }
}

/// Pieces joined by `+`.
pub open spec fn join_plus(ps: Seq<Seq<char>>) -> Seq<char>
    decreases ps.len(),
{
    if ps.len() == 0 {
        Seq::empty()
    } else if ps.len() == 1 {
        ps[0]
    } else {
        join_plus(ps.drop_last()) + seq!['+'] + ps.last()
    }
}

fn join_strs_plus(parts: &Vec<&str>) -> (s: String)
    ensures
        s@ == join_plus(parts@.map_values(|p: &str| p@)),
{
    let ghost names = parts@.map_values(|p: &str| p@);
    let mut s = String::new();
    let mut i: usize = 0;
    assert(names.subrange(0, 0) =~= Seq::<Seq<char>>::empty());
    while i < parts.len()
        invariant
            names == parts@.map_values(|p: &str| p@),
            i <= parts@.len(),
            s@ == join_plus(names.subrange(0, i as int)),
        decreases parts@.len() - i,
    {
        let ghost pre = names.subrange(0, i as int);
        let ghost next = names.subrange(0, i + 1);
        assert(next.drop_last() =~= pre);
        if i > 0 {
            s.push('+');
        }
        push_str(&mut s, parts[i]);
        i = i + 1;
        proof {
            if i == 1 {
                assert(pre =~= Seq::<Seq<char>>::empty());
            }
        }
    }
    assert(names.subrange(0, parts@.len() as int) =~= names);
    s
}

/// The modifier that a lowercased name stands for.
pub open spec fn modifier_from_lower(l: Seq<char>) -> Option<WayclipKeyModifiers> {
    if l == "shift"@ {
        Some(WayclipKeyModifiers { shift: true, ctrl: false, alt: false, meta: false })
    } else if l == "ctrl"@ || l == "control"@ {
        Some(WayclipKeyModifiers { shift: false, ctrl: true, alt: false, meta: false })
    } else if l == "alt"@ {
        Some(WayclipKeyModifiers { shift: false, ctrl: false, alt: true, meta: false })
    } else if l == "meta"@ || l == "super"@ || l == "cmd"@ || l == "win"@ || l == "logo"@ {
        Some(WayclipKeyModifiers { shift: false, ctrl: false, alt: false, meta: true })
    } else {
        None
    }
}

/// Reads the (trimmed) modifier pieces from left to right, failing at the first unknown one.
pub open spec fn parse_modifiers(
    ps: Seq<Seq<char>>,
    lower: spec_fn(Seq<char>) -> Seq<char>,
) -> Result<WayclipKeyModifiers, ErrorClass>
    decreases ps.len(),
{
    if ps.len() == 0 {
        Ok(WayclipKeyModifiers { shift: false, ctrl: false, alt: false, meta: false })
    } else {
        match parse_modifiers(ps.drop_last(), lower) {
            Err(e) => Err(e),
            Ok(m) => match modifier_from_lower(lower(ps.last())) {
                None => Err(ErrorClass::Validation),
                Some(f) => Ok(m.union_spec(f)),
            },
        }
    }
}

/// A key combination: modifiers and a key.
#[derive(Debug, Clone, Copy, PartialEq, Eq, Structural)]
pub struct WayclipKeyCombo {
    /// There has to be a key code, like 'C'
    pub key_code: WayclipKeyCode,
    /// And a set of modifiers such as 'ALT' + 'WIN'
    pub key_modifiers: WayclipKeyModifiers,
}

/// What `WayclipKeyCombo::from_str` gives when names are lowercased with `lower`: at least two
/// `+`-separated (trimmed) pieces, the last the key, read first, and the others modifiers.
pub open spec fn key_combo_parse(
    s: Seq<char>,
    lower: spec_fn(Seq<char>) -> Seq<char>,
) -> Result<WayclipKeyCombo, ErrorClass> {
    let ps = split(s, '+').map_values(|p: Seq<char>| trim(p));
    if ps.len() < 2 {
        Err(ErrorClass::Validation)
    } else {
        match key_code_parse(lower(ps.last()), lower) {
            Err(e) => Err(e),
            Ok(k) => match parse_modifiers(ps.drop_last(), lower) {
                Err(e) => Err(e),
                Ok(m) => Ok(WayclipKeyCombo { key_code: k, key_modifiers: m }),
            },
        }
    }
}

fn modifier_exec(l: &[char]) -> (r: Option<WayclipKeyModifiers>)
    ensures
        r == modifier_from_lower(l@),
{
    if is_name(l, "shift") {
        Some(WayclipKeyModifiers::shift())
    } else if is_name(l, "ctrl") || is_name(l, "control") {
        Some(WayclipKeyModifiers::ctrl())
    } else if is_name(l, "alt") {
        Some(WayclipKeyModifiers::alt())
    } else if is_name(l, "meta") || is_name(l, "super") || is_name(l, "cmd") || is_name(l, "win")
        || is_name(l, "logo") {
        Some(WayclipKeyModifiers::meta())
    } else {
        None
    }
}

proof fn lemma_parse_modifiers_error(
    ps: Seq<Seq<char>>,
    k: int,
    lower: spec_fn(Seq<char>) -> Seq<char>,
)
    requires
        0 <= k <= ps.len(),
        parse_modifiers(ps.subrange(0, k), lower) is Err,
    ensures
        parse_modifiers(ps, lower) == parse_modifiers(ps.subrange(0, k), lower),
    decreases ps.len() - k,
{
    if k < ps.len() {
        assert(ps.drop_last().subrange(0, k) =~= ps.subrange(0, k));
        lemma_parse_modifiers_error(ps.drop_last(), k, lower);
    } else {
        assert(ps.subrange(0, k) =~= ps);
    }
}

impl WayclipKeyCombo {
    /// A new combination.
    pub fn new(key_code: WayclipKeyCode, key_modifiers: WayclipKeyModifiers) -> (c: Self)
        ensures
            c.key_code == key_code,
            c.key_modifiers == key_modifiers,
    {
        WayclipKeyCombo { key_code, key_modifiers }
    }

    /// The key alone when there are no modifiers, otherwise `<modifiers>+<key>`.
    pub open spec fn display(self) -> Seq<char> {
        if self.key_modifiers.is_empty_spec() {
            self.key_code.display()
        } else {
            self.key_modifiers.display() + "+"@ + self.key_code.display()
        }
    }

    /// The displayed form, e.g. `ALT+c`.
    pub fn to_string(&self) -> (s: String)
        ensures
            s@ == self.display(),
    {
        if self.key_modifiers.is_empty() {
            self.key_code.to_string()
        } else {
            let mut s = self.key_modifiers.to_string();
            push_str(&mut s, "+");
            let k = self.key_code.to_string();
            push_str(&mut s, k.as_str());
            s
        }
    }

    /// The trigger string handed to the hotkey machinery: the displayed form.
    pub fn build_trigger(&self) -> (s: String)
        ensures
            s@ == self.display(),
    {
        self.to_string()
    }

    pub fn from_str(s: &str) -> (r: Result<Self, WayclipError>)
        ensures
            outcome(r) == key_combo_parse(s@, |x: Seq<char>| unicode_lowercase(x)),
            all_ascii(s@) ==> outcome(r) == key_combo_parse(s@, |x: Seq<char>| ascii_lowercase(x)),
    {
        let chars = str_chars(s);
        let pieces = split_chars(chars.as_slice(), '+');
        let ghost raw = views(pieces@);
        let ghost ps = raw.map_values(|p: Seq<char>| trim(p));
        let ghost ul = |x: Seq<char>| unicode_lowercase(x);
        let ghost al = |x: Seq<char>| ascii_lowercase(x);
        proof {
            if all_ascii(s@) {
                crate::text::lemma_split_ascii(s@, '+');
            }
        }
        if pieces.len() < 2 {
            return Err(validation(
                "Minimum a modifier and a key. e.g.: <modifier_1>+<modifier_2>+...+<key>",
            ));
        }
        let n = pieces.len();
        let key_chars = trim_chars(pieces[n - 1].as_slice());
        assert(key_chars@ == ps.last());
        let key_str = string_from_chars(key_chars.as_slice());
        proof {
            if all_ascii(s@) {
                assert(all_ascii(raw[n - 1]));
                crate::text::lemma_trim_ascii(raw[n - 1]);
            }
        }
        let lowered = to_lowercase(key_str.as_str());
        proof {
            if all_ascii(s@) {
                lemma_ascii_lowercase_ascii(key_str@);
            }
        }
        let key_code = match WayclipKeyCode::from_str(lowered.as_str()) {
            Ok(k) => k,
            Err(e) => return Err(e),
        };
        let mut modifiers = WayclipKeyModifiers::empty();
        let mut i: usize = 0;
        let ghost mods = ps.drop_last();
        assert(mods.subrange(0, 0) =~= Seq::<Seq<char>>::empty());
        while i < n - 1
            invariant
                n == pieces@.len(),
                n >= 2,
                raw == views(pieces@),
                raw == split(s@, '+'),
                ps == raw.map_values(|p: Seq<char>| trim(p)),
                mods == ps.drop_last(),
                ul == (|x: Seq<char>| unicode_lowercase(x)),
                al == (|x: Seq<char>| ascii_lowercase(x)),
                ps.len() == n,
                key_code_parse(ul(ps.last()), ul) == Ok::<WayclipKeyCode, ErrorClass>(key_code),
                all_ascii(s@) ==> key_code_parse(al(ps.last()), al) == Ok::<
                    WayclipKeyCode,
                    ErrorClass,
                >(key_code),
                all_ascii(s@) ==> forall|j: int| 0 <= j < raw.len() ==> all_ascii(#[trigger] raw[j]),
                i <= n - 1,
                parse_modifiers(mods.subrange(0, i as int), ul) == Ok::<
                    WayclipKeyModifiers,
                    ErrorClass,
                >(modifiers),
                all_ascii(s@) ==> parse_modifiers(mods.subrange(0, i as int), al) == Ok::<
                    WayclipKeyModifiers,
                    ErrorClass,
                >(modifiers),
            decreases n - 1 - i,
        {
            let ghost pre = mods.subrange(0, i as int);
            let ghost next = mods.subrange(0, i + 1);
            assert(next.drop_last() =~= pre);
            let t = trim_chars(pieces[i].as_slice());
            assert(t@ == mods[i as int]);
            let ts = string_from_chars(t.as_slice());
            let lower = to_lowercase(ts.as_str());
            let l = str_chars(lower.as_str());
            proof {
                if all_ascii(s@) {
                    assert(all_ascii(raw[i as int]));
                    crate::text::lemma_trim_ascii(raw[i as int]);
                }
            }
            match modifier_exec(l.as_slice()) {
                Some(f) => {
                    modifiers = modifiers.union(&f);
                },
                None => {
                    proof {
                        lemma_parse_modifiers_error(mods, i + 1, ul);
                        if all_ascii(s@) {
                            lemma_parse_modifiers_error(mods, i + 1, al);
                        }
                    }
                    let mut msg = "Invalid modifier: ".to_owned();
                    push_str(&mut msg, lower.as_str());
                    return Err(WayclipError::Validation(msg));
                },
            }
            i = i + 1;
        }
        assert(mods.subrange(0, (n - 1) as int) =~= mods);
        Ok(WayclipKeyCombo::new(key_code, modifiers))
    }
}

/// Lowercasing an ASCII string gives an ASCII string.
pub proof fn lemma_ascii_lowercase_ascii(s: Seq<char>)
    requires
        all_ascii(s),
    ensures
        all_ascii(ascii_lowercase(s)),
{
    let l = ascii_lowercase(s);
    assert forall|i: int| 0 <= i < l.len() implies is_ascii_char(#[trigger] l[i]) by {
        assert(is_ascii_char(s[i]));
    }
}

} // verus!

verus! {

/// The keys whose displayed form reads back as the same key inside a combination: an ASCII
/// character that is not upper case, whitespace or `+`, a function key, or a named key other
/// than `Enter` (displayed `Return`) and `Null` (displayed empty).
pub open spec fn key_reads_back(k: WayclipKeyCode) -> bool {
    match k {
        WayclipKeyCode::Char(c) => is_ascii_char(c) && !is_ascii_upper(c) && !is_whitespace(c) && c
            != '+',
        WayclipKeyCode::Enter => false,
        WayclipKeyCode::Null => false,
        _ => true,
    }
}

/// A displayed piece that survives trimming and splitting on `+`.
pub open spec fn clean_piece(d: Seq<char>) -> bool {
    &&& d.len() > 0
    &&& all_ascii(d)
    &&& lacks(d, '+')
    &&& !is_whitespace(d[0])
    &&& !is_whitespace(d.last())
}

spec fn named_display_ok(k: WayclipKeyCode) -> bool {
    let d = k.display();
    let l = ascii_lowercase(d);
    &&& clean_piece(d)
    &&& d.len() > 1
    &&& l[0] != 'f'
    &&& named_key_from_lower(ascii_lowercase(l)) == Some(k)
}

proof fn lemma_named_esc()
    ensures
        named_display_ok(WayclipKeyCode::Esc),
{
    reveal_strlit("Escape");
    reveal_strlit("escape");
    reveal_strlit("enter");
    reveal_strlit("esc");
    reveal_strlit("backspace");
    reveal_strlit("tab");
    reveal_strlit("up");
    reveal_strlit("down");
    reveal_strlit("left");
    reveal_strlit("right");
    reveal_strlit("insert");
    reveal_strlit("delete");
    reveal_strlit("home");
    reveal_strlit("end");
    reveal_strlit("page_up");
    reveal_strlit("pgup");
    reveal_strlit("page_down");
    reveal_strlit("pgdown");
    reveal_strlit("caps_lock");
    reveal_strlit("caps");
    reveal_strlit("scroll_lock");
    reveal_strlit("scroll");
    reveal_strlit("num_lock");
    reveal_strlit("num");
    reveal_strlit("print_screen");
    reveal_strlit("print");
    reveal_strlit("pause");
    assert(ascii_lowercase("Escape"@) =~= "escape"@);
    assert(ascii_lowercase("escape"@) =~= "escape"@);
}

proof fn lemma_named_backspace()
    ensures
        named_display_ok(WayclipKeyCode::Backspace),
{
    reveal_strlit("BackSpace");
    reveal_strlit("backspace");
    reveal_strlit("enter");
    reveal_strlit("esc");
    reveal_strlit("escape");
    reveal_strlit("tab");
    reveal_strlit("up");
    reveal_strlit("down");
    reveal_strlit("left");
    reveal_strlit("right");
    reveal_strlit("insert");
    reveal_strlit("delete");
    reveal_strlit("home");
    reveal_strlit("end");
    reveal_strlit("page_up");
    reveal_strlit("pgup");
    reveal_strlit("page_down");
    reveal_strlit("pgdown");
    reveal_strlit("caps_lock");
    reveal_strlit("caps");
    reveal_strlit("scroll_lock");
    reveal_strlit("scroll");
    reveal_strlit("num_lock");
    reveal_strlit("num");
    reveal_strlit("print_screen");
    reveal_strlit("print");
    reveal_strlit("pause");
    assert(ascii_lowercase("BackSpace"@) =~= "backspace"@);
    assert(ascii_lowercase("backspace"@) =~= "backspace"@);
}

proof fn lemma_named_tab()
    ensures
        named_display_ok(WayclipKeyCode::Tab),
{
    reveal_strlit("Tab");
    reveal_strlit("tab");
    reveal_strlit("enter");
    reveal_strlit("esc");
    reveal_strlit("escape");
    reveal_strlit("backspace");
    reveal_strlit("up");
    reveal_strlit("down");
    reveal_strlit("left");
    reveal_strlit("right");
    reveal_strlit("insert");
    reveal_strlit("delete");
    reveal_strlit("home");
    reveal_strlit("end");
    reveal_strlit("page_up");
    reveal_strlit("pgup");
    reveal_strlit("page_down");
    reveal_strlit("pgdown");
    reveal_strlit("caps_lock");
    reveal_strlit("caps");
    reveal_strlit("scroll_lock");
    reveal_strlit("scroll");
    reveal_strlit("num_lock");
    reveal_strlit("num");
    reveal_strlit("print_screen");
    reveal_strlit("print");
    reveal_strlit("pause");
    assert(ascii_lowercase("Tab"@) =~= "tab"@);
    assert(ascii_lowercase("tab"@) =~= "tab"@);
    assert("tab"@[0] != "esc"@[0]);
}

proof fn lemma_named_up()
    ensures
        named_display_ok(WayclipKeyCode::Up),
{
    reveal_strlit("Up");
    reveal_strlit("up");
    reveal_strlit("enter");
    reveal_strlit("esc");
    reveal_strlit("escape");
    reveal_strlit("backspace");
    reveal_strlit("tab");
    reveal_strlit("down");
    reveal_strlit("left");
    reveal_strlit("right");
    reveal_strlit("insert");
    reveal_strlit("delete");
    reveal_strlit("home");
    reveal_strlit("end");
    reveal_strlit("page_up");
    reveal_strlit("pgup");
    reveal_strlit("page_down");
    reveal_strlit("pgdown");
    reveal_strlit("caps_lock");
    reveal_strlit("caps");
    reveal_strlit("scroll_lock");
    reveal_strlit("scroll");
    reveal_strlit("num_lock");
    reveal_strlit("num");
    reveal_strlit("print_screen");
    reveal_strlit("print");
    reveal_strlit("pause");
    assert(ascii_lowercase("Up"@) =~= "up"@);
    assert(ascii_lowercase("up"@) =~= "up"@);
}

proof fn lemma_named_down()
    ensures
        named_display_ok(WayclipKeyCode::Down),
{
    reveal_strlit("Down");
    reveal_strlit("down");
    reveal_strlit("enter");
    reveal_strlit("esc");
    reveal_strlit("escape");
    reveal_strlit("backspace");
    reveal_strlit("tab");
    reveal_strlit("up");
    reveal_strlit("left");
    reveal_strlit("right");
    reveal_strlit("insert");
    reveal_strlit("delete");
    reveal_strlit("home");
    reveal_strlit("end");
    reveal_strlit("page_up");
    reveal_strlit("pgup");
    reveal_strlit("page_down");
    reveal_strlit("pgdown");
    reveal_strlit("caps_lock");
    reveal_strlit("caps");
    reveal_strlit("scroll_lock");
    reveal_strlit("scroll");
    reveal_strlit("num_lock");
    reveal_strlit("num");
    reveal_strlit("print_screen");
    reveal_strlit("print");
    reveal_strlit("pause");
    assert(ascii_lowercase("Down"@) =~= "down"@);
    assert(ascii_lowercase("down"@) =~= "down"@);
}

proof fn lemma_named_left()
    ensures
        named_display_ok(WayclipKeyCode::Left),
{
    reveal_strlit("Left");
    reveal_strlit("left");
    reveal_strlit("enter");
    reveal_strlit("esc");
    reveal_strlit("escape");
    reveal_strlit("backspace");
    reveal_strlit("tab");
    reveal_strlit("up");
    reveal_strlit("down");
    reveal_strlit("right");
    reveal_strlit("insert");
    reveal_strlit("delete");
    reveal_strlit("home");
    reveal_strlit("end");
    reveal_strlit("page_up");
    reveal_strlit("pgup");
    reveal_strlit("page_down");
    reveal_strlit("pgdown");
    reveal_strlit("caps_lock");
    reveal_strlit("caps");
    reveal_strlit("scroll_lock");
    reveal_strlit("scroll");
    reveal_strlit("num_lock");
    reveal_strlit("num");
    reveal_strlit("print_screen");
    reveal_strlit("print");
    reveal_strlit("pause");
    assert(ascii_lowercase("Left"@) =~= "left"@);
    assert(ascii_lowercase("left"@) =~= "left"@);
    assert("left"@[0] != "down"@[0]);
}

proof fn lemma_named_right()
    ensures
        named_display_ok(WayclipKeyCode::Right),
{
    reveal_strlit("Right");
    reveal_strlit("right");
    reveal_strlit("enter");
    reveal_strlit("esc");
    reveal_strlit("escape");
    reveal_strlit("backspace");
    reveal_strlit("tab");
    reveal_strlit("up");
    reveal_strlit("down");
    reveal_strlit("left");
    reveal_strlit("insert");
    reveal_strlit("delete");
    reveal_strlit("home");
    reveal_strlit("end");
    reveal_strlit("page_up");
    reveal_strlit("pgup");
    reveal_strlit("page_down");
    reveal_strlit("pgdown");
    reveal_strlit("caps_lock");
    reveal_strlit("caps");
    reveal_strlit("scroll_lock");
    reveal_strlit("scroll");
    reveal_strlit("num_lock");
    reveal_strlit("num");
    reveal_strlit("print_screen");
    reveal_strlit("print");
    reveal_strlit("pause");
    assert(ascii_lowercase("Right"@) =~= "right"@);
    assert(ascii_lowercase("right"@) =~= "right"@);
    assert("right"@[0] != "enter"@[0]);
}

proof fn lemma_named_insert()
    ensures
        named_display_ok(WayclipKeyCode::Insert),
{
    reveal_strlit("Insert");
    reveal_strlit("insert");
    reveal_strlit("enter");
    reveal_strlit("esc");
    reveal_strlit("escape");
    reveal_strlit("backspace");
    reveal_strlit("tab");
    reveal_strlit("up");
    reveal_strlit("down");
    reveal_strlit("left");
    reveal_strlit("right");
    reveal_strlit("delete");
    reveal_strlit("home");
    reveal_strlit("end");
    reveal_strlit("page_up");
    reveal_strlit("pgup");
    reveal_strlit("page_down");
    reveal_strlit("pgdown");
    reveal_strlit("caps_lock");
    reveal_strlit("caps");
    reveal_strlit("scroll_lock");
    reveal_strlit("scroll");
    reveal_strlit("num_lock");
    reveal_strlit("num");
    reveal_strlit("print_screen");
    reveal_strlit("print");
    reveal_strlit("pause");
    assert(ascii_lowercase("Insert"@) =~= "insert"@);
    assert(ascii_lowercase("insert"@) =~= "insert"@);
    assert("insert"@[0] != "escape"@[0]);
}

proof fn lemma_named_delete()
    ensures
        named_display_ok(WayclipKeyCode::Delete),
{
    reveal_strlit("Delete");
    reveal_strlit("delete");
    reveal_strlit("enter");
    reveal_strlit("esc");
    reveal_strlit("escape");
    reveal_strlit("backspace");
    reveal_strlit("tab");
    reveal_strlit("up");
    reveal_strlit("down");
    reveal_strlit("left");
    reveal_strlit("right");
    reveal_strlit("insert");
    reveal_strlit("home");
    reveal_strlit("end");
    reveal_strlit("page_up");
    reveal_strlit("pgup");
    reveal_strlit("page_down");
    reveal_strlit("pgdown");
    reveal_strlit("caps_lock");
    reveal_strlit("caps");
    reveal_strlit("scroll_lock");
    reveal_strlit("scroll");
    reveal_strlit("num_lock");
    reveal_strlit("num");
    reveal_strlit("print_screen");
    reveal_strlit("print");
    reveal_strlit("pause");
    assert(ascii_lowercase("Delete"@) =~= "delete"@);
    assert(ascii_lowercase("delete"@) =~= "delete"@);
    assert("delete"@[0] != "escape"@[0]);
    assert("delete"@[0] != "insert"@[0]);
}

proof fn lemma_named_home()
    ensures
        named_display_ok(WayclipKeyCode::Home),
{
    reveal_strlit("Home");
    reveal_strlit("home");
    reveal_strlit("enter");
    reveal_strlit("esc");
    reveal_strlit("escape");
    reveal_strlit("backspace");
    reveal_strlit("tab");
    reveal_strlit("up");
    reveal_strlit("down");
    reveal_strlit("left");
    reveal_strlit("right");
    reveal_strlit("insert");
    reveal_strlit("delete");
    reveal_strlit("end");
    reveal_strlit("page_up");
    reveal_strlit("pgup");
    reveal_strlit("page_down");
    reveal_strlit("pgdown");
    reveal_strlit("caps_lock");
    reveal_strlit("caps");
    reveal_strlit("scroll_lock");
    reveal_strlit("scroll");
    reveal_strlit("num_lock");
    reveal_strlit("num");
    reveal_strlit("print_screen");
    reveal_strlit("print");
    reveal_strlit("pause");
    assert(ascii_lowercase("Home"@) =~= "home"@);
    assert(ascii_lowercase("home"@) =~= "home"@);
    assert("home"@[0] != "down"@[0]);
    assert("home"@[0] != "left"@[0]);
}

proof fn lemma_named_end()
    ensures
        named_display_ok(WayclipKeyCode::End),
{
    reveal_strlit("End");
    reveal_strlit("end");
    reveal_strlit("enter");
    reveal_strlit("esc");
    reveal_strlit("escape");
    reveal_strlit("backspace");
    reveal_strlit("tab");
    reveal_strlit("up");
    reveal_strlit("down");
    reveal_strlit("left");
    reveal_strlit("right");
    reveal_strlit("insert");
    reveal_strlit("delete");
    reveal_strlit("home");
    reveal_strlit("page_up");
    reveal_strlit("pgup");
    reveal_strlit("page_down");
    reveal_strlit("pgdown");
    reveal_strlit("caps_lock");
    reveal_strlit("caps");
    reveal_strlit("scroll_lock");
    reveal_strlit("scroll");
    reveal_strlit("num_lock");
    reveal_strlit("num");
    reveal_strlit("print_screen");
    reveal_strlit("print");
    reveal_strlit("pause");
    assert(ascii_lowercase("End"@) =~= "end"@);
    assert(ascii_lowercase("end"@) =~= "end"@);
    assert("end"@[1] != "esc"@[1]);
    assert("end"@[0] != "tab"@[0]);
}

proof fn lemma_named_page_up()
    ensures
        named_display_ok(WayclipKeyCode::PageUp),
{
    reveal_strlit("Page_Up");
    reveal_strlit("page_up");
    reveal_strlit("enter");
    reveal_strlit("esc");
    reveal_strlit("escape");
    reveal_strlit("backspace");
    reveal_strlit("tab");
    reveal_strlit("up");
    reveal_strlit("down");
    reveal_strlit("left");
    reveal_strlit("right");
    reveal_strlit("insert");
    reveal_strlit("delete");
    reveal_strlit("home");
    reveal_strlit("end");
    reveal_strlit("pgup");
    reveal_strlit("page_down");
    reveal_strlit("pgdown");
    reveal_strlit("caps_lock");
    reveal_strlit("caps");
    reveal_strlit("scroll_lock");
    reveal_strlit("scroll");
    reveal_strlit("num_lock");
    reveal_strlit("num");
    reveal_strlit("print_screen");
    reveal_strlit("print");
    reveal_strlit("pause");
    assert(ascii_lowercase("Page_Up"@) =~= "page_up"@);
    assert(ascii_lowercase("page_up"@) =~= "page_up"@);
}

proof fn lemma_named_page_down()
    ensures
        named_display_ok(WayclipKeyCode::PageDown),
{
    reveal_strlit("Page_Down");
    reveal_strlit("page_down");
    reveal_strlit("enter");
    reveal_strlit("esc");
    reveal_strlit("escape");
    reveal_strlit("backspace");
    reveal_strlit("tab");
    reveal_strlit("up");
    reveal_strlit("down");
    reveal_strlit("left");
    reveal_strlit("right");
    reveal_strlit("insert");
    reveal_strlit("delete");
    reveal_strlit("home");
    reveal_strlit("end");
    reveal_strlit("page_up");
    reveal_strlit("pgup");
    reveal_strlit("pgdown");
    reveal_strlit("caps_lock");
    reveal_strlit("caps");
    reveal_strlit("scroll_lock");
    reveal_strlit("scroll");
    reveal_strlit("num_lock");
    reveal_strlit("num");
    reveal_strlit("print_screen");
    reveal_strlit("print");
    reveal_strlit("pause");
    assert(ascii_lowercase("Page_Down"@) =~= "page_down"@);
    assert(ascii_lowercase("page_down"@) =~= "page_down"@);
    assert("page_down"@[0] != "backspace"@[0]);
}

proof fn lemma_named_caps_lock()
    ensures
        named_display_ok(WayclipKeyCode::CapsLock),
{
    reveal_strlit("Caps_Lock");
    reveal_strlit("caps_lock");
    reveal_strlit("enter");
    reveal_strlit("esc");
    reveal_strlit("escape");
    reveal_strlit("backspace");
    reveal_strlit("tab");
    reveal_strlit("up");
    reveal_strlit("down");
    reveal_strlit("left");
    reveal_strlit("right");
    reveal_strlit("insert");
    reveal_strlit("delete");
    reveal_strlit("home");
    reveal_strlit("end");
    reveal_strlit("page_up");
    reveal_strlit("pgup");
    reveal_strlit("page_down");
    reveal_strlit("pgdown");
    reveal_strlit("caps");
    reveal_strlit("scroll_lock");
    reveal_strlit("scroll");
    reveal_strlit("num_lock");
    reveal_strlit("num");
    reveal_strlit("print_screen");
    reveal_strlit("print");
    reveal_strlit("pause");
    assert(ascii_lowercase("Caps_Lock"@) =~= "caps_lock"@);
    assert(ascii_lowercase("caps_lock"@) =~= "caps_lock"@);
    assert("caps_lock"@[0] != "backspace"@[0]);
    assert("caps_lock"@[0] != "page_down"@[0]);
}

proof fn lemma_named_scroll_lock()
    ensures
        named_display_ok(WayclipKeyCode::ScrollLock),
{
    reveal_strlit("Scroll_Lock");
    reveal_strlit("scroll_lock");
    reveal_strlit("enter");
    reveal_strlit("esc");
    reveal_strlit("escape");
    reveal_strlit("backspace");
    reveal_strlit("tab");
    reveal_strlit("up");
    reveal_strlit("down");
    reveal_strlit("left");
    reveal_strlit("right");
    reveal_strlit("insert");
    reveal_strlit("delete");
    reveal_strlit("home");
    reveal_strlit("end");
    reveal_strlit("page_up");
    reveal_strlit("pgup");
    reveal_strlit("page_down");
    reveal_strlit("pgdown");
    reveal_strlit("caps_lock");
    reveal_strlit("caps");
    reveal_strlit("scroll");
    reveal_strlit("num_lock");
    reveal_strlit("num");
    reveal_strlit("print_screen");
    reveal_strlit("print");
    reveal_strlit("pause");
    assert(ascii_lowercase("Scroll_Lock"@) =~= "scroll_lock"@);
    assert(ascii_lowercase("scroll_lock"@) =~= "scroll_lock"@);
}

proof fn lemma_named_num_lock()
    ensures
        named_display_ok(WayclipKeyCode::NumLock),
{
    reveal_strlit("Num_Lock");
    reveal_strlit("num_lock");
    reveal_strlit("enter");
    reveal_strlit("esc");
    reveal_strlit("escape");
    reveal_strlit("backspace");
    reveal_strlit("tab");
    reveal_strlit("up");
    reveal_strlit("down");
    reveal_strlit("left");
    reveal_strlit("right");
    reveal_strlit("insert");
    reveal_strlit("delete");
    reveal_strlit("home");
    reveal_strlit("end");
    reveal_strlit("page_up");
    reveal_strlit("pgup");
    reveal_strlit("page_down");
    reveal_strlit("pgdown");
    reveal_strlit("caps_lock");
    reveal_strlit("caps");
    reveal_strlit("scroll_lock");
    reveal_strlit("scroll");
    reveal_strlit("num");
    reveal_strlit("print_screen");
    reveal_strlit("print");
    reveal_strlit("pause");
    assert(ascii_lowercase("Num_Lock"@) =~= "num_lock"@);
    assert(ascii_lowercase("num_lock"@) =~= "num_lock"@);
}

proof fn lemma_named_print_screen()
    ensures
        named_display_ok(WayclipKeyCode::PrintScreen),
{
    reveal_strlit("Print_Screen");
    reveal_strlit("print_screen");
    reveal_strlit("enter");
    reveal_strlit("esc");
    reveal_strlit("escape");
    reveal_strlit("backspace");
    reveal_strlit("tab");
    reveal_strlit("up");
    reveal_strlit("down");
    reveal_strlit("left");
    reveal_strlit("right");
    reveal_strlit("insert");
    reveal_strlit("delete");
    reveal_strlit("home");
    reveal_strlit("end");
    reveal_strlit("page_up");
    reveal_strlit("pgup");
    reveal_strlit("page_down");
    reveal_strlit("pgdown");
    reveal_strlit("caps_lock");
    reveal_strlit("caps");
    reveal_strlit("scroll_lock");
    reveal_strlit("scroll");
    reveal_strlit("num_lock");
    reveal_strlit("num");
    reveal_strlit("print");
    reveal_strlit("pause");
    assert(ascii_lowercase("Print_Screen"@) =~= "print_screen"@);
    assert(ascii_lowercase("print_screen"@) =~= "print_screen"@);
}

proof fn lemma_named_pause()
    ensures
        named_display_ok(WayclipKeyCode::Pause),
{
    reveal_strlit("Pause");
    reveal_strlit("pause");
    reveal_strlit("enter");
    reveal_strlit("esc");
    reveal_strlit("escape");
    reveal_strlit("backspace");
    reveal_strlit("tab");
    reveal_strlit("up");
    reveal_strlit("down");
    reveal_strlit("left");
    reveal_strlit("right");
    reveal_strlit("insert");
    reveal_strlit("delete");
    reveal_strlit("home");
    reveal_strlit("end");
    reveal_strlit("page_up");
    reveal_strlit("pgup");
    reveal_strlit("page_down");
    reveal_strlit("pgdown");
    reveal_strlit("caps_lock");
    reveal_strlit("caps");
    reveal_strlit("scroll_lock");
    reveal_strlit("scroll");
    reveal_strlit("num_lock");
    reveal_strlit("num");
    reveal_strlit("print_screen");
    reveal_strlit("print");
    assert(ascii_lowercase("Pause"@) =~= "pause"@);
    assert(ascii_lowercase("pause"@) =~= "pause"@);
    assert("pause"@[0] != "enter"@[0]);
    assert("pause"@[0] != "right"@[0]);
    assert("pause"@[1] != "print"@[1]);
}

proof fn lemma_named_key_round_trip(k: WayclipKeyCode)
    requires
        named_display_ok(k),
    ensures
        clean_piece(k.display()),
        key_code_parse(ascii_lowercase(k.display()), |x: Seq<char>| ascii_lowercase(x)) == Ok::<
            WayclipKeyCode,
            ErrorClass,
        >(k),
{
    let d = k.display();
    crate::text::lemma_ascii_lowercase_len(d);
    let al = |x: Seq<char>| ascii_lowercase(x);
    assert(al(ascii_lowercase(d)) == ascii_lowercase(ascii_lowercase(d)));
}

/// Every key that reads back displays as a clean piece and parses back to itself.
pub proof fn lemma_key_round_trip(k: WayclipKeyCode)
    requires
        key_reads_back(k),
    ensures
        clean_piece(k.display()),
        key_code_parse(ascii_lowercase(k.display()), |x: Seq<char>| ascii_lowercase(x)) == Ok::<
            WayclipKeyCode,
            ErrorClass,
        >(k),
{
    match k {
        WayclipKeyCode::Char(c) => {
            let d = k.display();
            assert(ascii_lowercase(d) =~= d);
        },
        WayclipKeyCode::F(n) => {
            reveal_strlit("F");
            let d = k.display();
            let digits = decimal(n as nat);
            crate::num::lemma_decimal_digits(n as nat);
            crate::num::lemma_parse_decimal(n as nat, u8::MAX as int);
            let l = ascii_lowercase(d);
            assert(l =~= seq!['f'] + digits) by {
                assert forall|i: int| 0 <= i < l.len() implies l[i] == (seq!['f'] + digits)[i] by {
                    if i > 0 {
                        assert(d[i] == digits[i - 1]);
                        assert(crate::text::is_ascii_digit(digits[i - 1]));
                    }
                }
            }
            assert(l.drop_first() =~= digits);
            assert(all_ascii(d)) by {
                assert forall|i: int| 0 <= i < d.len() implies is_ascii_char(#[trigger] d[i]) by {
                    if i > 0 {
                        assert(crate::text::is_ascii_digit(digits[i - 1]));
                    }
                }
            }
            assert(lacks(d, '+')) by {
                assert forall|i: int| 0 <= i < d.len() implies #[trigger] d[i] != '+' by {
                    if i > 0 {
                        assert(crate::text::is_ascii_digit(digits[i - 1]));
                    }
                }
            }
            assert(crate::text::is_ascii_digit(d.last()));
        },
        WayclipKeyCode::Esc => lemma_named_esc(),
        WayclipKeyCode::Backspace => lemma_named_backspace(),
        WayclipKeyCode::Tab => lemma_named_tab(),
        WayclipKeyCode::Up => lemma_named_up(),
        WayclipKeyCode::Down => lemma_named_down(),
        WayclipKeyCode::Left => lemma_named_left(),
        WayclipKeyCode::Right => lemma_named_right(),
        WayclipKeyCode::Insert => lemma_named_insert(),
        WayclipKeyCode::Delete => lemma_named_delete(),
        WayclipKeyCode::Home => lemma_named_home(),
        WayclipKeyCode::End => lemma_named_end(),
        WayclipKeyCode::PageUp => lemma_named_page_up(),
        WayclipKeyCode::PageDown => lemma_named_page_down(),
        WayclipKeyCode::CapsLock => lemma_named_caps_lock(),
        WayclipKeyCode::ScrollLock => lemma_named_scroll_lock(),
        WayclipKeyCode::NumLock => lemma_named_num_lock(),
        WayclipKeyCode::PrintScreen => lemma_named_print_screen(),
        WayclipKeyCode::Pause => lemma_named_pause(),
        WayclipKeyCode::Enter => {},
        WayclipKeyCode::Null => {},
    }
    if !(k is Char) && !(k is F) {
        lemma_named_key_round_trip(k);
    }
}


proof fn lemma_push_modifier(
    ps: Seq<Seq<char>>,
    x: Seq<char>,
    m: WayclipKeyModifiers,
    f: WayclipKeyModifiers,
)
    requires
        parse_modifiers(ps, |y: Seq<char>| ascii_lowercase(y)) == Ok::<
            WayclipKeyModifiers,
            ErrorClass,
        >(m),
        modifier_from_lower(ascii_lowercase(x)) == Some(f),
    ensures
        parse_modifiers(ps.push(x), |y: Seq<char>| ascii_lowercase(y)) == Ok::<
            WayclipKeyModifiers,
            ErrorClass,
        >(m.union_spec(f)),
{
    assert(ps.push(x).drop_last() =~= ps);
}

proof fn lemma_modifier_names()
    ensures
        clean_piece("SHIFT"@),
        clean_piece("CTRL"@),
        clean_piece("ALT"@),
        clean_piece("LOGO"@),
        modifier_from_lower(ascii_lowercase("SHIFT"@)) == Some(
            WayclipKeyModifiers { shift: true, ctrl: false, alt: false, meta: false },
        ),
        modifier_from_lower(ascii_lowercase("CTRL"@)) == Some(
            WayclipKeyModifiers { shift: false, ctrl: true, alt: false, meta: false },
        ),
        modifier_from_lower(ascii_lowercase("ALT"@)) == Some(
            WayclipKeyModifiers { shift: false, ctrl: false, alt: true, meta: false },
        ),
        modifier_from_lower(ascii_lowercase("LOGO"@)) == Some(
            WayclipKeyModifiers { shift: false, ctrl: false, alt: false, meta: true },
        ),
{
    reveal_strlit("SHIFT");
    reveal_strlit("CTRL");
    reveal_strlit("ALT");
    reveal_strlit("LOGO");
    reveal_strlit("shift");
    reveal_strlit("ctrl");
    reveal_strlit("control");
    reveal_strlit("alt");
    reveal_strlit("meta");
    reveal_strlit("super");
    reveal_strlit("cmd");
    reveal_strlit("win");
    reveal_strlit("logo");
    assert(ascii_lowercase("SHIFT"@) =~= "shift"@);
    assert(ascii_lowercase("CTRL"@) =~= "ctrl"@);
    assert(ascii_lowercase("ALT"@) =~= "alt"@);
    assert(ascii_lowercase("LOGO"@) =~= "logo"@);
    assert("logo"@[0] != "ctrl"@[0]);
    assert("logo"@[0] != "meta"@[0]);
}

/// A non-empty modifier set's names are clean pieces and read back as the same set.
proof fn lemma_modifiers_round_trip(m: WayclipKeyModifiers)
    requires
        !m.is_empty_spec(),
    ensures
        m.names().len() > 0,
        forall|i: int| 0 <= i < m.names().len() ==> clean_piece(#[trigger] m.names()[i]),
        parse_modifiers(m.names(), |y: Seq<char>| ascii_lowercase(y)) == Ok::<
            WayclipKeyModifiers,
            ErrorClass,
        >(m),
{
    lemma_modifier_names();
    let e = WayclipKeyModifiers { shift: false, ctrl: false, alt: false, meta: false };
    let s0 = Seq::<Seq<char>>::empty();
    let m0 = e;
    let s1 = if m.shift { s0.push("SHIFT"@) } else { s0 };
    let m1 = WayclipKeyModifiers { shift: m.shift, ..e };
    if m.shift {
        lemma_push_modifier(s0, "SHIFT"@, m0, WayclipKeyModifiers { shift: true, ..e });
    }
    let s2 = if m.ctrl { s1.push("CTRL"@) } else { s1 };
    let m2 = WayclipKeyModifiers { ctrl: m.ctrl, ..m1 };
    if m.ctrl {
        lemma_push_modifier(s1, "CTRL"@, m1, WayclipKeyModifiers { ctrl: true, ..e });
    }
    let s3 = if m.alt { s2.push("ALT"@) } else { s2 };
    let m3 = WayclipKeyModifiers { alt: m.alt, ..m2 };
    if m.alt {
        lemma_push_modifier(s2, "ALT"@, m2, WayclipKeyModifiers { alt: true, ..e });
    }
    let s4 = if m.meta { s3.push("LOGO"@) } else { s3 };
    if m.meta {
        lemma_push_modifier(s3, "LOGO"@, m3, WayclipKeyModifiers { meta: true, ..e });
    }
    assert(m.names() =~= s4);
}

proof fn lemma_split_join_plus(ps: Seq<Seq<char>>)
    requires
        ps.len() > 0,
        forall|i: int| 0 <= i < ps.len() ==> lacks(#[trigger] ps[i], '+'),
    ensures
        split(join_plus(ps), '+') == ps,
    decreases ps.len(),
{
    if ps.len() == 1 {
        crate::text::lemma_split_without_sep(ps[0], '+');
        assert(ps =~= seq![ps[0]]);
    } else {
        let init = ps.drop_last();
        lemma_split_join_plus(init);
        crate::text::lemma_split_concat_sep(join_plus(init), '+', ps.last());
        crate::text::lemma_split_without_sep(ps.last(), '+');
        assert(ps =~= init + seq![ps.last()]);
    }
}

proof fn lemma_join_plus_ascii(ps: Seq<Seq<char>>)
    requires
        forall|i: int| 0 <= i < ps.len() ==> all_ascii(#[trigger] ps[i]),
    ensures
        all_ascii(join_plus(ps)),
    decreases ps.len(),
{
    if ps.len() > 1 {
        let init = ps.drop_last();
        lemma_join_plus_ascii(init);
        let j = join_plus(init);
        let r = join_plus(ps);
        let l = ps.last();
        assert(all_ascii(l));
        assert forall|i: int| 0 <= i < r.len() implies is_ascii_char(#[trigger] r[i]) by {
            if i < j.len() {
                assert(r[i] == j[i]);
            } else if i > j.len() {
                assert(r[i] == l[i - j.len() - 1]);
            }
        }
    } else if ps.len() == 1 {
        assert(all_ascii(ps[0]));
    }
}

/// Law: a key combination with at least one modifier, whose key reads back (see
/// `key_reads_back`), is displayed as an ASCII string that `WayclipKeyCombo::from_str` reads back
/// as the same combination.
pub proof fn law_key_combo_round_trip(c: WayclipKeyCombo)
    requires
        !c.key_modifiers.is_empty_spec(),
        key_reads_back(c.key_code),
    ensures
        all_ascii(c.display()),
        key_combo_parse(c.display(), |x: Seq<char>| ascii_lowercase(x)) == Ok::<
            WayclipKeyCombo,
            ErrorClass,
        >(c),
{
    let m = c.key_modifiers;
    let names = m.names();
    let md = m.display();
    let kd = c.key_code.display();
    lemma_modifiers_round_trip(m);
    lemma_key_round_trip(c.key_code);
    reveal_strlit("+");
    assert(md == join_plus(names));
    let d = c.display();
    assert(d =~= md + seq!['+'] + kd);
    assert forall|i: int| 0 <= i < names.len() implies lacks(#[trigger] names[i], '+') by {
        assert(clean_piece(names[i]));
    }
    assert forall|i: int| 0 <= i < names.len() implies all_ascii(#[trigger] names[i]) by {
        assert(clean_piece(names[i]));
    }
    lemma_split_join_plus(names);
    lemma_join_plus_ascii(names);
    crate::text::lemma_split_concat_sep(md, '+', kd);
    crate::text::lemma_split_without_sep(kd, '+');
    let raw = split(d, '+');
    assert(raw =~= names.push(kd));
    let ps = raw.map_values(|p: Seq<char>| trim(p));
    assert forall|i: int| 0 <= i < raw.len() implies trim(#[trigger] raw[i]) == raw[i] by {
        assert(clean_piece(raw[i]));
        crate::text::lemma_trim_noop(raw[i]);
    }
    assert(ps =~= raw);
    assert(ps.drop_last() =~= names);
    assert(all_ascii(d)) by {
        assert forall|i: int| 0 <= i < d.len() implies is_ascii_char(#[trigger] d[i]) by {
            if i < md.len() {
                assert(d[i] == md[i]);
            } else if i > md.len() {
                assert(d[i] == kd[i - md.len() - 1]);
            }
        }
    }
}


/// Law: the flag bits of a modifier set read back as the same set.
pub proof fn law_modifier_bits_round_trip(m: WayclipKeyModifiers)
    ensures
        0 <= m.bits_spec() < 16,
        WayclipKeyModifiers::from_bits_spec(m.bits_spec()) == m,
{
}

} // verus!

verus! {

/// A combination of one modifier piece `a` and a key piece `k` (neither holding `+`) reads as
/// the key with the modifier that `a` names, whatever its case: `ctrl` or `control` is CTRL,
/// `shift` SHIFT, `alt` ALT, and `meta`, `super`, `cmd`, `win` or `logo` LOGO; any other piece
/// is refused.
pub proof fn law_modifier_names(a: Seq<char>, k: Seq<char>)
    requires
        lacks(a, '+'),
        lacks(k, '+'),
    ensures
        ({
            let lower = |x: Seq<char>| ascii_lowercase(x);
            let r = key_combo_parse(a + seq!['+'] + k, lower);
            let l = ascii_lowercase(trim(a));
            &&& key_code_parse(ascii_lowercase(trim(k)), lower) is Err ==> r is Err
            &&& key_code_parse(ascii_lowercase(trim(k)), lower) matches Ok(c) ==> {
                &&& (l == "ctrl"@ || l == "control"@) ==> r == Ok::<WayclipKeyCombo, ErrorClass>(
                    WayclipKeyCombo {
                        key_code: c,
                        key_modifiers: WayclipKeyModifiers { shift: false, ctrl: true, alt: false, meta: false },
                    },
                )
                &&& l == "shift"@ ==> r == Ok::<WayclipKeyCombo, ErrorClass>(
                    WayclipKeyCombo {
                        key_code: c,
                        key_modifiers: WayclipKeyModifiers { shift: true, ctrl: false, alt: false, meta: false },
                    },
                )
                &&& l == "alt"@ ==> r == Ok::<WayclipKeyCombo, ErrorClass>(
                    WayclipKeyCombo {
                        key_code: c,
                        key_modifiers: WayclipKeyModifiers { shift: false, ctrl: false, alt: true, meta: false },
                    },
                )
                &&& (l == "meta"@ || l == "super"@ || l == "cmd"@ || l == "win"@ || l == "logo"@) ==> r
                    == Ok::<WayclipKeyCombo, ErrorClass>(
                    WayclipKeyCombo {
                        key_code: c,
                        key_modifiers: WayclipKeyModifiers { shift: false, ctrl: false, alt: false, meta: true },
                    },
                )
                &&& !(l == "ctrl"@ || l == "control"@ || l == "shift"@ || l == "alt"@ || l == "meta"@
                    || l == "super"@ || l == "cmd"@ || l == "win"@ || l == "logo"@) ==> r is Err
            }
        }),
{
    let lower = |x: Seq<char>| ascii_lowercase(x);
    let s = a + seq!['+'] + k;
    crate::text::lemma_split_concat_sep(a, '+', k);
    crate::text::lemma_split_without_sep(a, '+');
    crate::text::lemma_split_without_sep(k, '+');
    let raw = split(s, '+');
    assert(raw =~= seq![a, k]);
    let ps = raw.map_values(|p: Seq<char>| trim(p));
    assert(ps =~= seq![trim(a), trim(k)]);
    assert(ps.drop_last() =~= seq![trim(a)]);
    assert(ps.drop_last().drop_last() =~= Seq::<Seq<char>>::empty());
    reveal_strlit("shift");
    reveal_strlit("ctrl");
    reveal_strlit("control");
    reveal_strlit("alt");
    reveal_strlit("meta");
    reveal_strlit("super");
    reveal_strlit("cmd");
    reveal_strlit("win");
    reveal_strlit("logo");
    let l = ascii_lowercase(trim(a));
    let none = WayclipKeyModifiers { shift: false, ctrl: false, alt: false, meta: false };
    assert(parse_modifiers(seq![trim(a)], lower) == match modifier_from_lower(l) {
        None => Err::<WayclipKeyModifiers, ErrorClass>(ErrorClass::Validation),
        Some(f) => Ok::<WayclipKeyModifiers, ErrorClass>(none.union_spec(f)),
    }) by {
        assert(seq![trim(a)].drop_last() =~= Seq::<Seq<char>>::empty());
        assert(seq![trim(a)].last() == trim(a));
        assert(parse_modifiers(Seq::<Seq<char>>::empty(), lower) == Ok::<WayclipKeyModifiers, ErrorClass>(none));
        assert(lower(trim(a)) == l);
    }
    assert("ctrl"@[0] != "cmd"@[1]);
    assert("ctrl"@[1] != "cmd"@[1]);
    assert("meta"@[0] != "ctrl"@[0] && "logo"@[0] != "ctrl"@[0] && "logo"@[0] != "meta"@[0]);
    assert("shift"@[0] != "super"@[0] || "shift"@[1] != "super"@[1]);
    assert("alt"@[0] != "cmd"@[0] && "alt"@[0] != "win"@[0] && "cmd"@[0] != "win"@[0]);
}

} // verus!
