//! Controller buttons and button combinations that trigger an action.
use vstd::prelude::*;
use crate::error::{outcome, ErrorClass, WayclipError};
use crate::models::input::keyboard::clean_piece;
use crate::text::{
    all_ascii, ascii_lowercase, chars_eq, push_str, split, split_chars, str_chars,
    string_from_chars, to_lowercase, trim, trim_chars, unicode_lowercase, views,
};

verus! {

/// A button of a standard controller layout.
#[derive(Debug, Clone, Copy, PartialEq, Eq, Hash, Structural)]
pub enum WayclipControllerButton {
    South,
    East,
    North,
    West,
    LeftTrigger,
    LeftTrigger2,
    RightTrigger,
    RightTrigger2,
    Select,
    Start,
    Mode,
    LeftThumb,
    RightThumb,
    DPadUp,
    DPadDown,
    DPadLeft,
    DPadRight,
}

/// The button that a lowercased name stands for.
pub open spec fn button_from_lower(l: Seq<char>) -> Option<WayclipControllerButton> {
    if l == "south"@ || l == "a"@ || l == "cross"@ {
        Some(WayclipControllerButton::South)
    } else if l == "east"@ || l == "b"@ || l == "circle"@ {
        Some(WayclipControllerButton::East)
    } else if l == "north"@ || l == "y"@ || l == "triangle"@ {
        Some(WayclipControllerButton::North)
    } else if l == "west"@ || l == "x"@ || l == "square"@ {
        Some(WayclipControllerButton::West)
    } else if l == "lefttrigger2"@ || l == "lt"@ || l == "l2"@ {
        Some(WayclipControllerButton::LeftTrigger2)
    } else if l == "lefttrigger"@ || l == "lb"@ || l == "l1"@ {
        Some(WayclipControllerButton::LeftTrigger)
    } else if l == "righttrigger2"@ || l == "rt"@ || l == "r2"@ {
        Some(WayclipControllerButton::RightTrigger2)
    } else if l == "righttrigger"@ || l == "rb"@ || l == "r1"@ {
        Some(WayclipControllerButton::RightTrigger)
    } else if l == "select"@ || l == "back"@ {
        Some(WayclipControllerButton::Select)
    } else if l == "start"@ {
        Some(WayclipControllerButton::Start)
    } else if l == "mode"@ || l == "guide"@ || l == "home"@ {
        Some(WayclipControllerButton::Mode)
    } else if l == "leftthumb"@ || l == "l3"@ || l == "left_thumb"@ {
        Some(WayclipControllerButton::LeftThumb)
    } else if l == "rightthumb"@ || l == "r3"@ || l == "right_thumb"@ {
        Some(WayclipControllerButton::RightThumb)
    } else if l == "dpadup"@ || l == "dpad_up"@ {
        Some(WayclipControllerButton::DPadUp)
    } else if l == "dpaddown"@ || l == "dpad_down"@ {
        Some(WayclipControllerButton::DPadDown)
    } else if l == "dpadleft"@ || l == "dpad_left"@ {
        Some(WayclipControllerButton::DPadLeft)
    } else if l == "dpadright"@ || l == "dpad_right"@ {
        Some(WayclipControllerButton::DPadRight)
    } else {
        None
    }
}

/// What `WayclipControllerButton::from_str` gives for the lowercased input `l`.
pub open spec fn button_parse(l: Seq<char>) -> Result<WayclipControllerButton, ErrorClass> {
    match button_from_lower(l) {
        Some(b) => Ok(b),
        None => Err(ErrorClass::Validation),
    }
}

fn lower_is(l: &[char], name: &str) -> (r: bool)
    ensures
        r == (l@ == name@),
{
    let n = str_chars(name);
    chars_eq(l, n.as_slice())
}

impl WayclipControllerButton {
    /// Reads a button name; names and aliases are compared after Unicode lowercasing.
    pub fn from_str(s: &str) -> (r: Result<Self, WayclipError>)
        ensures
            outcome(r) == button_parse(unicode_lowercase(s@)),
            all_ascii(s@) ==> outcome(r) == button_parse(ascii_lowercase(s@)),
    {
        let lower = to_lowercase(s);
        let l = str_chars(lower.as_str());
        if lower_is(l.as_slice(), "south") || lower_is(l.as_slice(), "a") || lower_is(l.as_slice(), "cross") {
            Ok(WayclipControllerButton::South)
        } else if lower_is(l.as_slice(), "east") || lower_is(l.as_slice(), "b") || lower_is(l.as_slice(), "circle") {
            Ok(WayclipControllerButton::East)
        } else if lower_is(l.as_slice(), "north") || lower_is(l.as_slice(), "y") || lower_is(l.as_slice(), "triangle") {
            Ok(WayclipControllerButton::North)
        } else if lower_is(l.as_slice(), "west") || lower_is(l.as_slice(), "x") || lower_is(l.as_slice(), "square") {
            Ok(WayclipControllerButton::West)
        } else if lower_is(l.as_slice(), "lefttrigger2") || lower_is(l.as_slice(), "lt") || lower_is(l.as_slice(), "l2") {
            Ok(WayclipControllerButton::LeftTrigger2)
        } else if lower_is(l.as_slice(), "lefttrigger") || lower_is(l.as_slice(), "lb") || lower_is(l.as_slice(), "l1") {
            Ok(WayclipControllerButton::LeftTrigger)
        } else if lower_is(l.as_slice(), "righttrigger2") || lower_is(l.as_slice(), "rt") || lower_is(l.as_slice(), "r2") {
            Ok(WayclipControllerButton::RightTrigger2)
        } else if lower_is(l.as_slice(), "righttrigger") || lower_is(l.as_slice(), "rb") || lower_is(l.as_slice(), "r1") {
            Ok(WayclipControllerButton::RightTrigger)
        } else if lower_is(l.as_slice(), "select") || lower_is(l.as_slice(), "back") {
            Ok(WayclipControllerButton::Select)
        } else if lower_is(l.as_slice(), "start") {
            Ok(WayclipControllerButton::Start)
        } else if lower_is(l.as_slice(), "mode") || lower_is(l.as_slice(), "guide") || lower_is(l.as_slice(), "home") {
            Ok(WayclipControllerButton::Mode)
        } else if lower_is(l.as_slice(), "leftthumb") || lower_is(l.as_slice(), "l3") || lower_is(l.as_slice(), "left_thumb") {
            Ok(WayclipControllerButton::LeftThumb)
        } else if lower_is(l.as_slice(), "rightthumb") || lower_is(l.as_slice(), "r3") || lower_is(l.as_slice(), "right_thumb") {
            Ok(WayclipControllerButton::RightThumb)
        } else if lower_is(l.as_slice(), "dpadup") || lower_is(l.as_slice(), "dpad_up") {
            Ok(WayclipControllerButton::DPadUp)
        } else if lower_is(l.as_slice(), "dpaddown") || lower_is(l.as_slice(), "dpad_down") {
            Ok(WayclipControllerButton::DPadDown)
        } else if lower_is(l.as_slice(), "dpadleft") || lower_is(l.as_slice(), "dpad_left") {
            Ok(WayclipControllerButton::DPadLeft)
        } else if lower_is(l.as_slice(), "dpadright") || lower_is(l.as_slice(), "dpad_right") {
            Ok(WayclipControllerButton::DPadRight)
        } else {
            let mut msg = "Invalid controller button: ".to_owned();
            push_str(&mut msg, lower.as_str());
            Err(WayclipError::Validation(msg))
        }
    }

    /// The name of the button, as `Debug` writes it.
    pub open spec fn debug_name(self) -> Seq<char> {
        match self {
            WayclipControllerButton::South => "South"@,
            WayclipControllerButton::East => "East"@,
            WayclipControllerButton::North => "North"@,
            WayclipControllerButton::West => "West"@,
            WayclipControllerButton::LeftTrigger => "LeftTrigger"@,
            WayclipControllerButton::LeftTrigger2 => "LeftTrigger2"@,
            WayclipControllerButton::RightTrigger => "RightTrigger"@,
            WayclipControllerButton::RightTrigger2 => "RightTrigger2"@,
            WayclipControllerButton::Select => "Select"@,
            WayclipControllerButton::Start => "Start"@,
            WayclipControllerButton::Mode => "Mode"@,
            WayclipControllerButton::LeftThumb => "LeftThumb"@,
            WayclipControllerButton::RightThumb => "RightThumb"@,
            WayclipControllerButton::DPadUp => "DPadUp"@,
            WayclipControllerButton::DPadDown => "DPadDown"@,
            WayclipControllerButton::DPadLeft => "DPadLeft"@,
            WayclipControllerButton::DPadRight => "DPadRight"@,
        }
    }

    pub fn name(&self) -> (s: &'static str)
        ensures
            s@ == self.debug_name(),
    {
        match self {
            WayclipControllerButton::South => "South",
            WayclipControllerButton::East => "East",
            WayclipControllerButton::North => "North",
            WayclipControllerButton::West => "West",
            WayclipControllerButton::LeftTrigger => "LeftTrigger",
            WayclipControllerButton::LeftTrigger2 => "LeftTrigger2",
            WayclipControllerButton::RightTrigger => "RightTrigger",
            WayclipControllerButton::RightTrigger2 => "RightTrigger2",
            WayclipControllerButton::Select => "Select",
            WayclipControllerButton::Start => "Start",
            WayclipControllerButton::Mode => "Mode",
            WayclipControllerButton::LeftThumb => "LeftThumb",
            WayclipControllerButton::RightThumb => "RightThumb",
            WayclipControllerButton::DPadUp => "DPadUp",
            WayclipControllerButton::DPadDown => "DPadDown",
            WayclipControllerButton::DPadLeft => "DPadLeft",
            WayclipControllerButton::DPadRight => "DPadRight",
        }
    }
}

/// The buttons that are held together to trigger an action.
#[derive(Debug, Clone, PartialEq, Eq)]
pub struct WayclipControllerCombo {
    /// The buttons themselves
    pub buttons: Vec<WayclipControllerButton>,
}

/// `+`-joined names of the buttons.
pub open spec fn join_names(bs: Seq<WayclipControllerButton>) -> Seq<char>
    decreases bs.len(),
{
    if bs.len() == 0 {
        Seq::empty()
    } else if bs.len() == 1 {
        bs[0].debug_name()
    } else {
        join_names(bs.drop_last()) + seq!['+'] + bs.last().debug_name()
    }
}

/// Reads every piece as a button (after trimming and lowercasing with `lower`), stopping at the
/// first piece that is not one.
pub open spec fn parse_buttons(
    pieces: Seq<Seq<char>>,
    lower: spec_fn(Seq<char>) -> Seq<char>,
) -> Result<Seq<WayclipControllerButton>, ErrorClass>
    decreases pieces.len(),
{
    if pieces.len() == 0 {
        Ok(Seq::empty())
    } else {
        match parse_buttons(pieces.drop_last(), lower) {
            Err(e) => Err(e),
            Ok(bs) => match button_parse(lower(trim(pieces.last()))) {
                Err(e) => Err(e),
                Ok(b) => Ok(bs.push(b)),
            },
        }
    }
}

/// What `WayclipControllerCombo::from_str` gives: the `+`-separated, trimmed button names.
pub open spec fn controller_combo_parse(
    s: Seq<char>,
    lower: spec_fn(Seq<char>) -> Seq<char>,
) -> Result<Seq<WayclipControllerButton>, ErrorClass> {
    parse_buttons(split(s, '+'), lower)
}

impl WayclipControllerCombo {
    /// Whether holding the buttons `held` triggers the combination: the combination has buttons
    /// and all of them are held.
    pub fn is_satisfied(&self, held: &Vec<WayclipControllerButton>) -> (r: bool)
        ensures
            r == (self.buttons@.len() > 0 && forall|i: int|
                0 <= i < self.buttons@.len() ==> held@.contains(#[trigger] self.buttons@[i])),
    {
        if self.buttons.len() == 0 {
            return false;
        }
        let mut i: usize = 0;
        while i < self.buttons.len()
            invariant
                i <= self.buttons@.len(),
                forall|j: int| 0 <= j < i ==> held@.contains(#[trigger] self.buttons@[j]),
            decreases self.buttons@.len() - i,
        {
            let b = self.buttons[i];
            let mut found = false;
            let mut k: usize = 0;
            while k < held.len()
                invariant
                    k <= held@.len(),
                    found ==> held@.contains(b),
                    !found ==> forall|m: int| 0 <= m < k ==> held@[m] != b,
                decreases held@.len() - k,
            {
                if held[k] == b {
                    found = true;
                }
                k = k + 1;
            }
            if !found {
                assert(!held@.contains(self.buttons@[i as int]));
                return false;
            }
            i = i + 1;
        }
        true
    }

    /// The displayed form: the button names joined by `+`.
    pub fn to_string(&self) -> (s: String)
        ensures
            s@ == join_names(self.buttons@),
    {
        let mut s = String::new();
        let mut i: usize = 0;
        assert(self.buttons@.subrange(0, 0) =~= Seq::<WayclipControllerButton>::empty());
        while i < self.buttons.len()
            invariant
                i <= self.buttons@.len(),
                s@ == join_names(self.buttons@.subrange(0, i as int)),
            decreases self.buttons@.len() - i,
        {
            let ghost pre = self.buttons@.subrange(0, i as int);
            let ghost next = self.buttons@.subrange(0, i + 1);
            assert(next.drop_last() =~= pre);
            if i > 0 {
                s.push('+');
            }
            push_str(&mut s, self.buttons[i].name());
            i = i + 1;
            proof {
                if i == 1 {
                    assert(pre =~= Seq::<WayclipControllerButton>::empty());
                }
            }
        }
        assert(self.buttons@.subrange(0, self.buttons@.len() as int) =~= self.buttons@);
        s
    }

    /// Reads `+`-separated button names (each trimmed, compared after Unicode lowercasing).
    pub fn from_str(s: &str) -> (r: Result<Self, WayclipError>)
        ensures
            match controller_combo_parse(s@, |x: Seq<char>| unicode_lowercase(x)) {
                Ok(bs) => (r matches Ok(c) && c.buttons@ == bs),
                Err(e) => (r matches Err(err) && crate::error::class_of(err) == e),
            },
            all_ascii(s@) ==> match controller_combo_parse(s@, |x: Seq<char>| ascii_lowercase(x)) {
                Ok(bs) => (r matches Ok(c) && c.buttons@ == bs),
                Err(e) => (r matches Err(err) && crate::error::class_of(err) == e),
            },
    {
        let chars = str_chars(s);
        let pieces = split_chars(chars.as_slice(), '+');
        let ghost ps = views(pieces@);
        let ghost lower = |x: Seq<char>| unicode_lowercase(x);
        let ghost al = |x: Seq<char>| ascii_lowercase(x);
        proof {
            if all_ascii(s@) {
                crate::text::lemma_split_ascii(s@, '+');
            }
        }
        let mut buttons: Vec<WayclipControllerButton> = Vec::new();
        let mut i: usize = 0;
        assert(ps.subrange(0, 0) =~= Seq::<Seq<char>>::empty());
        while i < pieces.len()
            invariant
                ps == views(pieces@),
                ps == split(s@, '+'),
                lower == (|x: Seq<char>| unicode_lowercase(x)),
                al == (|x: Seq<char>| ascii_lowercase(x)),
                i <= pieces@.len(),
                parse_buttons(ps.subrange(0, i as int), lower) == Ok::<
                    Seq<WayclipControllerButton>,
                    ErrorClass,
                >(buttons@),
                all_ascii(s@) ==> forall|j: int| 0 <= j < ps.len() ==> all_ascii(#[trigger] ps[j]),
                all_ascii(s@) ==> parse_buttons(ps.subrange(0, i as int), al) == Ok::<
                    Seq<WayclipControllerButton>,
                    ErrorClass,
                >(buttons@),
            decreases pieces@.len() - i,
        {
            let ghost pre = ps.subrange(0, i as int);
            let ghost next = ps.subrange(0, i + 1);
            assert(next.drop_last() =~= pre);
            assert(next.last() == pieces@[i as int]@);
            let t = trim_chars(pieces[i].as_slice());
            let ts = string_from_chars(t.as_slice());
            proof {
                if all_ascii(s@) {
                    assert(all_ascii(ps[i as int]));
                    crate::text::lemma_trim_ascii(ps[i as int]);
                }
            }
            match WayclipControllerButton::from_str(ts.as_str()) {
                Ok(b) => {
                    buttons.push(b);
                },
                Err(e) => {
                    proof {
                        lemma_parse_buttons_error(ps, i + 1, lower);
                        if all_ascii(s@) {
                            lemma_parse_buttons_error(ps, i + 1, al);
                        }
                    }
                    return Err(e);
                },
            }
            i = i + 1;
        }
        assert(ps.subrange(0, pieces@.len() as int) =~= ps);
        Ok(WayclipControllerCombo { buttons })
    }
}

proof fn lemma_parse_buttons_error(
    pieces: Seq<Seq<char>>,
    k: int,
    lower: spec_fn(Seq<char>) -> Seq<char>,
)
    requires
        0 <= k <= pieces.len(),
        parse_buttons(pieces.subrange(0, k), lower) is Err,
    ensures
        parse_buttons(pieces, lower) == parse_buttons(pieces.subrange(0, k), lower),
    decreases pieces.len() - k,
{
    if k < pieces.len() {
        assert(pieces.drop_last().subrange(0, k) =~= pieces.subrange(0, k));
        lemma_parse_buttons_error(pieces.drop_last(), k, lower);
    } else {
        assert(pieces.subrange(0, k) =~= pieces);
    }
}

} // verus!

verus! {

spec fn button_reads_back(b: WayclipControllerButton) -> bool {
    &&& clean_piece(b.debug_name())
    &&& button_parse(ascii_lowercase(b.debug_name())) == Ok::<WayclipControllerButton, ErrorClass>(b)
}

proof fn lemma_button_south()
    ensures
        button_reads_back(WayclipControllerButton::South),
{
    reveal_strlit("South");
    reveal_strlit("south");
    reveal_strlit("a");
    reveal_strlit("cross");
    reveal_strlit("east");
    reveal_strlit("b");
    reveal_strlit("circle");
    reveal_strlit("north");
    reveal_strlit("y");
    reveal_strlit("triangle");
    reveal_strlit("west");
    reveal_strlit("x");
    reveal_strlit("square");
    reveal_strlit("lefttrigger2");
    reveal_strlit("lt");
    reveal_strlit("l2");
    reveal_strlit("lefttrigger");
    reveal_strlit("lb");
    reveal_strlit("l1");
    reveal_strlit("righttrigger2");
    reveal_strlit("rt");
    reveal_strlit("r2");
    reveal_strlit("righttrigger");
    reveal_strlit("rb");
    reveal_strlit("r1");
    reveal_strlit("select");
    reveal_strlit("back");
    reveal_strlit("start");
    reveal_strlit("mode");
    reveal_strlit("guide");
    reveal_strlit("home");
    reveal_strlit("leftthumb");
    reveal_strlit("l3");
    reveal_strlit("left_thumb");
    reveal_strlit("rightthumb");
    reveal_strlit("r3");
    reveal_strlit("right_thumb");
    reveal_strlit("dpadup");
    reveal_strlit("dpad_up");
    reveal_strlit("dpaddown");
    reveal_strlit("dpad_down");
    reveal_strlit("dpadleft");
    reveal_strlit("dpad_left");
    reveal_strlit("dpadright");
    reveal_strlit("dpad_right");
    assert(ascii_lowercase("South"@) =~= "south"@);
}

proof fn lemma_button_east()
    ensures
        button_reads_back(WayclipControllerButton::East),
{
    reveal_strlit("East");
    reveal_strlit("south");
    reveal_strlit("a");
    reveal_strlit("cross");
    reveal_strlit("east");
    reveal_strlit("b");
    reveal_strlit("circle");
    reveal_strlit("north");
    reveal_strlit("y");
    reveal_strlit("triangle");
    reveal_strlit("west");
    reveal_strlit("x");
    reveal_strlit("square");
    reveal_strlit("lefttrigger2");
    reveal_strlit("lt");
    reveal_strlit("l2");
    reveal_strlit("lefttrigger");
    reveal_strlit("lb");
    reveal_strlit("l1");
    reveal_strlit("righttrigger2");
    reveal_strlit("rt");
    reveal_strlit("r2");
    reveal_strlit("righttrigger");
    reveal_strlit("rb");
    reveal_strlit("r1");
    reveal_strlit("select");
    reveal_strlit("back");
    reveal_strlit("start");
    reveal_strlit("mode");
    reveal_strlit("guide");
    reveal_strlit("home");
    reveal_strlit("leftthumb");
    reveal_strlit("l3");
    reveal_strlit("left_thumb");
    reveal_strlit("rightthumb");
    reveal_strlit("r3");
    reveal_strlit("right_thumb");
    reveal_strlit("dpadup");
    reveal_strlit("dpad_up");
    reveal_strlit("dpaddown");
    reveal_strlit("dpad_down");
    reveal_strlit("dpadleft");
    reveal_strlit("dpad_left");
    reveal_strlit("dpadright");
    reveal_strlit("dpad_right");
    assert(ascii_lowercase("East"@) =~= "east"@);
}

proof fn lemma_button_north()
    ensures
        button_reads_back(WayclipControllerButton::North),
{
    reveal_strlit("North");
    reveal_strlit("south");
    reveal_strlit("a");
    reveal_strlit("cross");
    reveal_strlit("east");
    reveal_strlit("b");
    reveal_strlit("circle");
    reveal_strlit("north");
    reveal_strlit("y");
    reveal_strlit("triangle");
    reveal_strlit("west");
    reveal_strlit("x");
    reveal_strlit("square");
    reveal_strlit("lefttrigger2");
    reveal_strlit("lt");
    reveal_strlit("l2");
    reveal_strlit("lefttrigger");
    reveal_strlit("lb");
    reveal_strlit("l1");
    reveal_strlit("righttrigger2");
    reveal_strlit("rt");
    reveal_strlit("r2");
    reveal_strlit("righttrigger");
    reveal_strlit("rb");
    reveal_strlit("r1");
    reveal_strlit("select");
    reveal_strlit("back");
    reveal_strlit("start");
    reveal_strlit("mode");
    reveal_strlit("guide");
    reveal_strlit("home");
    reveal_strlit("leftthumb");
    reveal_strlit("l3");
    reveal_strlit("left_thumb");
    reveal_strlit("rightthumb");
    reveal_strlit("r3");
    reveal_strlit("right_thumb");
    reveal_strlit("dpadup");
    reveal_strlit("dpad_up");
    reveal_strlit("dpaddown");
    reveal_strlit("dpad_down");
    reveal_strlit("dpadleft");
    reveal_strlit("dpad_left");
    reveal_strlit("dpadright");
    reveal_strlit("dpad_right");
    assert(ascii_lowercase("North"@) =~= "north"@);
    assert("north"@[0] != "south"@[0]);
    assert("north"@[0] != "cross"@[0]);
}

proof fn lemma_button_west()
    ensures
        button_reads_back(WayclipControllerButton::West),
{
    reveal_strlit("West");
    reveal_strlit("south");
    reveal_strlit("a");
    reveal_strlit("cross");
    reveal_strlit("east");
    reveal_strlit("b");
    reveal_strlit("circle");
    reveal_strlit("north");
    reveal_strlit("y");
    reveal_strlit("triangle");
    reveal_strlit("west");
    reveal_strlit("x");
    reveal_strlit("square");
    reveal_strlit("lefttrigger2");
    reveal_strlit("lt");
    reveal_strlit("l2");
    reveal_strlit("lefttrigger");
    reveal_strlit("lb");
    reveal_strlit("l1");
    reveal_strlit("righttrigger2");
    reveal_strlit("rt");
    reveal_strlit("r2");
    reveal_strlit("righttrigger");
    reveal_strlit("rb");
    reveal_strlit("r1");
    reveal_strlit("select");
    reveal_strlit("back");
    reveal_strlit("start");
    reveal_strlit("mode");
    reveal_strlit("guide");
    reveal_strlit("home");
    reveal_strlit("leftthumb");
    reveal_strlit("l3");
    reveal_strlit("left_thumb");
    reveal_strlit("rightthumb");
    reveal_strlit("r3");
    reveal_strlit("right_thumb");
    reveal_strlit("dpadup");
    reveal_strlit("dpad_up");
    reveal_strlit("dpaddown");
    reveal_strlit("dpad_down");
    reveal_strlit("dpadleft");
    reveal_strlit("dpad_left");
    reveal_strlit("dpadright");
    reveal_strlit("dpad_right");
    assert(ascii_lowercase("West"@) =~= "west"@);
    assert("west"@[0] != "east"@[0]);
}

proof fn lemma_button_left_trigger()
    ensures
        button_reads_back(WayclipControllerButton::LeftTrigger),
{
    reveal_strlit("LeftTrigger");
    reveal_strlit("south");
    reveal_strlit("a");
    reveal_strlit("cross");
    reveal_strlit("east");
    reveal_strlit("b");
    reveal_strlit("circle");
    reveal_strlit("north");
    reveal_strlit("y");
    reveal_strlit("triangle");
    reveal_strlit("west");
    reveal_strlit("x");
    reveal_strlit("square");
    reveal_strlit("lefttrigger2");
    reveal_strlit("lt");
    reveal_strlit("l2");
    reveal_strlit("lefttrigger");
    reveal_strlit("lb");
    reveal_strlit("l1");
    reveal_strlit("righttrigger2");
    reveal_strlit("rt");
    reveal_strlit("r2");
    reveal_strlit("righttrigger");
    reveal_strlit("rb");
    reveal_strlit("r1");
    reveal_strlit("select");
    reveal_strlit("back");
    reveal_strlit("start");
    reveal_strlit("mode");
    reveal_strlit("guide");
    reveal_strlit("home");
    reveal_strlit("leftthumb");
    reveal_strlit("l3");
    reveal_strlit("left_thumb");
    reveal_strlit("rightthumb");
    reveal_strlit("r3");
    reveal_strlit("right_thumb");
    reveal_strlit("dpadup");
    reveal_strlit("dpad_up");
    reveal_strlit("dpaddown");
    reveal_strlit("dpad_down");
    reveal_strlit("dpadleft");
    reveal_strlit("dpad_left");
    reveal_strlit("dpadright");
    reveal_strlit("dpad_right");
    assert(ascii_lowercase("LeftTrigger"@) =~= "lefttrigger"@);
}

proof fn lemma_button_left_trigger2()
    ensures
        button_reads_back(WayclipControllerButton::LeftTrigger2),
{
    reveal_strlit("LeftTrigger2");
    reveal_strlit("south");
    reveal_strlit("a");
    reveal_strlit("cross");
    reveal_strlit("east");
    reveal_strlit("b");
    reveal_strlit("circle");
    reveal_strlit("north");
    reveal_strlit("y");
    reveal_strlit("triangle");
    reveal_strlit("west");
    reveal_strlit("x");
    reveal_strlit("square");
    reveal_strlit("lefttrigger2");
    reveal_strlit("lt");
    reveal_strlit("l2");
    reveal_strlit("lefttrigger");
    reveal_strlit("lb");
    reveal_strlit("l1");
    reveal_strlit("righttrigger2");
    reveal_strlit("rt");
    reveal_strlit("r2");
    reveal_strlit("righttrigger");
    reveal_strlit("rb");
    reveal_strlit("r1");
    reveal_strlit("select");
    reveal_strlit("back");
    reveal_strlit("start");
    reveal_strlit("mode");
    reveal_strlit("guide");
    reveal_strlit("home");
    reveal_strlit("leftthumb");
    reveal_strlit("l3");
    reveal_strlit("left_thumb");
    reveal_strlit("rightthumb");
    reveal_strlit("r3");
    reveal_strlit("right_thumb");
    reveal_strlit("dpadup");
    reveal_strlit("dpad_up");
    reveal_strlit("dpaddown");
    reveal_strlit("dpad_down");
    reveal_strlit("dpadleft");
    reveal_strlit("dpad_left");
    reveal_strlit("dpadright");
    reveal_strlit("dpad_right");
    assert(ascii_lowercase("LeftTrigger2"@) =~= "lefttrigger2"@);
}

proof fn lemma_button_right_trigger()
    ensures
        button_reads_back(WayclipControllerButton::RightTrigger),
{
    reveal_strlit("RightTrigger");
    reveal_strlit("south");
    reveal_strlit("a");
    reveal_strlit("cross");
    reveal_strlit("east");
    reveal_strlit("b");
    reveal_strlit("circle");
    reveal_strlit("north");
    reveal_strlit("y");
    reveal_strlit("triangle");
    reveal_strlit("west");
    reveal_strlit("x");
    reveal_strlit("square");
    reveal_strlit("lefttrigger2");
    reveal_strlit("lt");
    reveal_strlit("l2");
    reveal_strlit("lefttrigger");
    reveal_strlit("lb");
    reveal_strlit("l1");
    reveal_strlit("righttrigger2");
    reveal_strlit("rt");
    reveal_strlit("r2");
    reveal_strlit("righttrigger");
    reveal_strlit("rb");
    reveal_strlit("r1");
    reveal_strlit("select");
    reveal_strlit("back");
    reveal_strlit("start");
    reveal_strlit("mode");
    reveal_strlit("guide");
    reveal_strlit("home");
    reveal_strlit("leftthumb");
    reveal_strlit("l3");
    reveal_strlit("left_thumb");
    reveal_strlit("rightthumb");
    reveal_strlit("r3");
    reveal_strlit("right_thumb");
    reveal_strlit("dpadup");
    reveal_strlit("dpad_up");
    reveal_strlit("dpaddown");
    reveal_strlit("dpad_down");
    reveal_strlit("dpadleft");
    reveal_strlit("dpad_left");
    reveal_strlit("dpadright");
    reveal_strlit("dpad_right");
    assert(ascii_lowercase("RightTrigger"@) =~= "righttrigger"@);
    assert("righttrigger"@[0] != "lefttrigger2"@[0]);
}

proof fn lemma_button_right_trigger2()
    ensures
        button_reads_back(WayclipControllerButton::RightTrigger2),
{
    reveal_strlit("RightTrigger2");
    reveal_strlit("south");
    reveal_strlit("a");
    reveal_strlit("cross");
    reveal_strlit("east");
    reveal_strlit("b");
    reveal_strlit("circle");
    reveal_strlit("north");
    reveal_strlit("y");
    reveal_strlit("triangle");
    reveal_strlit("west");
    reveal_strlit("x");
    reveal_strlit("square");
    reveal_strlit("lefttrigger2");
    reveal_strlit("lt");
    reveal_strlit("l2");
    reveal_strlit("lefttrigger");
    reveal_strlit("lb");
    reveal_strlit("l1");
    reveal_strlit("righttrigger2");
    reveal_strlit("rt");
    reveal_strlit("r2");
    reveal_strlit("righttrigger");
    reveal_strlit("rb");
    reveal_strlit("r1");
    reveal_strlit("select");
    reveal_strlit("back");
    reveal_strlit("start");
    reveal_strlit("mode");
    reveal_strlit("guide");
    reveal_strlit("home");
    reveal_strlit("leftthumb");
    reveal_strlit("l3");
    reveal_strlit("left_thumb");
    reveal_strlit("rightthumb");
    reveal_strlit("r3");
    reveal_strlit("right_thumb");
    reveal_strlit("dpadup");
    reveal_strlit("dpad_up");
    reveal_strlit("dpaddown");
    reveal_strlit("dpad_down");
    reveal_strlit("dpadleft");
    reveal_strlit("dpad_left");
    reveal_strlit("dpadright");
    reveal_strlit("dpad_right");
    assert(ascii_lowercase("RightTrigger2"@) =~= "righttrigger2"@);
}

proof fn lemma_button_select()
    ensures
        button_reads_back(WayclipControllerButton::Select),
{
    reveal_strlit("Select");
    reveal_strlit("south");
    reveal_strlit("a");
    reveal_strlit("cross");
    reveal_strlit("east");
    reveal_strlit("b");
    reveal_strlit("circle");
    reveal_strlit("north");
    reveal_strlit("y");
    reveal_strlit("triangle");
    reveal_strlit("west");
    reveal_strlit("x");
    reveal_strlit("square");
    reveal_strlit("lefttrigger2");
    reveal_strlit("lt");
    reveal_strlit("l2");
    reveal_strlit("lefttrigger");
    reveal_strlit("lb");
    reveal_strlit("l1");
    reveal_strlit("righttrigger2");
    reveal_strlit("rt");
    reveal_strlit("r2");
    reveal_strlit("righttrigger");
    reveal_strlit("rb");
    reveal_strlit("r1");
    reveal_strlit("select");
    reveal_strlit("back");
    reveal_strlit("start");
    reveal_strlit("mode");
    reveal_strlit("guide");
    reveal_strlit("home");
    reveal_strlit("leftthumb");
    reveal_strlit("l3");
    reveal_strlit("left_thumb");
    reveal_strlit("rightthumb");
    reveal_strlit("r3");
    reveal_strlit("right_thumb");
    reveal_strlit("dpadup");
    reveal_strlit("dpad_up");
    reveal_strlit("dpaddown");
    reveal_strlit("dpad_down");
    reveal_strlit("dpadleft");
    reveal_strlit("dpad_left");
    reveal_strlit("dpadright");
    reveal_strlit("dpad_right");
    assert(ascii_lowercase("Select"@) =~= "select"@);
    assert("select"@[0] != "circle"@[0]);
    assert("select"@[1] != "square"@[1]);
}

proof fn lemma_button_start()
    ensures
        button_reads_back(WayclipControllerButton::Start),
{
    reveal_strlit("Start");
    reveal_strlit("south");
    reveal_strlit("a");
    reveal_strlit("cross");
    reveal_strlit("east");
    reveal_strlit("b");
    reveal_strlit("circle");
    reveal_strlit("north");
    reveal_strlit("y");
    reveal_strlit("triangle");
    reveal_strlit("west");
    reveal_strlit("x");
    reveal_strlit("square");
    reveal_strlit("lefttrigger2");
    reveal_strlit("lt");
    reveal_strlit("l2");
    reveal_strlit("lefttrigger");
    reveal_strlit("lb");
    reveal_strlit("l1");
    reveal_strlit("righttrigger2");
    reveal_strlit("rt");
    reveal_strlit("r2");
    reveal_strlit("righttrigger");
    reveal_strlit("rb");
    reveal_strlit("r1");
    reveal_strlit("select");
    reveal_strlit("back");
    reveal_strlit("start");
    reveal_strlit("mode");
    reveal_strlit("guide");
    reveal_strlit("home");
    reveal_strlit("leftthumb");
    reveal_strlit("l3");
    reveal_strlit("left_thumb");
    reveal_strlit("rightthumb");
    reveal_strlit("r3");
    reveal_strlit("right_thumb");
    reveal_strlit("dpadup");
    reveal_strlit("dpad_up");
    reveal_strlit("dpaddown");
    reveal_strlit("dpad_down");
    reveal_strlit("dpadleft");
    reveal_strlit("dpad_left");
    reveal_strlit("dpadright");
    reveal_strlit("dpad_right");
    assert(ascii_lowercase("Start"@) =~= "start"@);
    assert("start"@[1] != "south"@[1]);
    assert("start"@[0] != "cross"@[0]);
    assert("start"@[0] != "north"@[0]);
}

proof fn lemma_button_mode()
    ensures
        button_reads_back(WayclipControllerButton::Mode),
{
    reveal_strlit("Mode");
    reveal_strlit("south");
    reveal_strlit("a");
    reveal_strlit("cross");
    reveal_strlit("east");
    reveal_strlit("b");
    reveal_strlit("circle");
    reveal_strlit("north");
    reveal_strlit("y");
    reveal_strlit("triangle");
    reveal_strlit("west");
    reveal_strlit("x");
    reveal_strlit("square");
    reveal_strlit("lefttrigger2");
    reveal_strlit("lt");
    reveal_strlit("l2");
    reveal_strlit("lefttrigger");
    reveal_strlit("lb");
    reveal_strlit("l1");
    reveal_strlit("righttrigger2");
    reveal_strlit("rt");
    reveal_strlit("r2");
    reveal_strlit("righttrigger");
    reveal_strlit("rb");
    reveal_strlit("r1");
    reveal_strlit("select");
    reveal_strlit("back");
    reveal_strlit("start");
    reveal_strlit("mode");
    reveal_strlit("guide");
    reveal_strlit("home");
    reveal_strlit("leftthumb");
    reveal_strlit("l3");
    reveal_strlit("left_thumb");
    reveal_strlit("rightthumb");
    reveal_strlit("r3");
    reveal_strlit("right_thumb");
    reveal_strlit("dpadup");
    reveal_strlit("dpad_up");
    reveal_strlit("dpaddown");
    reveal_strlit("dpad_down");
    reveal_strlit("dpadleft");
    reveal_strlit("dpad_left");
    reveal_strlit("dpadright");
    reveal_strlit("dpad_right");
    assert(ascii_lowercase("Mode"@) =~= "mode"@);
    assert("mode"@[0] != "east"@[0]);
    assert("mode"@[0] != "west"@[0]);
    assert("mode"@[0] != "back"@[0]);
}

proof fn lemma_button_left_thumb()
    ensures
        button_reads_back(WayclipControllerButton::LeftThumb),
{
    reveal_strlit("LeftThumb");
    reveal_strlit("south");
    reveal_strlit("a");
    reveal_strlit("cross");
    reveal_strlit("east");
    reveal_strlit("b");
    reveal_strlit("circle");
    reveal_strlit("north");
    reveal_strlit("y");
    reveal_strlit("triangle");
    reveal_strlit("west");
    reveal_strlit("x");
    reveal_strlit("square");
    reveal_strlit("lefttrigger2");
    reveal_strlit("lt");
    reveal_strlit("l2");
    reveal_strlit("lefttrigger");
    reveal_strlit("lb");
    reveal_strlit("l1");
    reveal_strlit("righttrigger2");
    reveal_strlit("rt");
    reveal_strlit("r2");
    reveal_strlit("righttrigger");
    reveal_strlit("rb");
    reveal_strlit("r1");
    reveal_strlit("select");
    reveal_strlit("back");
    reveal_strlit("start");
    reveal_strlit("mode");
    reveal_strlit("guide");
    reveal_strlit("home");
    reveal_strlit("leftthumb");
    reveal_strlit("l3");
    reveal_strlit("left_thumb");
    reveal_strlit("rightthumb");
    reveal_strlit("r3");
    reveal_strlit("right_thumb");
    reveal_strlit("dpadup");
    reveal_strlit("dpad_up");
    reveal_strlit("dpaddown");
    reveal_strlit("dpad_down");
    reveal_strlit("dpadleft");
    reveal_strlit("dpad_left");
    reveal_strlit("dpadright");
    reveal_strlit("dpad_right");
    assert(ascii_lowercase("LeftThumb"@) =~= "leftthumb"@);
}

proof fn lemma_button_right_thumb()
    ensures
        button_reads_back(WayclipControllerButton::RightThumb),
{
    reveal_strlit("RightThumb");
    reveal_strlit("south");
    reveal_strlit("a");
    reveal_strlit("cross");
    reveal_strlit("east");
    reveal_strlit("b");
    reveal_strlit("circle");
    reveal_strlit("north");
    reveal_strlit("y");
    reveal_strlit("triangle");
    reveal_strlit("west");
    reveal_strlit("x");
    reveal_strlit("square");
    reveal_strlit("lefttrigger2");
    reveal_strlit("lt");
    reveal_strlit("l2");
    reveal_strlit("lefttrigger");
    reveal_strlit("lb");
    reveal_strlit("l1");
    reveal_strlit("righttrigger2");
    reveal_strlit("rt");
    reveal_strlit("r2");
    reveal_strlit("righttrigger");
    reveal_strlit("rb");
    reveal_strlit("r1");
    reveal_strlit("select");
    reveal_strlit("back");
    reveal_strlit("start");
    reveal_strlit("mode");
    reveal_strlit("guide");
    reveal_strlit("home");
    reveal_strlit("leftthumb");
    reveal_strlit("l3");
    reveal_strlit("left_thumb");
    reveal_strlit("rightthumb");
    reveal_strlit("r3");
    reveal_strlit("right_thumb");
    reveal_strlit("dpadup");
    reveal_strlit("dpad_up");
    reveal_strlit("dpaddown");
    reveal_strlit("dpad_down");
    reveal_strlit("dpadleft");
    reveal_strlit("dpad_left");
    reveal_strlit("dpadright");
    reveal_strlit("dpad_right");
    assert(ascii_lowercase("RightThumb"@) =~= "rightthumb"@);
    assert("rightthumb"@[0] != "left_thumb"@[0]);
}

proof fn lemma_button_d_pad_up()
    ensures
        button_reads_back(WayclipControllerButton::DPadUp),
{
    reveal_strlit("DPadUp");
    reveal_strlit("south");
    reveal_strlit("a");
    reveal_strlit("cross");
    reveal_strlit("east");
    reveal_strlit("b");
    reveal_strlit("circle");
    reveal_strlit("north");
    reveal_strlit("y");
    reveal_strlit("triangle");
    reveal_strlit("west");
    reveal_strlit("x");
    reveal_strlit("square");
    reveal_strlit("lefttrigger2");
    reveal_strlit("lt");
    reveal_strlit("l2");
    reveal_strlit("lefttrigger");
    reveal_strlit("lb");
    reveal_strlit("l1");
    reveal_strlit("righttrigger2");
    reveal_strlit("rt");
    reveal_strlit("r2");
    reveal_strlit("righttrigger");
    reveal_strlit("rb");
    reveal_strlit("r1");
    reveal_strlit("select");
    reveal_strlit("back");
    reveal_strlit("start");
    reveal_strlit("mode");
    reveal_strlit("guide");
    reveal_strlit("home");
    reveal_strlit("leftthumb");
    reveal_strlit("l3");
    reveal_strlit("left_thumb");
    reveal_strlit("rightthumb");
    reveal_strlit("r3");
    reveal_strlit("right_thumb");
    reveal_strlit("dpadup");
    reveal_strlit("dpad_up");
    reveal_strlit("dpaddown");
    reveal_strlit("dpad_down");
    reveal_strlit("dpadleft");
    reveal_strlit("dpad_left");
    reveal_strlit("dpadright");
    reveal_strlit("dpad_right");
    assert(ascii_lowercase("DPadUp"@) =~= "dpadup"@);
    assert("dpadup"@[0] != "circle"@[0]);
    assert("dpadup"@[0] != "square"@[0]);
    assert("dpadup"@[0] != "select"@[0]);
}

proof fn lemma_button_d_pad_down()
    ensures
        button_reads_back(WayclipControllerButton::DPadDown),
{
    reveal_strlit("DPadDown");
    reveal_strlit("south");
    reveal_strlit("a");
    reveal_strlit("cross");
    reveal_strlit("east");
    reveal_strlit("b");
    reveal_strlit("circle");
    reveal_strlit("north");
    reveal_strlit("y");
    reveal_strlit("triangle");
    reveal_strlit("west");
    reveal_strlit("x");
    reveal_strlit("square");
    reveal_strlit("lefttrigger2");
    reveal_strlit("lt");
    reveal_strlit("l2");
    reveal_strlit("lefttrigger");
    reveal_strlit("lb");
    reveal_strlit("l1");
    reveal_strlit("righttrigger2");
    reveal_strlit("rt");
    reveal_strlit("r2");
    reveal_strlit("righttrigger");
    reveal_strlit("rb");
    reveal_strlit("r1");
    reveal_strlit("select");
    reveal_strlit("back");
    reveal_strlit("start");
    reveal_strlit("mode");
    reveal_strlit("guide");
    reveal_strlit("home");
    reveal_strlit("leftthumb");
    reveal_strlit("l3");
    reveal_strlit("left_thumb");
    reveal_strlit("rightthumb");
    reveal_strlit("r3");
    reveal_strlit("right_thumb");
    reveal_strlit("dpadup");
    reveal_strlit("dpad_up");
    reveal_strlit("dpaddown");
    reveal_strlit("dpad_down");
    reveal_strlit("dpadleft");
    reveal_strlit("dpad_left");
    reveal_strlit("dpadright");
    reveal_strlit("dpad_right");
    assert(ascii_lowercase("DPadDown"@) =~= "dpaddown"@);
    assert("dpaddown"@[0] != "triangle"@[0]);
}

proof fn lemma_button_d_pad_left()
    ensures
        button_reads_back(WayclipControllerButton::DPadLeft),
{
    reveal_strlit("DPadLeft");
    reveal_strlit("south");
    reveal_strlit("a");
    reveal_strlit("cross");
    reveal_strlit("east");
    reveal_strlit("b");
    reveal_strlit("circle");
    reveal_strlit("north");
    reveal_strlit("y");
    reveal_strlit("triangle");
    reveal_strlit("west");
    reveal_strlit("x");
    reveal_strlit("square");
    reveal_strlit("lefttrigger2");
    reveal_strlit("lt");
    reveal_strlit("l2");
    reveal_strlit("lefttrigger");
    reveal_strlit("lb");
    reveal_strlit("l1");
    reveal_strlit("righttrigger2");
    reveal_strlit("rt");
    reveal_strlit("r2");
    reveal_strlit("righttrigger");
    reveal_strlit("rb");
    reveal_strlit("r1");
    reveal_strlit("select");
    reveal_strlit("back");
    reveal_strlit("start");
    reveal_strlit("mode");
    reveal_strlit("guide");
    reveal_strlit("home");
    reveal_strlit("leftthumb");
    reveal_strlit("l3");
    reveal_strlit("left_thumb");
    reveal_strlit("rightthumb");
    reveal_strlit("r3");
    reveal_strlit("right_thumb");
    reveal_strlit("dpadup");
    reveal_strlit("dpad_up");
    reveal_strlit("dpaddown");
    reveal_strlit("dpad_down");
    reveal_strlit("dpadleft");
    reveal_strlit("dpad_left");
    reveal_strlit("dpadright");
    reveal_strlit("dpad_right");
    assert(ascii_lowercase("DPadLeft"@) =~= "dpadleft"@);
    assert("dpadleft"@[0] != "triangle"@[0]);
    assert("dpadleft"@[4] != "dpaddown"@[4]);
}

proof fn lemma_button_d_pad_right()
    ensures
        button_reads_back(WayclipControllerButton::DPadRight),
{
    reveal_strlit("DPadRight");
    reveal_strlit("south");
    reveal_strlit("a");
    reveal_strlit("cross");
    reveal_strlit("east");
    reveal_strlit("b");
    reveal_strlit("circle");
    reveal_strlit("north");
    reveal_strlit("y");
    reveal_strlit("triangle");
    reveal_strlit("west");
    reveal_strlit("x");
    reveal_strlit("square");
    reveal_strlit("lefttrigger2");
    reveal_strlit("lt");
    reveal_strlit("l2");
    reveal_strlit("lefttrigger");
    reveal_strlit("lb");
    reveal_strlit("l1");
    reveal_strlit("righttrigger2");
    reveal_strlit("rt");
    reveal_strlit("r2");
    reveal_strlit("righttrigger");
    reveal_strlit("rb");
    reveal_strlit("r1");
    reveal_strlit("select");
    reveal_strlit("back");
    reveal_strlit("start");
    reveal_strlit("mode");
    reveal_strlit("guide");
    reveal_strlit("home");
    reveal_strlit("leftthumb");
    reveal_strlit("l3");
    reveal_strlit("left_thumb");
    reveal_strlit("rightthumb");
    reveal_strlit("r3");
    reveal_strlit("right_thumb");
    reveal_strlit("dpadup");
    reveal_strlit("dpad_up");
    reveal_strlit("dpaddown");
    reveal_strlit("dpad_down");
    reveal_strlit("dpadleft");
    reveal_strlit("dpad_left");
    reveal_strlit("dpadright");
    reveal_strlit("dpad_right");
    assert(ascii_lowercase("DPadRight"@) =~= "dpadright"@);
    assert("dpadright"@[0] != "leftthumb"@[0]);
    assert("dpadright"@[4] != "dpad_down"@[4]);
    assert("dpadright"@[4] != "dpad_left"@[4]);
}

proof fn lemma_button_round_trip(b: WayclipControllerButton)
    ensures
        button_reads_back(b),
{
    match b {
        WayclipControllerButton::South => lemma_button_south(),
        WayclipControllerButton::East => lemma_button_east(),
        WayclipControllerButton::North => lemma_button_north(),
        WayclipControllerButton::West => lemma_button_west(),
        WayclipControllerButton::LeftTrigger => lemma_button_left_trigger(),
        WayclipControllerButton::LeftTrigger2 => lemma_button_left_trigger2(),
        WayclipControllerButton::RightTrigger => lemma_button_right_trigger(),
        WayclipControllerButton::RightTrigger2 => lemma_button_right_trigger2(),
        WayclipControllerButton::Select => lemma_button_select(),
        WayclipControllerButton::Start => lemma_button_start(),
        WayclipControllerButton::Mode => lemma_button_mode(),
        WayclipControllerButton::LeftThumb => lemma_button_left_thumb(),
        WayclipControllerButton::RightThumb => lemma_button_right_thumb(),
        WayclipControllerButton::DPadUp => lemma_button_d_pad_up(),
        WayclipControllerButton::DPadDown => lemma_button_d_pad_down(),
        WayclipControllerButton::DPadLeft => lemma_button_d_pad_left(),
        WayclipControllerButton::DPadRight => lemma_button_d_pad_right(),
    }
}

proof fn lemma_split_join_names(bs: Seq<WayclipControllerButton>)
    requires
        bs.len() > 0,
    ensures
        split(join_names(bs), '+') == bs.map_values(|b: WayclipControllerButton| b.debug_name()),
        all_ascii(join_names(bs)),
    decreases bs.len(),
{
    lemma_button_round_trip(bs.last());
    let names = bs.map_values(|b: WayclipControllerButton| b.debug_name());
    if bs.len() == 1 {
        crate::text::lemma_split_without_sep(bs[0].debug_name(), '+');
        assert(names =~= seq![bs[0].debug_name()]);
    } else {
        let init = bs.drop_last();
        lemma_split_join_names(init);
        let j = join_names(init);
        let l = bs.last().debug_name();
        crate::text::lemma_split_concat_sep(j, '+', l);
        crate::text::lemma_split_without_sep(l, '+');
        assert(names =~= init.map_values(|b: WayclipControllerButton| b.debug_name()) + seq![l]);
        let r = join_names(bs);
        assert forall|i: int| 0 <= i < r.len() implies crate::text::is_ascii_char(#[trigger] r[i]) by {
            if i < j.len() {
                assert(r[i] == j[i]);
            } else if i > j.len() {
                assert(r[i] == l[i - j.len() - 1]);
            }
        }
    }
}

proof fn lemma_parse_button_names(bs: Seq<WayclipControllerButton>)
    ensures
        parse_buttons(
            bs.map_values(|b: WayclipControllerButton| b.debug_name()),
            |x: Seq<char>| ascii_lowercase(x),
        ) == Ok::<Seq<WayclipControllerButton>, ErrorClass>(bs),
    decreases bs.len(),
{
    if bs.len() > 0 {
        let init = bs.drop_last();
        lemma_parse_button_names(init);
        let names = bs.map_values(|b: WayclipControllerButton| b.debug_name());
        assert(names.drop_last() =~= init.map_values(|b: WayclipControllerButton| b.debug_name()));
        let l = bs.last().debug_name();
        lemma_button_round_trip(bs.last());
        crate::text::lemma_trim_noop(l);
        assert(init.push(bs.last()) =~= bs);
    } else {
        assert(bs.map_values(|b: WayclipControllerButton| b.debug_name()) =~= Seq::<Seq<char>>::empty());
        assert(bs =~= Seq::<WayclipControllerButton>::empty());
    }
}

/// Law: a combination of at least one button is displayed as an ASCII string that
/// `WayclipControllerCombo::from_str` reads back as the same buttons, in the same order.
pub proof fn law_controller_combo_round_trip(bs: Seq<WayclipControllerButton>)
    requires
        bs.len() > 0,
    ensures
        all_ascii(join_names(bs)),
        controller_combo_parse(join_names(bs), |x: Seq<char>| ascii_lowercase(x)) == Ok::<
            Seq<WayclipControllerButton>,
            ErrorClass,
        >(bs),
{
    lemma_split_join_names(bs);
    lemma_parse_button_names(bs);
}

} // verus!
