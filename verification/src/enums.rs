//! The closed enumerations of the toolkit, each with its integer tag.
//!
//! A tag is turned back into a value only by a conversion that fails on a tag
//! the enumeration does not have: no bit pattern is ever reinterpreted.

use vstd::prelude::*;
use crate::error::{is_unrecognized_tag, unrecognized_tag, FltkError};

verus! {

/// An enumeration that is kept in a widget as an integer type tag.
pub trait WidgetType: Sized {
    /// The integer that stands for this value.
    spec fn tag(self) -> i32;

    /// The value that `val` stands for, if there is one.
    spec fn of_tag(val: i32) -> Option<Self>;

    /// Every value is found again from its tag.
    proof fn tag_round_trip(self)
        ensures
            Self::of_tag(self.tag()) == Some(self),
    ;

    /// A tag names at most the value it was made from.
    proof fn of_tag_is_inverse(val: i32)
        ensures
            Self::of_tag(val) matches Some(t) ==> t.tag() == val,
    ;

    /// The integer that stands for this value.
    fn to_int(self) -> (r: i32)
        ensures
            r == self.tag(),
    ;

    /// The value that `val` stands for; an unrecognised tag is an error.
    fn from_i32(val: i32) -> (r: Result<Self, FltkError>)
        ensures
            r matches Ok(t) ==> Self::of_tag(val) == Some(t),
            r matches Err(e) ==> Self::of_tag(val) is None && is_unrecognized_tag(e),
    ;
}

/// A colour of the toolkit's standard palette, by its palette index.
#[derive(Clone, Copy, Debug, PartialEq, Eq, Hash, Structural)]
pub enum Color {
    ForeGround,
    BackGround2,
    Inactive,
    Selection,
    Gray0,
    Dark3,
    Dark2,
    Dark1,
    BackGround,
    Light1,
    Light2,
    Light3,
    Black,
    Red,
    Green,
    Yellow,
    Blue,
    Magenta,
    Cyan,
    DarkRed,
    DarkGreen,
    DarkYellow,
    DarkBlue,
    DarkMagenta,
    DarkCyan,
    White,
}

impl Color {
    /// The integer that stands for this value.
    pub open spec fn tag(self) -> i32 {
        match self {
            Color::ForeGround => 0,
            Color::BackGround2 => 7,
            Color::Inactive => 8,
            Color::Selection => 15,
            Color::Gray0 => 32,
            Color::Dark3 => 39,
            Color::Dark2 => 45,
            Color::Dark1 => 47,
            Color::BackGround => 49,
            Color::Light1 => 50,
            Color::Light2 => 52,
            Color::Light3 => 54,
            Color::Black => 56,
            Color::Red => 88,
            Color::Green => 63,
            Color::Yellow => 95,
            Color::Blue => 216,
            Color::Magenta => 248,
            Color::Cyan => 223,
            Color::DarkRed => 72,
            Color::DarkGreen => 60,
            Color::DarkYellow => 76,
            Color::DarkBlue => 136,
            Color::DarkMagenta => 152,
            Color::DarkCyan => 140,
            Color::White => 255,
        }
    }

    /// The value that `val` stands for, if there is one.
    pub open spec fn of_tag(val: i32) -> Option<Color> {
        if val == 0 {
            Some(Color::ForeGround)
        } else if val == 7 {
            Some(Color::BackGround2)
        } else if val == 8 {
            Some(Color::Inactive)
        } else if val == 15 {
            Some(Color::Selection)
        } else if val == 32 {
            Some(Color::Gray0)
        } else if val == 39 {
            Some(Color::Dark3)
        } else if val == 45 {
            Some(Color::Dark2)
        } else if val == 47 {
            Some(Color::Dark1)
        } else if val == 49 {
            Some(Color::BackGround)
        } else if val == 50 {
            Some(Color::Light1)
        } else if val == 52 {
            Some(Color::Light2)
        } else if val == 54 {
            Some(Color::Light3)
        } else if val == 56 {
            Some(Color::Black)
        } else if val == 88 {
            Some(Color::Red)
        } else if val == 63 {
            Some(Color::Green)
        } else if val == 95 {
            Some(Color::Yellow)
        } else if val == 216 {
            Some(Color::Blue)
        } else if val == 248 {
            Some(Color::Magenta)
        } else if val == 223 {
            Some(Color::Cyan)
        } else if val == 72 {
            Some(Color::DarkRed)
        } else if val == 60 {
            Some(Color::DarkGreen)
        } else if val == 76 {
            Some(Color::DarkYellow)
        } else if val == 136 {
            Some(Color::DarkBlue)
        } else if val == 152 {
            Some(Color::DarkMagenta)
        } else if val == 140 {
            Some(Color::DarkCyan)
        } else if val == 255 {
            Some(Color::White)
        } else {
            None
        }
    }

    /// Every value is found again from its tag, and a tag names at most the
    /// value it was made from.
    pub proof fn tag_round_trip(self, val: i32)
        ensures
            Color::of_tag(self.tag()) == Some(self),
            Color::of_tag(val) matches Some(t) ==> t.tag() == val,
    {
    }

    /// The integer that stands for this value.
    pub fn to_i32(self) -> (r: i32)
        ensures
            r == self.tag(),
    {
        match self {
            Color::ForeGround => 0,
            Color::BackGround2 => 7,
            Color::Inactive => 8,
            Color::Selection => 15,
            Color::Gray0 => 32,
            Color::Dark3 => 39,
            Color::Dark2 => 45,
            Color::Dark1 => 47,
            Color::BackGround => 49,
            Color::Light1 => 50,
            Color::Light2 => 52,
            Color::Light3 => 54,
            Color::Black => 56,
            Color::Red => 88,
            Color::Green => 63,
            Color::Yellow => 95,
            Color::Blue => 216,
            Color::Magenta => 248,
            Color::Cyan => 223,
            Color::DarkRed => 72,
            Color::DarkGreen => 60,
            Color::DarkYellow => 76,
            Color::DarkBlue => 136,
            Color::DarkMagenta => 152,
            Color::DarkCyan => 140,
            Color::White => 255,
        }
    }

    /// The value that `val` stands for; an unrecognised tag is an error.
    pub fn from_i32(val: i32) -> (r: Result<Color, FltkError>)
        ensures
            r matches Ok(t) ==> Color::of_tag(val) == Some(t),
            r matches Err(e) ==> Color::of_tag(val) is None && is_unrecognized_tag(e),
    {
        match val {
            0 => Ok(Color::ForeGround),
            7 => Ok(Color::BackGround2),
            8 => Ok(Color::Inactive),
            15 => Ok(Color::Selection),
            32 => Ok(Color::Gray0),
            39 => Ok(Color::Dark3),
            45 => Ok(Color::Dark2),
            47 => Ok(Color::Dark1),
            49 => Ok(Color::BackGround),
            50 => Ok(Color::Light1),
            52 => Ok(Color::Light2),
            54 => Ok(Color::Light3),
            56 => Ok(Color::Black),
            88 => Ok(Color::Red),
            63 => Ok(Color::Green),
            95 => Ok(Color::Yellow),
            216 => Ok(Color::Blue),
            248 => Ok(Color::Magenta),
            223 => Ok(Color::Cyan),
            72 => Ok(Color::DarkRed),
            60 => Ok(Color::DarkGreen),
            76 => Ok(Color::DarkYellow),
            136 => Ok(Color::DarkBlue),
            152 => Ok(Color::DarkMagenta),
            140 => Ok(Color::DarkCyan),
            255 => Ok(Color::White),
            _ => Err(unrecognized_tag()),
        }
    }
}

/// One of the toolkit's built-in typefaces.
#[derive(Clone, Copy, Debug, PartialEq, Eq, Hash, Structural)]
pub enum Font {
    Helvetica,
    HelveticaBold,
    HelveticaItalic,
    HelveticaBoldItalic,
    Courier,
    CourierBold,
    CourierItalic,
    CourierBoldItalic,
    Times,
    TimesBold,
    TimesItalic,
    TimesBoldItalic,
    Symbol,
    Screen,
    ScreenBold,
    Zapfdingbats,
}

impl Font {
    /// The integer that stands for this value.
    pub open spec fn tag(self) -> i32 {
        match self {
            Font::Helvetica => 0,
            Font::HelveticaBold => 1,
            Font::HelveticaItalic => 2,
            Font::HelveticaBoldItalic => 3,
            Font::Courier => 4,
            Font::CourierBold => 5,
            Font::CourierItalic => 6,
            Font::CourierBoldItalic => 7,
            Font::Times => 8,
            Font::TimesBold => 9,
            Font::TimesItalic => 10,
            Font::TimesBoldItalic => 11,
            Font::Symbol => 12,
            Font::Screen => 13,
            Font::ScreenBold => 14,
            Font::Zapfdingbats => 15,
        }
    }

    /// The value that `val` stands for, if there is one.
    pub open spec fn of_tag(val: i32) -> Option<Font> {
        if val == 0 {
            Some(Font::Helvetica)
        } else if val == 1 {
            Some(Font::HelveticaBold)
        } else if val == 2 {
            Some(Font::HelveticaItalic)
        } else if val == 3 {
            Some(Font::HelveticaBoldItalic)
        } else if val == 4 {
            Some(Font::Courier)
        } else if val == 5 {
            Some(Font::CourierBold)
        } else if val == 6 {
            Some(Font::CourierItalic)
        } else if val == 7 {
            Some(Font::CourierBoldItalic)
        } else if val == 8 {
            Some(Font::Times)
        } else if val == 9 {
            Some(Font::TimesBold)
        } else if val == 10 {
            Some(Font::TimesItalic)
        } else if val == 11 {
            Some(Font::TimesBoldItalic)
        } else if val == 12 {
            Some(Font::Symbol)
        } else if val == 13 {
            Some(Font::Screen)
        } else if val == 14 {
            Some(Font::ScreenBold)
        } else if val == 15 {
            Some(Font::Zapfdingbats)
        } else {
            None
        }
    }

    /// Every value is found again from its tag, and a tag names at most the
    /// value it was made from.
    pub proof fn tag_round_trip(self, val: i32)
        ensures
            Font::of_tag(self.tag()) == Some(self),
            Font::of_tag(val) matches Some(t) ==> t.tag() == val,
    {
    }

    /// The integer that stands for this value.
    pub fn to_i32(self) -> (r: i32)
        ensures
            r == self.tag(),
    {
        match self {
            Font::Helvetica => 0,
            Font::HelveticaBold => 1,
            Font::HelveticaItalic => 2,
            Font::HelveticaBoldItalic => 3,
            Font::Courier => 4,
            Font::CourierBold => 5,
            Font::CourierItalic => 6,
            Font::CourierBoldItalic => 7,
            Font::Times => 8,
            Font::TimesBold => 9,
            Font::TimesItalic => 10,
            Font::TimesBoldItalic => 11,
            Font::Symbol => 12,
            Font::Screen => 13,
            Font::ScreenBold => 14,
            Font::Zapfdingbats => 15,
        }
    }

    /// The value that `val` stands for; an unrecognised tag is an error.
    pub fn from_i32(val: i32) -> (r: Result<Font, FltkError>)
        ensures
            r matches Ok(t) ==> Font::of_tag(val) == Some(t),
            r matches Err(e) ==> Font::of_tag(val) is None && is_unrecognized_tag(e),
    {
        match val {
            0 => Ok(Font::Helvetica),
            1 => Ok(Font::HelveticaBold),
            2 => Ok(Font::HelveticaItalic),
            3 => Ok(Font::HelveticaBoldItalic),
            4 => Ok(Font::Courier),
            5 => Ok(Font::CourierBold),
            6 => Ok(Font::CourierItalic),
            7 => Ok(Font::CourierBoldItalic),
            8 => Ok(Font::Times),
            9 => Ok(Font::TimesBold),
            10 => Ok(Font::TimesItalic),
            11 => Ok(Font::TimesBoldItalic),
            12 => Ok(Font::Symbol),
            13 => Ok(Font::Screen),
            14 => Ok(Font::ScreenBold),
            15 => Ok(Font::Zapfdingbats),
            _ => Err(unrecognized_tag()),
        }
    }
}

/// Where a label sits relative to its widget.
#[derive(Clone, Copy, Debug, PartialEq, Eq, Hash, Structural)]
pub enum Align {
    Center,
    Top,
    Bottom,
    Left,
    Right,
}

impl Align {
    /// The integer that stands for this value.
    pub open spec fn tag(self) -> i32 {
        match self {
            Align::Center => 0,
            Align::Top => 1,
            Align::Bottom => 2,
            Align::Left => 4,
            Align::Right => 8,
        }
    }

    /// The value that `val` stands for, if there is one.
    pub open spec fn of_tag(val: i32) -> Option<Align> {
        if val == 0 {
            Some(Align::Center)
        } else if val == 1 {
            Some(Align::Top)
        } else if val == 2 {
            Some(Align::Bottom)
        } else if val == 4 {
            Some(Align::Left)
        } else if val == 8 {
            Some(Align::Right)
        } else {
            None
        }
    }

    /// Every value is found again from its tag, and a tag names at most the
    /// value it was made from.
    pub proof fn tag_round_trip(self, val: i32)
        ensures
            Align::of_tag(self.tag()) == Some(self),
            Align::of_tag(val) matches Some(t) ==> t.tag() == val,
    {
    }

    /// The integer that stands for this value.
    pub fn to_i32(self) -> (r: i32)
        ensures
            r == self.tag(),
    {
        match self {
            Align::Center => 0,
            Align::Top => 1,
            Align::Bottom => 2,
            Align::Left => 4,
            Align::Right => 8,
        }
    }

    /// The value that `val` stands for; an unrecognised tag is an error.
    pub fn from_i32(val: i32) -> (r: Result<Align, FltkError>)
        ensures
            r matches Ok(t) ==> Align::of_tag(val) == Some(t),
            r matches Err(e) ==> Align::of_tag(val) is None && is_unrecognized_tag(e),
    {
        match val {
            0 => Ok(Align::Center),
            1 => Ok(Align::Top),
            2 => Ok(Align::Bottom),
            4 => Ok(Align::Left),
            8 => Ok(Align::Right),
            _ => Err(unrecognized_tag()),
        }
    }
}

/// The condition under which a widget fires its callback.
#[derive(Clone, Copy, Debug, PartialEq, Eq, Hash, Structural)]
pub enum CallbackTrigger {
    Never,
    Changed,
    NotChanged,
    Release,
    ReleaseAlways,
    EnterKey,
    EnterKeyAlways,
    EnterKeyChanged,
}

impl CallbackTrigger {
    /// The integer that stands for this value.
    pub open spec fn tag(self) -> i32 {
        match self {
            CallbackTrigger::Never => 0,
            CallbackTrigger::Changed => 1,
            CallbackTrigger::NotChanged => 2,
            CallbackTrigger::Release => 4,
            CallbackTrigger::ReleaseAlways => 6,
            CallbackTrigger::EnterKey => 8,
            CallbackTrigger::EnterKeyAlways => 10,
            CallbackTrigger::EnterKeyChanged => 11,
        }
    }

    /// The value that `val` stands for, if there is one.
    pub open spec fn of_tag(val: i32) -> Option<CallbackTrigger> {
        if val == 0 {
            Some(CallbackTrigger::Never)
        } else if val == 1 {
            Some(CallbackTrigger::Changed)
        } else if val == 2 {
            Some(CallbackTrigger::NotChanged)
        } else if val == 4 {
            Some(CallbackTrigger::Release)
        } else if val == 6 {
            Some(CallbackTrigger::ReleaseAlways)
        } else if val == 8 {
            Some(CallbackTrigger::EnterKey)
        } else if val == 10 {
            Some(CallbackTrigger::EnterKeyAlways)
        } else if val == 11 {
            Some(CallbackTrigger::EnterKeyChanged)
        } else {
            None
        }
    }

    /// Every value is found again from its tag, and a tag names at most the
    /// value it was made from.
    pub proof fn tag_round_trip(self, val: i32)
        ensures
            CallbackTrigger::of_tag(self.tag()) == Some(self),
            CallbackTrigger::of_tag(val) matches Some(t) ==> t.tag() == val,
    {
    }

    /// The integer that stands for this value.
    pub fn to_i32(self) -> (r: i32)
        ensures
            r == self.tag(),
    {
        match self {
            CallbackTrigger::Never => 0,
            CallbackTrigger::Changed => 1,
            CallbackTrigger::NotChanged => 2,
            CallbackTrigger::Release => 4,
            CallbackTrigger::ReleaseAlways => 6,
            CallbackTrigger::EnterKey => 8,
            CallbackTrigger::EnterKeyAlways => 10,
            CallbackTrigger::EnterKeyChanged => 11,
        }
    }

    /// The value that `val` stands for; an unrecognised tag is an error.
    pub fn from_i32(val: i32) -> (r: Result<CallbackTrigger, FltkError>)
        ensures
            r matches Ok(t) ==> CallbackTrigger::of_tag(val) == Some(t),
            r matches Err(e) ==> CallbackTrigger::of_tag(val) is None && is_unrecognized_tag(e),
    {
        match val {
            0 => Ok(CallbackTrigger::Never),
            1 => Ok(CallbackTrigger::Changed),
            2 => Ok(CallbackTrigger::NotChanged),
            4 => Ok(CallbackTrigger::Release),
            6 => Ok(CallbackTrigger::ReleaseAlways),
            8 => Ok(CallbackTrigger::EnterKey),
            10 => Ok(CallbackTrigger::EnterKeyAlways),
            11 => Ok(CallbackTrigger::EnterKeyChanged),
            _ => Err(unrecognized_tag()),
        }
    }
}

/// The modifier key of a menu shortcut.
#[derive(Clone, Copy, Debug, PartialEq, Eq, Hash, Structural)]
pub enum Shortcut {
    NoModifier,
    Shift,
    CapsLock,
    Ctrl,
    Alt,
}

impl Shortcut {
    /// The integer that stands for this value.
    pub open spec fn tag(self) -> i32 {
        match self {
            Shortcut::NoModifier => 0,
            Shortcut::Shift => 0x10000,
            Shortcut::CapsLock => 0x20000,
            Shortcut::Ctrl => 0x40000,
            Shortcut::Alt => 0x80000,
        }
    }

    /// The value that `val` stands for, if there is one.
    pub open spec fn of_tag(val: i32) -> Option<Shortcut> {
        if val == 0 {
            Some(Shortcut::NoModifier)
        } else if val == 0x10000 {
            Some(Shortcut::Shift)
        } else if val == 0x20000 {
            Some(Shortcut::CapsLock)
        } else if val == 0x40000 {
            Some(Shortcut::Ctrl)
        } else if val == 0x80000 {
            Some(Shortcut::Alt)
        } else {
            None
        }
    }

    /// Every value is found again from its tag, and a tag names at most the
    /// value it was made from.
    pub proof fn tag_round_trip(self, val: i32)
        ensures
            Shortcut::of_tag(self.tag()) == Some(self),
            Shortcut::of_tag(val) matches Some(t) ==> t.tag() == val,
    {
    }

    /// The integer that stands for this value.
    pub fn to_i32(self) -> (r: i32)
        ensures
            r == self.tag(),
    {
        match self {
            Shortcut::NoModifier => 0,
            Shortcut::Shift => 0x10000,
            Shortcut::CapsLock => 0x20000,
            Shortcut::Ctrl => 0x40000,
            Shortcut::Alt => 0x80000,
        }
    }

    /// The value that `val` stands for; an unrecognised tag is an error.
    pub fn from_i32(val: i32) -> (r: Result<Shortcut, FltkError>)
        ensures
            r matches Ok(t) ==> Shortcut::of_tag(val) == Some(t),
            r matches Err(e) ==> Shortcut::of_tag(val) is None && is_unrecognized_tag(e),
    {
        match val {
            0 => Ok(Shortcut::NoModifier),
            0x10000 => Ok(Shortcut::Shift),
            0x20000 => Ok(Shortcut::CapsLock),
            0x40000 => Ok(Shortcut::Ctrl),
            0x80000 => Ok(Shortcut::Alt),
            _ => Err(unrecognized_tag()),
        }
    }
}

/// What the event loop tells a widget.
#[derive(Clone, Copy, Debug, PartialEq, Eq, Hash, Structural)]
pub enum Event {
    NoEvent,
    Push,
    Released,
    Enter,
    Leave,
    Drag,
    Focus,
    Unfocus,
    KeyDown,
    KeyUp,
    Close,
    Move,
    Shortcut,
    Deactivate,
    Activate,
    Hide,
    Show,
    Paste,
    SelectionClear,
    MouseWheel,
    DndEnter,
    DndDrag,
    DndLeave,
    DndRelease,
    ScreenConfigChanged,
    Fullscreen,
    ZoomGesture,
    ZoomEvent,
}

impl Event {
    /// The integer that stands for this value.
    pub open spec fn tag(self) -> i32 {
        match self {
            Event::NoEvent => 0,
            Event::Push => 1,
            Event::Released => 2,
            Event::Enter => 3,
            Event::Leave => 4,
            Event::Drag => 5,
            Event::Focus => 6,
            Event::Unfocus => 7,
            Event::KeyDown => 8,
            Event::KeyUp => 9,
            Event::Close => 10,
            Event::Move => 11,
            Event::Shortcut => 12,
            Event::Deactivate => 13,
            Event::Activate => 14,
            Event::Hide => 15,
            Event::Show => 16,
            Event::Paste => 17,
            Event::SelectionClear => 18,
            Event::MouseWheel => 19,
            Event::DndEnter => 20,
            Event::DndDrag => 21,
            Event::DndLeave => 22,
            Event::DndRelease => 23,
            Event::ScreenConfigChanged => 24,
            Event::Fullscreen => 25,
            Event::ZoomGesture => 26,
            Event::ZoomEvent => 27,
        }
    }

    /// The value that `val` stands for, if there is one.
    pub open spec fn of_tag(val: i32) -> Option<Event> {
        if val == 0 {
            Some(Event::NoEvent)
        } else if val == 1 {
            Some(Event::Push)
        } else if val == 2 {
            Some(Event::Released)
        } else if val == 3 {
            Some(Event::Enter)
        } else if val == 4 {
            Some(Event::Leave)
        } else if val == 5 {
            Some(Event::Drag)
        } else if val == 6 {
            Some(Event::Focus)
        } else if val == 7 {
            Some(Event::Unfocus)
        } else if val == 8 {
            Some(Event::KeyDown)
        } else if val == 9 {
            Some(Event::KeyUp)
        } else if val == 10 {
            Some(Event::Close)
        } else if val == 11 {
            Some(Event::Move)
        } else if val == 12 {
            Some(Event::Shortcut)
        } else if val == 13 {
            Some(Event::Deactivate)
        } else if val == 14 {
            Some(Event::Activate)
        } else if val == 15 {
            Some(Event::Hide)
        } else if val == 16 {
            Some(Event::Show)
        } else if val == 17 {
            Some(Event::Paste)
        } else if val == 18 {
            Some(Event::SelectionClear)
        } else if val == 19 {
            Some(Event::MouseWheel)
        } else if val == 20 {
            Some(Event::DndEnter)
        } else if val == 21 {
            Some(Event::DndDrag)
        } else if val == 22 {
            Some(Event::DndLeave)
        } else if val == 23 {
            Some(Event::DndRelease)
        } else if val == 24 {
            Some(Event::ScreenConfigChanged)
        } else if val == 25 {
            Some(Event::Fullscreen)
        } else if val == 26 {
            Some(Event::ZoomGesture)
        } else if val == 27 {
            Some(Event::ZoomEvent)
        } else {
            None
        }
    }

    /// Every value is found again from its tag, and a tag names at most the
    /// value it was made from.
    pub proof fn tag_round_trip(self, val: i32)
        ensures
            Event::of_tag(self.tag()) == Some(self),
            Event::of_tag(val) matches Some(t) ==> t.tag() == val,
    {
    }

    /// The integer that stands for this value.
    pub fn to_i32(self) -> (r: i32)
        ensures
            r == self.tag(),
    {
        match self {
            Event::NoEvent => 0,
            Event::Push => 1,
            Event::Released => 2,
            Event::Enter => 3,
            Event::Leave => 4,
            Event::Drag => 5,
            Event::Focus => 6,
            Event::Unfocus => 7,
            Event::KeyDown => 8,
            Event::KeyUp => 9,
            Event::Close => 10,
            Event::Move => 11,
            Event::Shortcut => 12,
            Event::Deactivate => 13,
            Event::Activate => 14,
            Event::Hide => 15,
            Event::Show => 16,
            Event::Paste => 17,
            Event::SelectionClear => 18,
            Event::MouseWheel => 19,
            Event::DndEnter => 20,
            Event::DndDrag => 21,
            Event::DndLeave => 22,
            Event::DndRelease => 23,
            Event::ScreenConfigChanged => 24,
            Event::Fullscreen => 25,
            Event::ZoomGesture => 26,
            Event::ZoomEvent => 27,
        }
    }

    /// The value that `val` stands for; an unrecognised tag is an error.
    pub fn from_i32(val: i32) -> (r: Result<Event, FltkError>)
        ensures
            r matches Ok(t) ==> Event::of_tag(val) == Some(t),
            r matches Err(e) ==> Event::of_tag(val) is None && is_unrecognized_tag(e),
    {
        match val {
            0 => Ok(Event::NoEvent),
            1 => Ok(Event::Push),
            2 => Ok(Event::Released),
            3 => Ok(Event::Enter),
            4 => Ok(Event::Leave),
            5 => Ok(Event::Drag),
            6 => Ok(Event::Focus),
            7 => Ok(Event::Unfocus),
            8 => Ok(Event::KeyDown),
            9 => Ok(Event::KeyUp),
            10 => Ok(Event::Close),
            11 => Ok(Event::Move),
            12 => Ok(Event::Shortcut),
            13 => Ok(Event::Deactivate),
            14 => Ok(Event::Activate),
            15 => Ok(Event::Hide),
            16 => Ok(Event::Show),
            17 => Ok(Event::Paste),
            18 => Ok(Event::SelectionClear),
            19 => Ok(Event::MouseWheel),
            20 => Ok(Event::DndEnter),
            21 => Ok(Event::DndDrag),
            22 => Ok(Event::DndLeave),
            23 => Ok(Event::DndRelease),
            24 => Ok(Event::ScreenConfigChanged),
            25 => Ok(Event::Fullscreen),
            26 => Ok(Event::ZoomGesture),
            27 => Ok(Event::ZoomEvent),
            _ => Err(unrecognized_tag()),
        }
    }
}

/// How a label is drawn.
#[derive(Clone, Copy, Debug, PartialEq, Eq, Hash, Structural)]
pub enum LabelType {
    Normal,
    NoLabel,
    Shadow,
    Engraved,
    Embossed,
    Multi,
    Icon,
    Image,
    FreeType,
}

impl WidgetType for LabelType {
    open spec fn tag(self) -> i32 {
        match self {
            LabelType::Normal => 0,
            LabelType::NoLabel => 1,
            LabelType::Shadow => 2,
            LabelType::Engraved => 3,
            LabelType::Embossed => 4,
            LabelType::Multi => 5,
            LabelType::Icon => 6,
            LabelType::Image => 7,
            LabelType::FreeType => 8,
        }
    }

    open spec fn of_tag(val: i32) -> Option<Self> {
        if val == 0 {
            Some(LabelType::Normal)
        } else if val == 1 {
            Some(LabelType::NoLabel)
        } else if val == 2 {
            Some(LabelType::Shadow)
        } else if val == 3 {
            Some(LabelType::Engraved)
        } else if val == 4 {
            Some(LabelType::Embossed)
        } else if val == 5 {
            Some(LabelType::Multi)
        } else if val == 6 {
            Some(LabelType::Icon)
        } else if val == 7 {
            Some(LabelType::Image)
        } else if val == 8 {
            Some(LabelType::FreeType)
        } else {
            None
        }
    }

    proof fn tag_round_trip(self) {
    }

    proof fn of_tag_is_inverse(val: i32) {
    }

    fn to_int(self) -> (r: i32) {
        match self {
            LabelType::Normal => 0,
            LabelType::NoLabel => 1,
            LabelType::Shadow => 2,
            LabelType::Engraved => 3,
            LabelType::Embossed => 4,
            LabelType::Multi => 5,
            LabelType::Icon => 6,
            LabelType::Image => 7,
            LabelType::FreeType => 8,
        }
    }

    fn from_i32(val: i32) -> (r: Result<Self, FltkError>) {
        match val {
            0 => Ok(LabelType::Normal),
            1 => Ok(LabelType::NoLabel),
            2 => Ok(LabelType::Shadow),
            3 => Ok(LabelType::Engraved),
            4 => Ok(LabelType::Embossed),
            5 => Ok(LabelType::Multi),
            6 => Ok(LabelType::Icon),
            7 => Ok(LabelType::Image),
            8 => Ok(LabelType::FreeType),
            _ => Err(unrecognized_tag()),
        }
    }
}

/// The box drawn around a widget.
#[derive(Clone, Copy, Debug, PartialEq, Eq, Hash, Structural)]
pub enum FrameType {
    NoBox,
    FlatBox,
    UpBox,
    DownBox,
    UpFrame,
    DownFrame,
    ThinUpBox,
    ThinDownBox,
    ThinUpFrame,
    ThinDownFrame,
    EngravedBox,
    EmbossedBox,
    EngravedFrame,
    EmbossedFrame,
    BorderBox,
    ShadowBox,
    BorderFrame,
    ShadowFrame,
    RoundedBox,
    RShadowBox,
    RoundedFrame,
    RFlatBox,
    RoundUpBox,
    RoundDownBox,
    DiamondUpBox,
    DiamondDownBox,
    OvalBox,
    OShadowBox,
    OvalFrame,
    OFlatFrame,
    PlasticUpBox,
    PlasticDownBox,
    PlasticUpFrame,
    PlasticDownFrame,
    PlasticThinUpBox,
    PlasticThinDownBox,
    PlasticRoundUpBox,
    PlasticRoundDownBox,
    GtkUpBox,
    GtkDownBox,
    GtkUpFrame,
    GtkDownFrame,
    GtkThinUpBox,
    GtkThinDownBox,
    GtkThinUpFrame,
    GtkThinDownFrame,
    GtkRoundUpBox,
    GtkRoundDownBox,
    GleamUpBox,
    GleamDownBox,
    GleamUpFrame,
    GleamDownFrame,
    GleamThinUpBox,
    GleamThinDownBox,
    GleamRoundUpBox,
    GleamRoundDownBox,
    FreeBoxType,
}

impl WidgetType for FrameType {
    open spec fn tag(self) -> i32 {
        match self {
            FrameType::NoBox => 0,
            FrameType::FlatBox => 1,
            FrameType::UpBox => 2,
            FrameType::DownBox => 3,
            FrameType::UpFrame => 4,
            FrameType::DownFrame => 5,
            FrameType::ThinUpBox => 6,
            FrameType::ThinDownBox => 7,
            FrameType::ThinUpFrame => 8,
            FrameType::ThinDownFrame => 9,
            FrameType::EngravedBox => 10,
            FrameType::EmbossedBox => 11,
            FrameType::EngravedFrame => 12,
            FrameType::EmbossedFrame => 13,
            FrameType::BorderBox => 14,
            FrameType::ShadowBox => 15,
            FrameType::BorderFrame => 16,
            FrameType::ShadowFrame => 17,
            FrameType::RoundedBox => 18,
            FrameType::RShadowBox => 19,
            FrameType::RoundedFrame => 20,
            FrameType::RFlatBox => 21,
            FrameType::RoundUpBox => 22,
            FrameType::RoundDownBox => 23,
            FrameType::DiamondUpBox => 24,
            FrameType::DiamondDownBox => 25,
            FrameType::OvalBox => 26,
            FrameType::OShadowBox => 27,
            FrameType::OvalFrame => 28,
            FrameType::OFlatFrame => 29,
            FrameType::PlasticUpBox => 30,
            FrameType::PlasticDownBox => 31,
            FrameType::PlasticUpFrame => 32,
            FrameType::PlasticDownFrame => 33,
            FrameType::PlasticThinUpBox => 34,
            FrameType::PlasticThinDownBox => 35,
            FrameType::PlasticRoundUpBox => 36,
            FrameType::PlasticRoundDownBox => 37,
            FrameType::GtkUpBox => 38,
            FrameType::GtkDownBox => 39,
            FrameType::GtkUpFrame => 40,
            FrameType::GtkDownFrame => 41,
            FrameType::GtkThinUpBox => 42,
            FrameType::GtkThinDownBox => 43,
            FrameType::GtkThinUpFrame => 44,
            FrameType::GtkThinDownFrame => 45,
            FrameType::GtkRoundUpBox => 46,
            FrameType::GtkRoundDownBox => 47,
            FrameType::GleamUpBox => 48,
            FrameType::GleamDownBox => 49,
            FrameType::GleamUpFrame => 50,
            FrameType::GleamDownFrame => 51,
            FrameType::GleamThinUpBox => 52,
            FrameType::GleamThinDownBox => 53,
            FrameType::GleamRoundUpBox => 54,
            FrameType::GleamRoundDownBox => 55,
            FrameType::FreeBoxType => 56,
        }
    }

    open spec fn of_tag(val: i32) -> Option<Self> {
        if val == 0 {
            Some(FrameType::NoBox)
        } else if val == 1 {
            Some(FrameType::FlatBox)
        } else if val == 2 {
            Some(FrameType::UpBox)
        } else if val == 3 {
            Some(FrameType::DownBox)
        } else if val == 4 {
            Some(FrameType::UpFrame)
        } else if val == 5 {
            Some(FrameType::DownFrame)
        } else if val == 6 {
            Some(FrameType::ThinUpBox)
        } else if val == 7 {
            Some(FrameType::ThinDownBox)
        } else if val == 8 {
            Some(FrameType::ThinUpFrame)
        } else if val == 9 {
            Some(FrameType::ThinDownFrame)
        } else if val == 10 {
            Some(FrameType::EngravedBox)
        } else if val == 11 {
            Some(FrameType::EmbossedBox)
        } else if val == 12 {
            Some(FrameType::EngravedFrame)
        } else if val == 13 {
            Some(FrameType::EmbossedFrame)
        } else if val == 14 {
            Some(FrameType::BorderBox)
        } else if val == 15 {
            Some(FrameType::ShadowBox)
        } else if val == 16 {
            Some(FrameType::BorderFrame)
        } else if val == 17 {
            Some(FrameType::ShadowFrame)
        } else if val == 18 {
            Some(FrameType::RoundedBox)
        } else if val == 19 {
            Some(FrameType::RShadowBox)
        } else if val == 20 {
            Some(FrameType::RoundedFrame)
        } else if val == 21 {
            Some(FrameType::RFlatBox)
        } else if val == 22 {
            Some(FrameType::RoundUpBox)
        } else if val == 23 {
            Some(FrameType::RoundDownBox)
        } else if val == 24 {
            Some(FrameType::DiamondUpBox)
        } else if val == 25 {
            Some(FrameType::DiamondDownBox)
        } else if val == 26 {
            Some(FrameType::OvalBox)
        } else if val == 27 {
            Some(FrameType::OShadowBox)
        } else if val == 28 {
            Some(FrameType::OvalFrame)
        } else if val == 29 {
            Some(FrameType::OFlatFrame)
        } else if val == 30 {
            Some(FrameType::PlasticUpBox)
        } else if val == 31 {
            Some(FrameType::PlasticDownBox)
        } else if val == 32 {
            Some(FrameType::PlasticUpFrame)
        } else if val == 33 {
            Some(FrameType::PlasticDownFrame)
        } else if val == 34 {
            Some(FrameType::PlasticThinUpBox)
        } else if val == 35 {
            Some(FrameType::PlasticThinDownBox)
        } else if val == 36 {
            Some(FrameType::PlasticRoundUpBox)
        } else if val == 37 {
            Some(FrameType::PlasticRoundDownBox)
        } else if val == 38 {
            Some(FrameType::GtkUpBox)
        } else if val == 39 {
            Some(FrameType::GtkDownBox)
        } else if val == 40 {
            Some(FrameType::GtkUpFrame)
        } else if val == 41 {
            Some(FrameType::GtkDownFrame)
        } else if val == 42 {
            Some(FrameType::GtkThinUpBox)
        } else if val == 43 {
            Some(FrameType::GtkThinDownBox)
        } else if val == 44 {
            Some(FrameType::GtkThinUpFrame)
        } else if val == 45 {
            Some(FrameType::GtkThinDownFrame)
        } else if val == 46 {
            Some(FrameType::GtkRoundUpBox)
        } else if val == 47 {
            Some(FrameType::GtkRoundDownBox)
        } else if val == 48 {
            Some(FrameType::GleamUpBox)
        } else if val == 49 {
            Some(FrameType::GleamDownBox)
        } else if val == 50 {
            Some(FrameType::GleamUpFrame)
        } else if val == 51 {
            Some(FrameType::GleamDownFrame)
        } else if val == 52 {
            Some(FrameType::GleamThinUpBox)
        } else if val == 53 {
            Some(FrameType::GleamThinDownBox)
        } else if val == 54 {
            Some(FrameType::GleamRoundUpBox)
        } else if val == 55 {
            Some(FrameType::GleamRoundDownBox)
        } else if val == 56 {
            Some(FrameType::FreeBoxType)
        } else {
            None
        }
    }

    proof fn tag_round_trip(self) {
    }

    proof fn of_tag_is_inverse(val: i32) {
    }

    fn to_int(self) -> (r: i32) {
        match self {
            FrameType::NoBox => 0,
            FrameType::FlatBox => 1,
            FrameType::UpBox => 2,
            FrameType::DownBox => 3,
            FrameType::UpFrame => 4,
            FrameType::DownFrame => 5,
            FrameType::ThinUpBox => 6,
            FrameType::ThinDownBox => 7,
            FrameType::ThinUpFrame => 8,
            FrameType::ThinDownFrame => 9,
            FrameType::EngravedBox => 10,
            FrameType::EmbossedBox => 11,
            FrameType::EngravedFrame => 12,
            FrameType::EmbossedFrame => 13,
            FrameType::BorderBox => 14,
            FrameType::ShadowBox => 15,
            FrameType::BorderFrame => 16,
            FrameType::ShadowFrame => 17,
            FrameType::RoundedBox => 18,
            FrameType::RShadowBox => 19,
            FrameType::RoundedFrame => 20,
            FrameType::RFlatBox => 21,
            FrameType::RoundUpBox => 22,
            FrameType::RoundDownBox => 23,
            FrameType::DiamondUpBox => 24,
            FrameType::DiamondDownBox => 25,
            FrameType::OvalBox => 26,
            FrameType::OShadowBox => 27,
            FrameType::OvalFrame => 28,
            FrameType::OFlatFrame => 29,
            FrameType::PlasticUpBox => 30,
            FrameType::PlasticDownBox => 31,
            FrameType::PlasticUpFrame => 32,
            FrameType::PlasticDownFrame => 33,
            FrameType::PlasticThinUpBox => 34,
            FrameType::PlasticThinDownBox => 35,
            FrameType::PlasticRoundUpBox => 36,
            FrameType::PlasticRoundDownBox => 37,
            FrameType::GtkUpBox => 38,
            FrameType::GtkDownBox => 39,
            FrameType::GtkUpFrame => 40,
            FrameType::GtkDownFrame => 41,
            FrameType::GtkThinUpBox => 42,
            FrameType::GtkThinDownBox => 43,
            FrameType::GtkThinUpFrame => 44,
            FrameType::GtkThinDownFrame => 45,
            FrameType::GtkRoundUpBox => 46,
            FrameType::GtkRoundDownBox => 47,
            FrameType::GleamUpBox => 48,
            FrameType::GleamDownBox => 49,
            FrameType::GleamUpFrame => 50,
            FrameType::GleamDownFrame => 51,
            FrameType::GleamThinUpBox => 52,
            FrameType::GleamThinDownBox => 53,
            FrameType::GleamRoundUpBox => 54,
            FrameType::GleamRoundDownBox => 55,
            FrameType::FreeBoxType => 56,
        }
    }

    fn from_i32(val: i32) -> (r: Result<Self, FltkError>) {
        match val {
            0 => Ok(FrameType::NoBox),
            1 => Ok(FrameType::FlatBox),
            2 => Ok(FrameType::UpBox),
            3 => Ok(FrameType::DownBox),
            4 => Ok(FrameType::UpFrame),
            5 => Ok(FrameType::DownFrame),
            6 => Ok(FrameType::ThinUpBox),
            7 => Ok(FrameType::ThinDownBox),
            8 => Ok(FrameType::ThinUpFrame),
            9 => Ok(FrameType::ThinDownFrame),
            10 => Ok(FrameType::EngravedBox),
            11 => Ok(FrameType::EmbossedBox),
            12 => Ok(FrameType::EngravedFrame),
            13 => Ok(FrameType::EmbossedFrame),
            14 => Ok(FrameType::BorderBox),
            15 => Ok(FrameType::ShadowBox),
            16 => Ok(FrameType::BorderFrame),
            17 => Ok(FrameType::ShadowFrame),
            18 => Ok(FrameType::RoundedBox),
            19 => Ok(FrameType::RShadowBox),
            20 => Ok(FrameType::RoundedFrame),
            21 => Ok(FrameType::RFlatBox),
            22 => Ok(FrameType::RoundUpBox),
            23 => Ok(FrameType::RoundDownBox),
            24 => Ok(FrameType::DiamondUpBox),
            25 => Ok(FrameType::DiamondDownBox),
            26 => Ok(FrameType::OvalBox),
            27 => Ok(FrameType::OShadowBox),
            28 => Ok(FrameType::OvalFrame),
            29 => Ok(FrameType::OFlatFrame),
            30 => Ok(FrameType::PlasticUpBox),
            31 => Ok(FrameType::PlasticDownBox),
            32 => Ok(FrameType::PlasticUpFrame),
            33 => Ok(FrameType::PlasticDownFrame),
            34 => Ok(FrameType::PlasticThinUpBox),
            35 => Ok(FrameType::PlasticThinDownBox),
            36 => Ok(FrameType::PlasticRoundUpBox),
            37 => Ok(FrameType::PlasticRoundDownBox),
            38 => Ok(FrameType::GtkUpBox),
            39 => Ok(FrameType::GtkDownBox),
            40 => Ok(FrameType::GtkUpFrame),
            41 => Ok(FrameType::GtkDownFrame),
            42 => Ok(FrameType::GtkThinUpBox),
            43 => Ok(FrameType::GtkThinDownBox),
            44 => Ok(FrameType::GtkThinUpFrame),
            45 => Ok(FrameType::GtkThinDownFrame),
            46 => Ok(FrameType::GtkRoundUpBox),
            47 => Ok(FrameType::GtkRoundDownBox),
            48 => Ok(FrameType::GleamUpBox),
            49 => Ok(FrameType::GleamDownBox),
            50 => Ok(FrameType::GleamUpFrame),
            51 => Ok(FrameType::GleamDownFrame),
            52 => Ok(FrameType::GleamThinUpBox),
            53 => Ok(FrameType::GleamThinDownBox),
            54 => Ok(FrameType::GleamRoundUpBox),
            55 => Ok(FrameType::GleamRoundDownBox),
            56 => Ok(FrameType::FreeBoxType),
            _ => Err(unrecognized_tag()),
        }
    }
}

/// The kind of a top-level window.
#[derive(Clone, Copy, Debug, PartialEq, Eq, Hash, Structural)]
pub enum WindowType {
    Normal,
    Double,
}

impl WidgetType for WindowType {
    open spec fn tag(self) -> i32 {
        match self {
            WindowType::Normal => 240,
            WindowType::Double => 241,
        }
    }

    open spec fn of_tag(val: i32) -> Option<Self> {
        if val == 240 {
            Some(WindowType::Normal)
        } else if val == 241 {
            Some(WindowType::Double)
        } else {
            None
        }
    }

    proof fn tag_round_trip(self) {
    }

    proof fn of_tag_is_inverse(val: i32) {
    }

    fn to_int(self) -> (r: i32) {
        match self {
            WindowType::Normal => 240,
            WindowType::Double => 241,
        }
    }

    fn from_i32(val: i32) -> (r: Result<Self, FltkError>) {
        match val {
            240 => Ok(WindowType::Normal),
            241 => Ok(WindowType::Double),
            _ => Err(unrecognized_tag()),
        }
    }
}

} // verus!
