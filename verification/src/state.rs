//! The plain data of the toolkit: what one widget record holds, and the
//! mathematical view of each piece that the contracts speak of.

use vstd::prelude::*;
use vstd::string::*;
use crate::enums::{Align, CallbackTrigger, Color, Font};

verus! {

/// The name of one widget record: its place in the arena of an `App`.
///
/// A handle is a cheap copy of a name, never the widget itself: two equal
/// handles name the same record.
#[derive(Clone, Copy, Debug, PartialEq, Eq, Hash, Structural)]
pub struct Handle {
    pub index: usize,
}

/// The name of a callable that the caller keeps. The toolkit stores the name
/// in a widget's slot and hands it back when the callable is due.
#[derive(Clone, Copy, Debug, PartialEq, Eq, Hash, Structural)]
pub struct Callback {
    pub id: u64,
}

/// A picture: the resource it was loaded from and the size it is drawn at.
#[derive(Clone, Copy, Debug, PartialEq, Eq, Hash, Structural)]
pub struct Image {
    pub resource: usize,
    pub width: i32,
    pub height: i32,
}

/// What kind of widget a record stands for.
#[derive(Clone, Copy, Debug, PartialEq, Eq, Hash, Structural)]
pub enum WidgetKind {
    Widget,
    Frame,
    Button,
    Group,
    Wizard,
    Window,
    MenuBar,
    MenuButton,
    Choice,
    Input,
    Browser,
}

impl WidgetKind {
    /// Whether widgets of this kind hold children.
    pub open spec fn is_group(self) -> bool {
        self == WidgetKind::Group || self == WidgetKind::Wizard || self == WidgetKind::Window
    }

    /// Whether widgets of this kind are windows.
    pub open spec fn is_window(self) -> bool {
        self == WidgetKind::Window
    }

    /// Whether widgets of this kind hold children.
    pub fn holds_children(&self) -> (b: bool)
        ensures
            b == self.is_group(),
    {
        match self {
            WidgetKind::Group | WidgetKind::Wizard | WidgetKind::Window => true,
            _ => false,
        }
    }

    /// Whether widgets of this kind are windows.
    pub fn opens_window(&self) -> (b: bool)
        ensures
            b == self.is_window(),
    {
        match self {
            WidgetKind::Window => true,
            _ => false,
        }
    }
}

/// One entry of a menu, as the menu keeps it.
pub struct MenuEntry {
    pub name: String,
    pub label: String,
    pub shortcut: i32,
    pub flags: i32,
    pub label_type: i32,
    pub label_color: Color,
    pub label_font: Font,
    pub label_size: usize,
    pub callback: Option<Callback>,
}

/// The view of a `MenuEntry`.
pub struct MenuEntryState {
    pub name: Seq<char>,
    pub label: Seq<char>,
    pub shortcut: i32,
    pub flags: i32,
    pub label_type: i32,
    pub label_color: Color,
    pub label_font: Font,
    pub label_size: usize,
    pub callback: Option<Callback>,
}

impl View for MenuEntry {
    type V = MenuEntryState;

    open spec fn view(&self) -> MenuEntryState {
        MenuEntryState {
            name: self.name@,
            label: self.label@,
            shortcut: self.shortcut,
            flags: self.flags,
            label_type: self.label_type,
            label_color: self.label_color,
            label_font: self.label_font,
            label_size: self.label_size,
            callback: self.callback,
        }
    }
}

impl MenuEntryState {
    /// The entry that a menu gets for `name`: labelled by its name, drawn in
    /// the default style.
    pub open spec fn initial(
        name: Seq<char>,
        shortcut: i32,
        flags: i32,
        callback: Option<Callback>,
    ) -> MenuEntryState {
        MenuEntryState {
            name,
            label: name,
            shortcut,
            flags,
            label_type: 0,
            label_color: Color::ForeGround,
            label_font: Font::Helvetica,
            label_size: 14,
            callback,
        }
    }
}

impl MenuEntry {
    /// Makes the entry that a menu gets for `name`.
    pub fn new(name: &str, shortcut: i32, flags: i32, callback: Option<Callback>) -> (e: MenuEntry)
        ensures
            e@ == MenuEntryState::initial(name@, shortcut, flags, callback),
    {
        MenuEntry {
            name: name.to_owned(),
            label: name.to_owned(),
            shortcut,
            flags,
            label_type: 0,
            label_color: Color::ForeGround,
            label_font: Font::Helvetica,
            label_size: 14,
            callback,
        }
    }
}

/// The views of the entries `items`, in order.
pub open spec fn entries(items: Seq<MenuEntry>) -> Seq<MenuEntryState> {
    Seq::new(items.len(), |i: int| items[i]@)
}

/// Putting an entry into a list and viewing the list is viewing the list and
/// putting the view of the entry into it.
pub proof fn lemma_entries_insert(items: Seq<MenuEntry>, at: int, e: MenuEntry)
    requires
        0 <= at <= items.len(),
    ensures
        entries(items.insert(at, e)) == entries(items).insert(at, e@),
{
    let a = entries(items.insert(at, e));
    let b = entries(items).insert(at, e@);
    assert(a.len() == b.len());
    assert forall|i: int| 0 <= i < a.len() implies a[i] == b[i] by {
        if i < at {
            assert(items.insert(at, e)[i] == items[i]);
        } else if i == at {
            assert(items.insert(at, e)[i] == e);
        } else {
            assert(items.insert(at, e)[i] == items[i - 1]);
        }
    }
    assert(a =~= b);
}

/// One line of a browser.
pub struct BrowserLine {
    pub text: String,
    pub selected: bool,
    pub icon: Option<Image>,
}

/// The view of a `BrowserLine`.
pub struct BrowserLineState {
    pub text: Seq<char>,
    pub selected: bool,
    pub icon: Option<Image>,
}

impl View for BrowserLine {
    type V = BrowserLineState;

    open spec fn view(&self) -> BrowserLineState {
        BrowserLineState { text: self.text@, selected: self.selected, icon: self.icon }
    }
}

impl BrowserLineState {
    /// The line that a browser gets for `text`: not selected, without an icon.
    pub open spec fn initial(text: Seq<char>) -> BrowserLineState {
        BrowserLineState { text, selected: false, icon: None }
    }
}

impl BrowserLine {
    /// Makes the line that a browser gets for `text`.
    pub fn new(text: &str) -> (l: BrowserLine)
        ensures
            l@ == BrowserLineState::initial(text@),
    {
        BrowserLine { text: text.to_owned(), selected: false, icon: None }
    }
}

/// The views of the lines `lines`, in order.
pub open spec fn lines_view(lines: Seq<BrowserLine>) -> Seq<BrowserLineState> {
    Seq::new(lines.len(), |i: int| lines[i]@)
}

/// Putting a line into a list and viewing the list is viewing the list and
/// putting the view of the line into it.
pub proof fn lemma_lines_insert(lines: Seq<BrowserLine>, at: int, l: BrowserLine)
    requires
        0 <= at <= lines.len(),
    ensures
        lines_view(lines.insert(at, l)) == lines_view(lines).insert(at, l@),
{
    let a = lines_view(lines.insert(at, l));
    let b = lines_view(lines).insert(at, l@);
    assert(a.len() == b.len());
    assert forall|i: int| 0 <= i < a.len() implies a[i] == b[i] by {
        if i < at {
            assert(lines.insert(at, l)[i] == lines[i]);
        } else if i == at {
            assert(lines.insert(at, l)[i] == l);
        } else {
            assert(lines.insert(at, l)[i] == lines[i - 1]);
        }
    }
    assert(a =~= b);
}

/// Taking a line out of a list and viewing the list is viewing the list and
/// taking the line out of the view.
pub proof fn lemma_lines_remove(lines: Seq<BrowserLine>, at: int)
    requires
        0 <= at < lines.len(),
    ensures
        lines_view(lines.remove(at)) == lines_view(lines).remove(at),
{
    let a = lines_view(lines.remove(at));
    let b = lines_view(lines).remove(at);
    assert(a.len() == b.len());
    assert forall|i: int| 0 <= i < a.len() implies a[i] == b[i] by {
        if i < at {
            assert(lines.remove(at)[i] == lines[i]);
        } else {
            assert(lines.remove(at)[i] == lines[i + 1]);
        }
    }
    assert(a =~= b);
}

/// What an input field remembers of its text before the last edit.
pub struct Snapshot {
    pub value: String,
    pub position: i32,
    pub mark: i32,
}

/// The view of a `Snapshot`.
pub struct SnapshotState {
    pub value: Seq<char>,
    pub position: i32,
    pub mark: i32,
}

impl View for Snapshot {
    type V = SnapshotState;

    open spec fn view(&self) -> SnapshotState {
        SnapshotState { value: self.value@, position: self.position, mark: self.mark }
    }
}

/// The view of an optional string.
pub open spec fn opt_text(s: Option<String>) -> Option<Seq<char>> {
    match s {
        Some(t) => Some(t@),
        None => None,
    }
}

/// The view of an optional snapshot.
pub open spec fn opt_snapshot(s: Option<Snapshot>) -> Option<SnapshotState> {
    match s {
        Some(t) => Some(t@),
        None => None,
    }
}

/// The properties of one widget: a flat record that the capability traits
/// read and write field by field. No field constrains another.
pub struct Props {
    pub x: i32,
    pub y: i32,
    pub width: i32,
    pub height: i32,
    pub label: String,
    pub tooltip: Option<String>,
    pub type_tag: i32,
    pub color: Color,
    pub selection_color: Color,
    pub label_color: Color,
    pub label_font: Font,
    pub label_size: i32,
    pub label_type: i32,
    pub frame: i32,
    pub align: Align,
    pub changed: bool,
    pub visible: bool,
    pub active: bool,
    pub damaged: bool,
    pub label_damaged: bool,
    pub image: Option<Image>,
    pub trigger: CallbackTrigger,
    pub callback: Option<Callback>,
    pub custom_handler: Option<Callback>,
    pub custom_draw: Option<Callback>,
    pub modal: bool,
    pub fullscreen: bool,
    pub resizable: bool,
    pub icon: Option<Image>,
    pub text_font: Font,
    pub text_size: u32,
    pub text_color: Color,
    pub items: Vec<MenuEntry>,
    pub picked: Option<usize>,
    pub value: String,
    pub maximum_size: u32,
    pub position: i32,
    pub mark: i32,
    pub readonly: bool,
    pub wrap: bool,
    pub undo: Option<Snapshot>,
    pub lines: Vec<BrowserLine>,
}

/// The view of a `Props`.
pub struct PropsState {
    pub x: i32,
    pub y: i32,
    pub width: i32,
    pub height: i32,
    pub label: Seq<char>,
    pub tooltip: Option<Seq<char>>,
    pub type_tag: i32,
    pub color: Color,
    pub selection_color: Color,
    pub label_color: Color,
    pub label_font: Font,
    pub label_size: i32,
    pub label_type: i32,
    pub frame: i32,
    pub align: Align,
    pub changed: bool,
    pub visible: bool,
    pub active: bool,
    pub damaged: bool,
    pub label_damaged: bool,
    pub image: Option<Image>,
    pub trigger: CallbackTrigger,
    pub callback: Option<Callback>,
    pub custom_handler: Option<Callback>,
    pub custom_draw: Option<Callback>,
    pub modal: bool,
    pub fullscreen: bool,
    pub resizable: bool,
    pub icon: Option<Image>,
    pub text_font: Font,
    pub text_size: u32,
    pub text_color: Color,
    pub items: Seq<MenuEntryState>,
    pub picked: Option<usize>,
    pub value: Seq<char>,
    pub maximum_size: u32,
    pub position: i32,
    pub mark: i32,
    pub readonly: bool,
    pub wrap: bool,
    pub undo: Option<SnapshotState>,
    pub lines: Seq<BrowserLineState>,
}

impl View for Props {
    type V = PropsState;

    open spec fn view(&self) -> PropsState {
        PropsState {
            x: self.x,
            y: self.y,
            width: self.width,
            height: self.height,
            label: self.label@,
            tooltip: opt_text(self.tooltip),
            type_tag: self.type_tag,
            color: self.color,
            selection_color: self.selection_color,
            label_color: self.label_color,
            label_font: self.label_font,
            label_size: self.label_size,
            label_type: self.label_type,
            frame: self.frame,
            align: self.align,
            changed: self.changed,
            visible: self.visible,
            active: self.active,
            damaged: self.damaged,
            label_damaged: self.label_damaged,
            image: self.image,
            trigger: self.trigger,
            callback: self.callback,
            custom_handler: self.custom_handler,
            custom_draw: self.custom_draw,
            modal: self.modal,
            fullscreen: self.fullscreen,
            resizable: self.resizable,
            icon: self.icon,
            text_font: self.text_font,
            text_size: self.text_size,
            text_color: self.text_color,
            items: entries(self.items@),
            picked: self.picked,
            value: self.value@,
            maximum_size: self.maximum_size,
            position: self.position,
            mark: self.mark,
            readonly: self.readonly,
            wrap: self.wrap,
            undo: opt_snapshot(self.undo),
            lines: lines_view(self.lines@),
        }
    }
}

impl PropsState {
    /// The properties a widget of kind `kind` starts with, at the given place
    /// and with the given label: shown unless it is a window, active, unchanged,
    /// with no callback, no items, no text and no lines, in the default style.
    pub open spec fn initial(
        kind: WidgetKind,
        x: i32,
        y: i32,
        width: i32,
        height: i32,
        title: Seq<char>,
    ) -> PropsState {
        PropsState {
            x,
            y,
            width,
            height,
            label: title,
            tooltip: None,
            type_tag: 0,
            color: Color::BackGround,
            selection_color: Color::Selection,
            label_color: Color::ForeGround,
            label_font: Font::Helvetica,
            label_size: 14,
            label_type: 0,
            frame: 0,
            align: Align::Center,
            changed: false,
            visible: !kind.is_window(),
            active: true,
            damaged: false,
            label_damaged: false,
            image: None,
            trigger: CallbackTrigger::Release,
            callback: None,
            custom_handler: None,
            custom_draw: None,
            modal: false,
            fullscreen: false,
            resizable: false,
            icon: None,
            text_font: Font::Helvetica,
            text_size: 14,
            text_color: Color::ForeGround,
            items: Seq::empty(),
            picked: None,
            value: Seq::empty(),
            maximum_size: 32767,
            position: 0,
            mark: 0,
            readonly: false,
            wrap: false,
            undo: None,
            lines: Seq::empty(),
        }
    }
}

impl Props {
    /// Makes the properties a widget of kind `kind` starts with.
    pub fn new(kind: WidgetKind, x: i32, y: i32, width: i32, height: i32, title: &str) -> (p: Props)
        ensures
            p@ == PropsState::initial(kind, x, y, width, height, title@),
    {
        let p = Props {
            x,
            y,
            width,
            height,
            label: title.to_owned(),
            tooltip: None,
            type_tag: 0,
            color: Color::BackGround,
            selection_color: Color::Selection,
            label_color: Color::ForeGround,
            label_font: Font::Helvetica,
            label_size: 14,
            label_type: 0,
            frame: 0,
            align: Align::Center,
            changed: false,
            visible: !kind.opens_window(),
            active: true,
            damaged: false,
            label_damaged: false,
            image: None,
            trigger: CallbackTrigger::Release,
            callback: None,
            custom_handler: None,
            custom_draw: None,
            modal: false,
            fullscreen: false,
            resizable: false,
            icon: None,
            text_font: Font::Helvetica,
            text_size: 14,
            text_color: Color::ForeGround,
            items: Vec::new(),
            picked: None,
            value: String::new(),
            maximum_size: 32767,
            position: 0,
            mark: 0,
            readonly: false,
            wrap: false,
            undo: None,
            lines: Vec::new(),
        };
        assert(p@.items =~= Seq::empty());
        assert(p@.lines =~= Seq::empty());
        p
    }
}

} // verus!
