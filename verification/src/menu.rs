//! Menus and their items.

use vstd::prelude::*;
use vstd::string::*;
use crate::app::{App, AppState};
use crate::enums::{Color, Font, WidgetType};
use crate::error::{is_unrecognized_tag, unrecognized_tag, FltkError};
use crate::prelude::{MenuTrait, WidgetBase, WidgetTrait};
use crate::state::{Callback, Handle, MenuEntryState, PropsState, WidgetKind};
use crate::text::contains_nul;

verus! {

/// A bar of menus along the top of a window.
#[derive(Clone, Copy, Debug, PartialEq, Eq, Hash, Structural)]
pub struct MenuBar {
    _inner: Handle,
}

impl WidgetBase for MenuBar {
    closed spec fn id(&self) -> Handle {
        self._inner
    }

    open spec fn kind_of() -> WidgetKind {
        WidgetKind::MenuBar
    }

    fn as_widget_ptr(&self) -> (h: Handle) {
        self._inner
    }

    fn from_widget_ptr(ptr: Handle) -> (w: Self) {
        MenuBar { _inner: ptr }
    }

    fn kind() -> (k: WidgetKind) {
        WidgetKind::MenuBar
    }
}

impl WidgetTrait for MenuBar {
}

impl MenuTrait for MenuBar {
}

/// A button that opens a menu.
#[derive(Clone, Copy, Debug, PartialEq, Eq, Hash, Structural)]
pub struct MenuButton {
    _inner: Handle,
}

impl WidgetBase for MenuButton {
    closed spec fn id(&self) -> Handle {
        self._inner
    }

    open spec fn kind_of() -> WidgetKind {
        WidgetKind::MenuButton
    }

    fn as_widget_ptr(&self) -> (h: Handle) {
        self._inner
    }

    fn from_widget_ptr(ptr: Handle) -> (w: Self) {
        MenuButton { _inner: ptr }
    }

    fn kind() -> (k: WidgetKind) {
        WidgetKind::MenuButton
    }
}

impl WidgetTrait for MenuButton {
}

impl MenuTrait for MenuButton {
}

/// A button that shows the item last chosen from its menu.
#[derive(Clone, Copy, Debug, PartialEq, Eq, Hash, Structural)]
pub struct Choice {
    _inner: Handle,
}

impl WidgetBase for Choice {
    closed spec fn id(&self) -> Handle {
        self._inner
    }

    open spec fn kind_of() -> WidgetKind {
        WidgetKind::Choice
    }

    fn as_widget_ptr(&self) -> (h: Handle) {
        self._inner
    }

    fn from_widget_ptr(ptr: Handle) -> (w: Self) {
        Choice { _inner: ptr }
    }

    fn kind() -> (k: WidgetKind) {
        WidgetKind::Choice
    }
}

impl WidgetTrait for Choice {
}

impl MenuTrait for Choice {
}

/// What an item of a menu is and how it looks. The flags of an item are a
/// combination of these, each with a bit of its own in one integer.
#[derive(Clone, Copy, Debug, PartialEq, Eq, Hash, Structural)]
pub enum MenuFlag {
    Normal,
    Inactive,
    Toggle,
    Value,
    Radio,
    Invisible,
    SubmenuPointer,
    Submenu,
    MenuDivider,
    MenuHorizontal,
}

impl MenuFlag {
    /// The bit that stands for this flag; none for `Normal`.
    pub open spec fn bits(self) -> i32 {
        match self {
            MenuFlag::Normal => 0,
            MenuFlag::Inactive => 1,
            MenuFlag::Toggle => 2,
            MenuFlag::Value => 4,
            MenuFlag::Radio => 8,
            MenuFlag::Invisible => 0x10,
            MenuFlag::SubmenuPointer => 0x20,
            MenuFlag::Submenu => 0x40,
            MenuFlag::MenuDivider => 0x80,
            MenuFlag::MenuHorizontal => 0x100,
        }
    }

    /// The flag that the single bit `val` stands for, if there is one.
    pub open spec fn of_bits(val: i32) -> Option<MenuFlag> {
        if val == 0 {
            Some(MenuFlag::Normal)
        } else if val == 1 {
            Some(MenuFlag::Inactive)
        } else if val == 2 {
            Some(MenuFlag::Toggle)
        } else if val == 4 {
            Some(MenuFlag::Value)
        } else if val == 8 {
            Some(MenuFlag::Radio)
        } else if val == 0x10 {
            Some(MenuFlag::Invisible)
        } else if val == 0x20 {
            Some(MenuFlag::SubmenuPointer)
        } else if val == 0x40 {
            Some(MenuFlag::Submenu)
        } else if val == 0x80 {
            Some(MenuFlag::MenuDivider)
        } else if val == 0x100 {
            Some(MenuFlag::MenuHorizontal)
        } else {
            None
        }
    }

    /// Every flag is found again from its bit, and a bit names at most the
    /// flag it was made from.
    pub proof fn bits_round_trip(self, val: i32)
        ensures
            MenuFlag::of_bits(self.bits()) == Some(self),
            MenuFlag::of_bits(val) matches Some(f) ==> f.bits() == val,
    {
    }

    /// The bit that stands for this flag.
    pub fn to_i32(self) -> (r: i32)
        ensures
            r == self.bits(),
    {
        match self {
            MenuFlag::Normal => 0,
            MenuFlag::Inactive => 1,
            MenuFlag::Toggle => 2,
            MenuFlag::Value => 4,
            MenuFlag::Radio => 8,
            MenuFlag::Invisible => 0x10,
            MenuFlag::SubmenuPointer => 0x20,
            MenuFlag::Submenu => 0x40,
            MenuFlag::MenuDivider => 0x80,
            MenuFlag::MenuHorizontal => 0x100,
        }
    }

    /// The flag that the single bit `val` stands for; anything else is an
    /// error.
    pub fn from_i32(val: i32) -> (r: Result<MenuFlag, FltkError>)
        ensures
            r matches Ok(f) ==> MenuFlag::of_bits(val) == Some(f),
            r matches Err(e) ==> MenuFlag::of_bits(val) is None && is_unrecognized_tag(e),
    {
        match val {
            0 => Ok(MenuFlag::Normal),
            1 => Ok(MenuFlag::Inactive),
            2 => Ok(MenuFlag::Toggle),
            4 => Ok(MenuFlag::Value),
            8 => Ok(MenuFlag::Radio),
            0x10 => Ok(MenuFlag::Invisible),
            0x20 => Ok(MenuFlag::SubmenuPointer),
            0x40 => Ok(MenuFlag::Submenu),
            0x80 => Ok(MenuFlag::MenuDivider),
            0x100 => Ok(MenuFlag::MenuHorizontal),
            _ => Err(unrecognized_tag()),
        }
    }
}

/// Whether the flags `flags` hold the bit of `flag`.
pub open spec fn flagged(flags: i32, flag: MenuFlag) -> bool {
    flags & flag.bits() != 0
}

/// The flags `flags` with the bit of `flag` raised.
pub open spec fn raised(flags: i32, flag: MenuFlag) -> i32 {
    flags | flag.bits()
}

/// The flags `flags` with the bit of `flag` lowered.
pub open spec fn lowered(flags: i32, flag: MenuFlag) -> i32 {
    flags & !flag.bits()
}

/// The name of one item of a menu: the menu and the place of the item in it.
///
/// The name stays good while the menu is valid and holds that many items.
#[derive(Clone, Copy, Debug, PartialEq, Eq, Hash, Structural)]
pub struct MenuItem {
    pub menu: Handle,
    pub index: usize,
}

impl MenuItem {
    /// Whether this names an item of a valid menu.
    pub open spec fn valid(self, s: AppState) -> bool {
        s.valid(self.menu) && self.index < s.widget(self.menu).items.len()
    }

    /// The item that this names.
    pub open spec fn entry(self, s: AppState) -> MenuEntryState {
        s.widget(self.menu).items[self.index as int]
    }

    /// The state `s` with the item that this names replaced by `e`.
    pub open spec fn with_entry(self, s: AppState, e: MenuEntryState) -> AppState {
        s.with_props(
            self.menu,
            PropsState {
                items: s.widget(self.menu).items.update(self.index as int, e),
                ..s.widget(self.menu)
            },
        )
    }

    /// The label of the item.
    pub fn label(&self, app: &App) -> (r: String)
        requires
            app.ready(),
            self.valid(app@),
        ensures
            r@ == self.entry(app@).label,
    {
        app.props(self.menu).items[self.index].label.clone()
    }

    /// Gives the item the label `txt`.
    pub fn set_label(&mut self, app: &mut App, txt: &str)
        requires
            old(app).ready(),
            old(self).valid(old(app)@),
            !contains_nul(txt@),
        ensures
            *final(self) == *old(self),
            final(app).ready(),
            final(app)@ == old(self).with_entry(
                old(app)@,
                MenuEntryState { label: txt@, ..old(self).entry(old(app)@) },
            ),
    {
        let p = app.props_mut(self.menu);
        let ghost before = p@;
        p.items[self.index].label = txt.to_owned();
        proof {
            assert(p@.items =~= before.items.update(
                self.index as int,
                MenuEntryState { label: txt@, ..before.items[self.index as int] },
            ));
        }
    }

    /// The label type of the item, read as a value of `T`. Where the tag that
    /// the item holds stands for no value of `T`, this is an error.
    pub fn label_type<T: WidgetType>(&self, app: &App) -> (r: Result<T, FltkError>)
        requires
            app.ready(),
            self.valid(app@),
        ensures
            r matches Ok(t) ==> T::of_tag(self.entry(app@).label_type) == Some(t),
            r matches Err(e) ==> T::of_tag(self.entry(app@).label_type) is None
                && is_unrecognized_tag(e),
    {
        T::from_i32(app.props(self.menu).items[self.index].label_type)
    }

    /// Gives the item the label type `typ`.
    pub fn set_label_type<T: WidgetType>(&mut self, app: &mut App, typ: T)
        requires
            old(app).ready(),
            old(self).valid(old(app)@),
        ensures
            *final(self) == *old(self),
            final(app).ready(),
            final(app)@ == old(self).with_entry(
                old(app)@,
                MenuEntryState { label_type: typ.tag(), ..old(self).entry(old(app)@) },
            ),
    {
        let tag = typ.to_int();
        let p = app.props_mut(self.menu);
        let ghost before = p@;
        p.items[self.index].label_type = tag;
        proof {
            assert(p@.items =~= before.items.update(
                self.index as int,
                MenuEntryState { label_type: tag, ..before.items[self.index as int] },
            ));
        }
    }

    /// The colour of the item's label.
    pub fn label_color(&self, app: &App) -> (r: Color)
        requires
            app.ready(),
            self.valid(app@),
        ensures
            r == self.entry(app@).label_color,
    {
        app.props(self.menu).items[self.index].label_color
    }

    /// Gives the item's label the colour `color`.
    pub fn set_label_color(&mut self, app: &mut App, color: Color)
        requires
            old(app).ready(),
            old(self).valid(old(app)@),
        ensures
            *final(self) == *old(self),
            final(app).ready(),
            final(app)@ == old(self).with_entry(
                old(app)@,
                MenuEntryState { label_color: color, ..old(self).entry(old(app)@) },
            ),
    {
        let p = app.props_mut(self.menu);
        let ghost before = p@;
        p.items[self.index].label_color = color;
        proof {
            assert(p@.items =~= before.items.update(
                self.index as int,
                MenuEntryState { label_color: color, ..before.items[self.index as int] },
            ));
        }
    }

    /// The typeface of the item's label.
    pub fn label_font(&self, app: &App) -> (r: Font)
        requires
            app.ready(),
            self.valid(app@),
        ensures
            r == self.entry(app@).label_font,
    {
        app.props(self.menu).items[self.index].label_font
    }

    /// Gives the item's label the typeface `font`.
    pub fn set_label_font(&mut self, app: &mut App, font: Font)
        requires
            old(app).ready(),
            old(self).valid(old(app)@),
        ensures
            *final(self) == *old(self),
            final(app).ready(),
            final(app)@ == old(self).with_entry(
                old(app)@,
                MenuEntryState { label_font: font, ..old(self).entry(old(app)@) },
            ),
    {
        let p = app.props_mut(self.menu);
        let ghost before = p@;
        p.items[self.index].label_font = font;
        proof {
            assert(p@.items =~= before.items.update(
                self.index as int,
                MenuEntryState { label_font: font, ..before.items[self.index as int] },
            ));
        }
    }

    /// The size of the item's label.
    pub fn label_size(&self, app: &App) -> (r: usize)
        requires
            app.ready(),
            self.valid(app@),
        ensures
            r == self.entry(app@).label_size,
    {
        app.props(self.menu).items[self.index].label_size
    }

    /// Gives the item's label the size `sz`.
    pub fn set_label_size(&mut self, app: &mut App, sz: usize)
        requires
            old(app).ready(),
            old(self).valid(old(app)@),
        ensures
            *final(self) == *old(self),
            final(app).ready(),
            final(app)@ == old(self).with_entry(
                old(app)@,
                MenuEntryState { label_size: sz, ..old(self).entry(old(app)@) },
            ),
    {
        let p = app.props_mut(self.menu);
        let ghost before = p@;
        p.items[self.index].label_size = sz;
        proof {
            assert(p@.items =~= before.items.update(
                self.index as int,
                MenuEntryState { label_size: sz, ..before.items[self.index as int] },
            ));
        }
    }

    /// The flags of the item, each in its bit.
    pub fn flags(&self, app: &App) -> (r: i32)
        requires
            app.ready(),
            self.valid(app@),
        ensures
            r == self.entry(app@).flags,
    {
        app.props(self.menu).items[self.index].flags
    }

    /// Whether the item is switched on.
    pub fn value(&self, app: &App) -> (r: bool)
        requires
            app.ready(),
            self.valid(app@),
        ensures
            r == flagged(self.entry(app@).flags, MenuFlag::Value),
    {
        app.props(self.menu).items[self.index].flags & 4 != 0
    }

    /// Switches the item on. No other flag changes.
    pub fn set(&mut self, app: &mut App)
        requires
            old(app).ready(),
            old(self).valid(old(app)@),
        ensures
            *final(self) == *old(self),
            final(app).ready(),
            final(app)@ == old(self).with_entry(
                old(app)@,
                MenuEntryState {
                    flags: raised(old(self).entry(old(app)@).flags, MenuFlag::Value),
                    ..old(self).entry(old(app)@)
                },
            ),
    {
        let p = app.props_mut(self.menu);
        let ghost before = p@;
        let flags = p.items[self.index].flags;
        p.items[self.index].flags = flags | 4;
        proof {
            assert(p@.items =~= before.items.update(
                self.index as int,
                MenuEntryState {
                    flags: raised(flags, MenuFlag::Value),
                    ..before.items[self.index as int]
                },
            ));
        }
    }

    /// Switches the item off. No other flag changes.
    pub fn clear(&mut self, app: &mut App)
        requires
            old(app).ready(),
            old(self).valid(old(app)@),
        ensures
            *final(self) == *old(self),
            final(app).ready(),
            final(app)@ == old(self).with_entry(
                old(app)@,
                MenuEntryState {
                    flags: lowered(old(self).entry(old(app)@).flags, MenuFlag::Value),
                    ..old(self).entry(old(app)@)
                },
            ),
    {
        let p = app.props_mut(self.menu);
        let ghost before = p@;
        let flags = p.items[self.index].flags;
        p.items[self.index].flags = flags & !4;
        proof {
            assert(p@.items =~= before.items.update(
                self.index as int,
                MenuEntryState {
                    flags: lowered(flags, MenuFlag::Value),
                    ..before.items[self.index as int]
                },
            ));
        }
    }

    /// Whether the item shows up in its menu.
    pub fn visible(&self, app: &App) -> (r: bool)
        requires
            app.ready(),
            self.valid(app@),
        ensures
            r == !flagged(self.entry(app@).flags, MenuFlag::Invisible),
    {
        app.props(self.menu).items[self.index].flags & 0x10 == 0
    }

    /// Lets the item be chosen, as `activate` does. No other flag changes.
    pub fn active(&mut self, app: &mut App)
        requires
            old(app).ready(),
            old(self).valid(old(app)@),
        ensures
            *final(self) == *old(self),
            final(app).ready(),
            final(app)@ == old(self).with_entry(
                old(app)@,
                MenuEntryState {
                    flags: lowered(old(self).entry(old(app)@).flags, MenuFlag::Inactive),
                    ..old(self).entry(old(app)@)
                },
            ),
    {
        let p = app.props_mut(self.menu);
        let ghost before = p@;
        let flags = p.items[self.index].flags;
        p.items[self.index].flags = flags & !1;
        proof {
            assert(p@.items =~= before.items.update(
                self.index as int,
                MenuEntryState {
                    flags: lowered(flags, MenuFlag::Inactive),
                    ..before.items[self.index as int]
                },
            ));
        }
    }

    /// Lets the item be chosen. No other flag changes.
    pub fn activate(&mut self, app: &mut App)
        requires
            old(app).ready(),
            old(self).valid(old(app)@),
        ensures
            *final(self) == *old(self),
            final(app).ready(),
            final(app)@ == old(self).with_entry(
                old(app)@,
                MenuEntryState {
                    flags: lowered(old(self).entry(old(app)@).flags, MenuFlag::Inactive),
                    ..old(self).entry(old(app)@)
                },
            ),
    {
        let p = app.props_mut(self.menu);
        let ghost before = p@;
        let flags = p.items[self.index].flags;
        p.items[self.index].flags = flags & !1;
        proof {
            assert(p@.items =~= before.items.update(
                self.index as int,
                MenuEntryState {
                    flags: lowered(flags, MenuFlag::Inactive),
                    ..before.items[self.index as int]
                },
            ));
        }
    }

    /// Greys the item out: it cannot be chosen. No other flag changes.
    pub fn deactivate(&mut self, app: &mut App)
        requires
            old(app).ready(),
            old(self).valid(old(app)@),
        ensures
            *final(self) == *old(self),
            final(app).ready(),
            final(app)@ == old(self).with_entry(
                old(app)@,
                MenuEntryState {
                    flags: raised(old(self).entry(old(app)@).flags, MenuFlag::Inactive),
                    ..old(self).entry(old(app)@)
                },
            ),
    {
        let p = app.props_mut(self.menu);
        let ghost before = p@;
        let flags = p.items[self.index].flags;
        p.items[self.index].flags = flags | 1;
        proof {
            assert(p@.items =~= before.items.update(
                self.index as int,
                MenuEntryState {
                    flags: raised(flags, MenuFlag::Inactive),
                    ..before.items[self.index as int]
                },
            ));
        }
    }

    /// Lets the item show up in its menu. No other flag changes.
    pub fn show(&mut self, app: &mut App)
        requires
            old(app).ready(),
            old(self).valid(old(app)@),
        ensures
            *final(self) == *old(self),
            final(app).ready(),
            final(app)@ == old(self).with_entry(
                old(app)@,
                MenuEntryState {
                    flags: lowered(old(self).entry(old(app)@).flags, MenuFlag::Invisible),
                    ..old(self).entry(old(app)@)
                },
            ),
    {
        let p = app.props_mut(self.menu);
        let ghost before = p@;
        let flags = p.items[self.index].flags;
        p.items[self.index].flags = flags & !0x10;
        proof {
            assert(p@.items =~= before.items.update(
                self.index as int,
                MenuEntryState {
                    flags: lowered(flags, MenuFlag::Invisible),
                    ..before.items[self.index as int]
                },
            ));
        }
    }

    /// Takes the item out of its menu's sight. No other flag changes.
    pub fn conceal(&mut self, app: &mut App)
        requires
            old(app).ready(),
            old(self).valid(old(app)@),
        ensures
            *final(self) == *old(self),
            final(app).ready(),
            final(app)@ == old(self).with_entry(
                old(app)@,
                MenuEntryState {
                    flags: raised(old(self).entry(old(app)@).flags, MenuFlag::Invisible),
                    ..old(self).entry(old(app)@)
                },
            ),
    {
        let p = app.props_mut(self.menu);
        let ghost before = p@;
        let flags = p.items[self.index].flags;
        p.items[self.index].flags = flags | 0x10;
        proof {
            assert(p@.items =~= before.items.update(
                self.index as int,
                MenuEntryState {
                    flags: raised(flags, MenuFlag::Invisible),
                    ..before.items[self.index as int]
                },
            ));
        }
    }

    /// Whether the item can be chosen: it shows up and is not greyed out.
    pub open spec fn choosable(self, s: AppState) -> bool {
        !flagged(self.entry(s).flags, MenuFlag::Inactive) && !flagged(
            self.entry(s).flags,
            MenuFlag::Invisible,
        )
    }

    /// The callback that is due when the item is chosen: its own, or that of
    /// its menu where it has none.
    pub open spec fn due(self, s: AppState) -> Option<Callback> {
        if self.entry(s).callback is Some {
            self.entry(s).callback
        } else {
            s.widget(self.menu).callback
        }
    }

    /// The user chooses the item. Where the item can be chosen, the menu
    /// remembers it as the one chosen last, and the answer is the callback
    /// that is now due. Otherwise nothing changes and nothing is due.
    pub fn pick(&self, app: &mut App) -> (r: Option<Callback>)
        requires
            old(app).ready(),
            self.valid(old(app)@),
        ensures
            final(app).ready(),
            self.choosable(old(app)@) ==> r == self.due(old(app)@) && final(app)@ == old(
                app,
            )@.with_props(
                self.menu,
                PropsState { picked: Some(self.index), ..old(app)@.widget(self.menu) },
            ),
            !self.choosable(old(app)@) ==> r is None && final(app)@ == old(app)@,
    {
        let flags = app.props(self.menu).items[self.index].flags;
        if flags & 1 == 0 && flags & 0x10 == 0 {
            let own = app.props(self.menu).items[self.index].callback;
            let p = app.props_mut(self.menu);
            p.picked = Some(self.index);
            match own {
                Some(cb) => Some(cb),
                None => p.callback,
            }
        } else {
            None
        }
    }
}

} // verus!
