//! The capability traits: the operations that a widget handle offers.
//!
//! A widget type is a handle that names a record of an [`App`]. Every trait
//! method therefore takes the `App` it works on, and asks that its handle is
//! valid there: a handle stays valid until the widget is removed from its
//! group or a group above it is.

use vstd::prelude::*;
use vstd::string::*;
use crate::app::{App, AppState};
use crate::browser::{
    holds_line, insert_line, landing, load_lines, loaded, move_line, moved, remove_line,
    select_line, selected_only, set_line_icon, set_line_text, swap_two, swapped, with_line,
    without,
};
pub use crate::enums::{
    Align, CallbackTrigger, Color, Font, FrameType, LabelType, Shortcut, WidgetType, WindowType,
};
use crate::error::{is_unrecognized_tag, FltkError};
use crate::input::{clamp_index, clamped, edit, replaced, saturate, saturated, selection, undone};
use crate::menu::{MenuFlag, MenuItem};
use crate::state::{
    lemma_entries_insert, opt_text, BrowserLine, BrowserLineState, Callback, Handle, Image,
    MenuEntry, MenuEntryState, PropsState, Snapshot, WidgetKind,
};
use crate::text::{char_len, contains_nul};
use crate::widget::Widget;
use crate::window::Window;

verus! {

/// Half of `d`, rounded towards zero.
pub open spec fn half(d: int) -> int {
    if d >= 0 {
        d / 2
    } else {
        -((-d) / 2)
    }
}

/// Half of the difference `a - b`, rounded towards zero.
pub fn half_gap(a: i32, b: i32) -> (r: i32)
    ensures
        r == half(a - b),
{
    let d: i64 = a as i64 - b as i64;
    if d >= 0 {
        (d / 2) as i32
    } else {
        (-((-d) / 2)) as i32
    }
}

/// What makes a type a widget handle: the record it names and the kind of
/// widget it stands for.
pub trait WidgetBase: Sized {
    /// The record that this handle names.
    spec fn id(&self) -> Handle;

    /// The kind of widget that handles of this type stand for.
    spec fn kind_of() -> WidgetKind;

    /// The record that this handle names.
    fn as_widget_ptr(&self) -> (h: Handle)
        ensures
            h == self.id(),
    ;

    /// The handle of this type that names the record `ptr`.
    fn from_widget_ptr(ptr: Handle) -> (w: Self)
        ensures
            w.id() == ptr,
    ;

    /// The kind of widget that handles of this type stand for.
    fn kind() -> (k: WidgetKind)
        ensures
            k == Self::kind_of(),
    ;
}

/// What every widget can do.
pub trait WidgetTrait: WidgetBase {
    /// Makes a widget at `(x, y)` of the given size and with the given label.
    /// It becomes the last child of the current group.
    fn new(app: &mut App, x: i32, y: i32, width: i32, height: i32, title: &str) -> (w: Self)
        requires
            old(app).ready(),
            !contains_nul(title@),
        ensures
            final(app).ready(),
            w.id().index == old(app)@.nodes.len(),
            final(app)@.valid(w.id()),
            final(app)@ == old(app)@.created(Self::kind_of(), x, y, width, height, title@),
            final(app)@.widget(w.id()) == PropsState::initial(
                Self::kind_of(),
                x,
                y,
                width,
                height,
                title@,
            ),
            forall|o: Handle| old(app)@.valid(o) ==> final(app)@.valid(o),
    {
        let h = app.create(Self::kind(), x, y, width, height, title);
        Self::from_widget_ptr(h)
    }

    /// Makes a widget at the origin, of no size and without a label.
    fn default(app: &mut App) -> (w: Self)
        requires
            old(app).ready(),
        ensures
            final(app).ready(),
            w.id().index == old(app)@.nodes.len(),
            final(app)@.valid(w.id()),
            final(app)@ == old(app)@.created(Self::kind_of(), 0, 0, 0, 0, Seq::empty()),
            final(app)@.widget(w.id()).x == 0,
            final(app)@.widget(w.id()).y == 0,
            final(app)@.widget(w.id()).width == 0,
            final(app)@.widget(w.id()).height == 0,
            final(app)@.widget(w.id()).label == Seq::<char>::empty(),
            forall|o: Handle| old(app)@.valid(o) ==> final(app)@.valid(o),
    {
        let title = String::new();
        proof {
            crate::text::lemma_empty_has_no_nul();
        }
        let h = app.create(Self::kind(), 0, 0, 0, 0, title.as_str());
        Self::from_widget_ptr(h)
    }

    /// Moves the widget to `(x, y)`.
    fn with_pos(self, app: &mut App, x: i32, y: i32) -> (r: Self)
        requires
            old(app).ready(),
            old(app)@.valid(self.id()),
        ensures
            r == self,
            final(app).ready(),
            final(app)@ == old(app)@.with_props(
                self.id(),
                PropsState { x, y, ..old(app)@.widget(self.id()) },
            ),
    {
        let p = app.props_mut(self.as_widget_ptr());
        p.x = x;
        p.y = y;
        self
    }

    /// Gives the widget the size `width` by `height`.
    fn with_size(self, app: &mut App, width: i32, height: i32) -> (r: Self)
        requires
            old(app).ready(),
            old(app)@.valid(self.id()),
        ensures
            r == self,
            final(app).ready(),
            final(app)@ == old(app)@.with_props(
                self.id(),
                PropsState { width, height, ..old(app)@.widget(self.id()) },
            ),
    {
        let p = app.props_mut(self.as_widget_ptr());
        p.width = width;
        p.height = height;
        self
    }

    /// Gives the widget the label `title`.
    fn with_label(self, app: &mut App, title: &str) -> (r: Self)
        requires
            old(app).ready(),
            old(app)@.valid(self.id()),
            !contains_nul(title@),
        ensures
            r == self,
            final(app).ready(),
            final(app)@ == old(app)@.with_props(
                self.id(),
                PropsState { label: title@, ..old(app)@.widget(self.id()) },
            ),
    {
        let p = app.props_mut(self.as_widget_ptr());
        p.label = title.to_owned();
        self
    }

    /// Puts the widget under `w`, `padding` below its lower edge and flush with its left edge.
    fn below_of<W: WidgetBase>(self, app: &mut App, w: &W, padding: i32) -> (r: Self)
        requires
            old(app).ready(),
            old(app)@.valid(self.id()),
            old(app)@.valid(w.id()),
            i32::MIN <= old(app)@.widget(w.id()).y + old(app)@.widget(w.id()).height + padding <= i32::MAX,
        ensures
            r == self,
            final(app).ready(),
            final(app)@ == old(app)@.with_props(
                self.id(),
                PropsState {
                    x: (old(app)@.widget(w.id()).x) as i32,
                    y: (old(app)@.widget(w.id()).y + old(app)@.widget(w.id()).height + padding) as i32,
                    ..old(app)@.widget(self.id())
                },
            ),
    {
        let other = app.props(w.as_widget_ptr());
        let (ox, oy, ow, oh) = (other.x, other.y, other.width, other.height);
        let p = app.props_mut(self.as_widget_ptr());
        let x: i32 = ox;
        let y: i32 = (oy as i64 + oh as i64 + padding as i64) as i32;
        p.x = x;
        p.y = y;
        self
    }

    /// Puts the widget over `w`, its lower edge `padding` above the upper edge of `w`, flush with its left edge.
    fn above_of<W: WidgetBase>(self, app: &mut App, w: &W, padding: i32) -> (r: Self)
        requires
            old(app).ready(),
            old(app)@.valid(self.id()),
            old(app)@.valid(w.id()),
            i32::MIN <= old(app)@.widget(w.id()).y - padding - old(app)@.widget(self.id()).height <= i32::MAX,
        ensures
            r == self,
            final(app).ready(),
            final(app)@ == old(app)@.with_props(
                self.id(),
                PropsState {
                    x: (old(app)@.widget(w.id()).x) as i32,
                    y: (old(app)@.widget(w.id()).y - padding - old(app)@.widget(self.id()).height) as i32,
                    ..old(app)@.widget(self.id())
                },
            ),
    {
        let other = app.props(w.as_widget_ptr());
        let (ox, oy, ow, oh) = (other.x, other.y, other.width, other.height);
        let p = app.props_mut(self.as_widget_ptr());
        let x: i32 = ox;
        let y: i32 = (oy as i64 - padding as i64 - p.height as i64) as i32;
        p.x = x;
        p.y = y;
        self
    }

    /// Puts the widget to the right of `w`, `padding` beyond its right edge and flush with its upper edge.
    fn right_of<W: WidgetBase>(self, app: &mut App, w: &W, padding: i32) -> (r: Self)
        requires
            old(app).ready(),
            old(app)@.valid(self.id()),
            old(app)@.valid(w.id()),
            i32::MIN <= old(app)@.widget(w.id()).x + old(app)@.widget(w.id()).width + padding <= i32::MAX,
        ensures
            r == self,
            final(app).ready(),
            final(app)@ == old(app)@.with_props(
                self.id(),
                PropsState {
                    x: (old(app)@.widget(w.id()).x + old(app)@.widget(w.id()).width + padding) as i32,
                    y: (old(app)@.widget(w.id()).y) as i32,
                    ..old(app)@.widget(self.id())
                },
            ),
    {
        let other = app.props(w.as_widget_ptr());
        let (ox, oy, ow, oh) = (other.x, other.y, other.width, other.height);
        let p = app.props_mut(self.as_widget_ptr());
        let x: i32 = (ox as i64 + ow as i64 + padding as i64) as i32;
        let y: i32 = oy;
        p.x = x;
        p.y = y;
        self
    }

    /// Puts the widget to the left of `w`, its right edge `padding` before the left edge of `w`, flush with its upper edge.
    fn left_of<W: WidgetBase>(self, app: &mut App, w: &W, padding: i32) -> (r: Self)
        requires
            old(app).ready(),
            old(app)@.valid(self.id()),
            old(app)@.valid(w.id()),
            i32::MIN <= old(app)@.widget(w.id()).x - old(app)@.widget(self.id()).width - padding <= i32::MAX,
        ensures
            r == self,
            final(app).ready(),
            final(app)@ == old(app)@.with_props(
                self.id(),
                PropsState {
                    x: (old(app)@.widget(w.id()).x - old(app)@.widget(self.id()).width - padding) as i32,
                    y: (old(app)@.widget(w.id()).y) as i32,
                    ..old(app)@.widget(self.id())
                },
            ),
    {
        let other = app.props(w.as_widget_ptr());
        let (ox, oy, ow, oh) = (other.x, other.y, other.width, other.height);
        let p = app.props_mut(self.as_widget_ptr());
        let x: i32 = (ox as i64 - p.width as i64 - padding as i64) as i32;
        let y: i32 = oy;
        p.x = x;
        p.y = y;
        self
    }

    /// Puts the widget in the middle of `w`. Inside a window places count
    /// from the window's own corner, so a window's place on the screen does
    /// not enter. The places are taken as they are now: a later move of `w`
    /// does not move the widget.
    fn center_of<W: WidgetBase>(self, app: &mut App, w: &W) -> (r: Self)
        requires
            old(app).ready(),
            old(app)@.valid(self.id()),
            old(app)@.valid(w.id()),
            i32::MIN <= old(app)@.center_x(self.id(), w.id()) <= i32::MAX,
            i32::MIN <= old(app)@.center_y(self.id(), w.id()) <= i32::MAX,
        ensures
            r == self,
            final(app).ready(),
            final(app)@ == old(app)@.with_props(
                self.id(),
                PropsState {
                    x: old(app)@.center_x(self.id(), w.id()) as i32,
                    y: old(app)@.center_y(self.id(), w.id()) as i32,
                    ..old(app)@.widget(self.id())
                },
            ),
    {
        let window = app.kind(w.as_widget_ptr()).opens_window();
        let other = app.props(w.as_widget_ptr());
        let (ox, oy, ow, oh) = (other.x, other.y, other.width, other.height);
        let p = app.props_mut(self.as_widget_ptr());
        let dx = half_gap(ow, p.width);
        let dy = half_gap(oh, p.height);
        let x: i32 = if window {
            dx
        } else {
            (dx as i64 + ox as i64) as i32
        };
        let y: i32 = if window {
            dy
        } else {
            (dy as i64 + oy as i64) as i32
        };
        p.x = x;
        p.y = y;
        self
    }

    /// Gives the widget the size that `w` has now.
    fn size_of<W: WidgetBase>(self, app: &mut App, w: &W) -> (r: Self)
        requires
            old(app).ready(),
            old(app)@.valid(self.id()),
            old(app)@.valid(w.id()),
        ensures
            r == self,
            final(app).ready(),
            final(app)@ == old(app)@.with_props(
                self.id(),
                PropsState {
                    width: old(app)@.widget(w.id()).width,
                    height: old(app)@.widget(w.id()).height,
                    ..old(app)@.widget(self.id())
                },
            ),
    {
        let other = app.props(w.as_widget_ptr());
        let (ow, oh) = (other.width, other.height);
        let p = app.props_mut(self.as_widget_ptr());
        p.width = ow;
        p.height = oh;
        self
    }

    /// Gives the widget the label `title`.
    fn set_label(&mut self, app: &mut App, title: &str)
        requires
            old(app).ready(),
            old(app)@.valid(old(self).id()),
            !contains_nul(title@),
        ensures
            *final(self) == *old(self),
            final(app).ready(),
            final(app)@ == old(app)@.with_props(
                old(self).id(),
                PropsState { label: title@, ..old(app)@.widget(old(self).id()) },
            ),
    {
        let p = app.props_mut(self.as_widget_ptr());
        p.label = title.to_owned();
    }

    /// Asks for the widget to be drawn again.
    fn redraw(&mut self, app: &mut App)
        requires
            old(app).ready(),
            old(app)@.valid(old(self).id()),
        ensures
            *final(self) == *old(self),
            final(app).ready(),
            final(app)@ == old(app)@.with_props(
                old(self).id(),
                PropsState { damaged: true, ..old(app)@.widget(old(self).id()) },
            ),
    {
        let p = app.props_mut(self.as_widget_ptr());
        p.damaged = true;
    }

    /// Shows the widget.
    fn show(&mut self, app: &mut App)
        requires
            old(app).ready(),
            old(app)@.valid(old(self).id()),
        ensures
            *final(self) == *old(self),
            final(app).ready(),
            final(app)@ == old(app)@.with_props(
                old(self).id(),
                PropsState { visible: true, ..old(app)@.widget(old(self).id()) },
            ),
    {
        let p = app.props_mut(self.as_widget_ptr());
        p.visible = true;
    }

    /// Takes the widget out of sight.
    fn conceal(&mut self, app: &mut App)
        requires
            old(app).ready(),
            old(app)@.valid(old(self).id()),
        ensures
            *final(self) == *old(self),
            final(app).ready(),
            final(app)@ == old(app)@.with_props(
                old(self).id(),
                PropsState { visible: false, ..old(app)@.widget(old(self).id()) },
            ),
    {
        let p = app.props_mut(self.as_widget_ptr());
        p.visible = false;
    }

    /// The horizontal place of the widget.
    fn x(&self, app: &App) -> (r: i32)
        requires
            app.ready(),
            app@.valid(self.id()),
        ensures
            r == app@.widget(self.id()).x,
    {
        app.props(self.as_widget_ptr()).x
    }

    /// The vertical place of the widget.
    fn y(&self, app: &App) -> (r: i32)
        requires
            app.ready(),
            app@.valid(self.id()),
        ensures
            r == app@.widget(self.id()).y,
    {
        app.props(self.as_widget_ptr()).y
    }

    /// The width of the widget.
    fn width(&self, app: &App) -> (r: i32)
        requires
            app.ready(),
            app@.valid(self.id()),
        ensures
            r == app@.widget(self.id()).width,
    {
        app.props(self.as_widget_ptr()).width
    }

    /// The height of the widget.
    fn height(&self, app: &App) -> (r: i32)
        requires
            app.ready(),
            app@.valid(self.id()),
        ensures
            r == app@.widget(self.id()).height,
    {
        app.props(self.as_widget_ptr()).height
    }

    /// The label of the widget.
    fn label(&self, app: &App) -> (r: String)
        requires
            app.ready(),
            app@.valid(self.id()),
        ensures
            r@ == app@.widget(self.id()).label,
    {
        app.props(self.as_widget_ptr()).label.clone()
    }

    /// Lets the widget take part in events.
    fn activate(&mut self, app: &mut App)
        requires
            old(app).ready(),
            old(app)@.valid(old(self).id()),
        ensures
            *final(self) == *old(self),
            final(app).ready(),
            final(app)@ == old(app)@.with_props(
                old(self).id(),
                PropsState { active: true, ..old(app)@.widget(old(self).id()) },
            ),
    {
        let p = app.props_mut(self.as_widget_ptr());
        p.active = true;
    }

    /// Keeps the widget out of events.
    fn deactivate(&mut self, app: &mut App)
        requires
            old(app).ready(),
            old(app)@.valid(old(self).id()),
        ensures
            *final(self) == *old(self),
            final(app).ready(),
            final(app)@ == old(app)@.with_props(
                old(self).id(),
                PropsState { active: false, ..old(app)@.widget(old(self).id()) },
            ),
    {
        let p = app.props_mut(self.as_widget_ptr());
        p.active = false;
    }

    /// Asks for the label of the widget to be drawn again.
    fn redraw_label(&mut self, app: &mut App)
        requires
            old(app).ready(),
            old(app)@.valid(old(self).id()),
        ensures
            *final(self) == *old(self),
            final(app).ready(),
            final(app)@ == old(app)@.with_props(
                old(self).id(),
                PropsState { label_damaged: true, ..old(app)@.widget(old(self).id()) },
            ),
    {
        let p = app.props_mut(self.as_widget_ptr());
        p.label_damaged = true;
    }

    /// Moves the widget to `(x, y)` and gives it the size `width` by `height`.
    fn resize(&mut self, app: &mut App, x: i32, y: i32, width: i32, height: i32)
        requires
            old(app).ready(),
            old(app)@.valid(old(self).id()),
        ensures
            *final(self) == *old(self),
            final(app).ready(),
            final(app)@ == old(app)@.with_props(
                old(self).id(),
                PropsState { x, y, width, height, ..old(app)@.widget(old(self).id()) },
            ),
    {
        let p = app.props_mut(self.as_widget_ptr());
        p.x = x;
        p.y = y;
        p.width = width;
        p.height = height;
    }

    /// The tooltip of the widget, if it has one.
    fn tooltip(&self, app: &App) -> (r: Option<String>)
        requires
            app.ready(),
            app@.valid(self.id()),
        ensures
            opt_text(r) == app@.widget(self.id()).tooltip,
    {
        match &app.props(self.as_widget_ptr()).tooltip {
            Some(t) => Some(t.clone()),
            None => None,
        }
    }

    /// Gives the widget the tooltip `txt`.
    fn set_tooltip(&mut self, app: &mut App, txt: &str)
        requires
            old(app).ready(),
            old(app)@.valid(old(self).id()),
            !contains_nul(txt@),
        ensures
            *final(self) == *old(self),
            final(app).ready(),
            final(app)@ == old(app)@.with_props(
                old(self).id(),
                PropsState { tooltip: Some(txt@), ..old(app)@.widget(old(self).id()) },
            ),
    {
        let p = app.props_mut(self.as_widget_ptr());
        p.tooltip = Some(txt.to_owned());
    }

    /// The type of the widget, read as a value of `T`. Where the tag that
    /// the widget holds stands for no value of `T`, this is an error.
    fn get_type<T: WidgetType>(&self, app: &App) -> (r: Result<T, FltkError>)
        requires
            app.ready(),
            app@.valid(self.id()),
        ensures
            r matches Ok(t) ==> T::of_tag(app@.widget(self.id()).type_tag) == Some(t),
            r matches Err(e) ==> T::of_tag(app@.widget(self.id()).type_tag) is None
                && is_unrecognized_tag(e),
    {
        T::from_i32(app.props(self.as_widget_ptr()).type_tag)
    }

    /// Gives the widget the type `typ`.
    fn set_type<T: WidgetType>(&mut self, app: &mut App, typ: T)
        requires
            old(app).ready(),
            old(app)@.valid(old(self).id()),
        ensures
            *final(self) == *old(self),
            final(app).ready(),
            final(app)@ == old(app)@.with_props(
                old(self).id(),
                PropsState { type_tag: typ.tag(), ..old(app)@.widget(old(self).id()) },
            ),
    {
        let tag = typ.to_int();
        let p = app.props_mut(self.as_widget_ptr());
        p.type_tag = tag;
    }

    /// The colour of the widget.
    fn color(&self, app: &App) -> (r: Color)
        requires
            app.ready(),
            app@.valid(self.id()),
        ensures
            r == app@.widget(self.id()).color,
    {
        app.props(self.as_widget_ptr()).color
    }

    /// Gives the widget the colour `color`.
    fn set_color(&mut self, app: &mut App, color: Color)
        requires
            old(app).ready(),
            old(app)@.valid(old(self).id()),
        ensures
            *final(self) == *old(self),
            final(app).ready(),
            final(app)@ == old(app)@.with_props(
                old(self).id(),
                PropsState { color: color, ..old(app)@.widget(old(self).id()) },
            ),
    {
        let p = app.props_mut(self.as_widget_ptr());
        p.color = color;
    }

    /// The colour of the label.
    fn label_color(&self, app: &App) -> (r: Color)
        requires
            app.ready(),
            app@.valid(self.id()),
        ensures
            r == app@.widget(self.id()).label_color,
    {
        app.props(self.as_widget_ptr()).label_color
    }

    /// Gives the label the colour `color`.
    fn set_label_color(&mut self, app: &mut App, color: Color)
        requires
            old(app).ready(),
            old(app)@.valid(old(self).id()),
        ensures
            *final(self) == *old(self),
            final(app).ready(),
            final(app)@ == old(app)@.with_props(
                old(self).id(),
                PropsState { label_color: color, ..old(app)@.widget(old(self).id()) },
            ),
    {
        let p = app.props_mut(self.as_widget_ptr());
        p.label_color = color;
    }

    /// The typeface of the label.
    fn label_font(&self, app: &App) -> (r: Font)
        requires
            app.ready(),
            app@.valid(self.id()),
        ensures
            r == app@.widget(self.id()).label_font,
    {
        app.props(self.as_widget_ptr()).label_font
    }

    /// Gives the label the typeface `font`.
    fn set_label_font(&mut self, app: &mut App, font: Font)
        requires
            old(app).ready(),
            old(app)@.valid(old(self).id()),
        ensures
            *final(self) == *old(self),
            final(app).ready(),
            final(app)@ == old(app)@.with_props(
                old(self).id(),
                PropsState { label_font: font, ..old(app)@.widget(old(self).id()) },
            ),
    {
        let p = app.props_mut(self.as_widget_ptr());
        p.label_font = font;
    }

    /// The size of the label.
    fn label_size(&self, app: &App) -> (r: i32)
        requires
            app.ready(),
            app@.valid(self.id()),
        ensures
            r == app@.widget(self.id()).label_size,
    {
        app.props(self.as_widget_ptr()).label_size
    }

    /// Gives the label the size `sz`.
    fn set_label_size(&mut self, app: &mut App, sz: i32)
        requires
            old(app).ready(),
            old(app)@.valid(old(self).id()),
        ensures
            *final(self) == *old(self),
            final(app).ready(),
            final(app)@ == old(app)@.with_props(
                old(self).id(),
                PropsState { label_size: sz, ..old(app)@.widget(old(self).id()) },
            ),
    {
        let p = app.props_mut(self.as_widget_ptr());
        p.label_size = sz;
    }

    /// The label type of the widget, read as a value of `T`. Where the tag that
    /// the widget holds stands for no value of `T`, this is an error.
    fn label_type<T: WidgetType>(&self, app: &App) -> (r: Result<T, FltkError>)
        requires
            app.ready(),
            app@.valid(self.id()),
        ensures
            r matches Ok(t) ==> T::of_tag(app@.widget(self.id()).label_type) == Some(t),
            r matches Err(e) ==> T::of_tag(app@.widget(self.id()).label_type) is None
                && is_unrecognized_tag(e),
    {
        T::from_i32(app.props(self.as_widget_ptr()).label_type)
    }

    /// Gives the widget the label type `typ`.
    fn set_label_type<T: WidgetType>(&mut self, app: &mut App, typ: T)
        requires
            old(app).ready(),
            old(app)@.valid(old(self).id()),
        ensures
            *final(self) == *old(self),
            final(app).ready(),
            final(app)@ == old(app)@.with_props(
                old(self).id(),
                PropsState { label_type: typ.tag(), ..old(app)@.widget(old(self).id()) },
            ),
    {
        let tag = typ.to_int();
        let p = app.props_mut(self.as_widget_ptr());
        p.label_type = tag;
    }

    /// The frame type of the widget, read as a value of `T`. Where the tag that
    /// the widget holds stands for no value of `T`, this is an error.
    fn frame<T: WidgetType>(&self, app: &App) -> (r: Result<T, FltkError>)
        requires
            app.ready(),
            app@.valid(self.id()),
        ensures
            r matches Ok(t) ==> T::of_tag(app@.widget(self.id()).frame) == Some(t),
            r matches Err(e) ==> T::of_tag(app@.widget(self.id()).frame) is None
                && is_unrecognized_tag(e),
    {
        T::from_i32(app.props(self.as_widget_ptr()).frame)
    }

    /// Gives the widget the frame type `typ`.
    fn set_frame<T: WidgetType>(&mut self, app: &mut App, typ: T)
        requires
            old(app).ready(),
            old(app)@.valid(old(self).id()),
        ensures
            *final(self) == *old(self),
            final(app).ready(),
            final(app)@ == old(app)@.with_props(
                old(self).id(),
                PropsState { frame: typ.tag(), ..old(app)@.widget(old(self).id()) },
            ),
    {
        let tag = typ.to_int();
        let p = app.props_mut(self.as_widget_ptr());
        p.frame = tag;
    }

    /// Whether the widget is marked as changed.
    fn changed(&self, app: &App) -> (r: bool)
        requires
            app.ready(),
            app@.valid(self.id()),
        ensures
            r == app@.widget(self.id()).changed,
    {
        app.props(self.as_widget_ptr()).changed
    }

    /// Marks the widget as changed.
    fn set_changed(&mut self, app: &mut App)
        requires
            old(app).ready(),
            old(app)@.valid(old(self).id()),
        ensures
            *final(self) == *old(self),
            final(app).ready(),
            final(app)@ == old(app)@.with_props(
                old(self).id(),
                PropsState { changed: true, ..old(app)@.widget(old(self).id()) },
            ),
    {
        let p = app.props_mut(self.as_widget_ptr());
        p.changed = true;
    }

    /// Marks the widget as unchanged.
    fn clear_changed(&mut self, app: &mut App)
        requires
            old(app).ready(),
            old(app)@.valid(old(self).id()),
        ensures
            *final(self) == *old(self),
            final(app).ready(),
            final(app)@ == old(app)@.with_props(
                old(self).id(),
                PropsState { changed: false, ..old(app)@.widget(old(self).id()) },
            ),
    {
        let p = app.props_mut(self.as_widget_ptr());
        p.changed = false;
    }

    /// Where the label sits.
    fn align(&self, app: &App) -> (r: Align)
        requires
            app.ready(),
            app@.valid(self.id()),
        ensures
            r == app@.widget(self.id()).align,
    {
        app.props(self.as_widget_ptr()).align
    }

    /// Puts the label at `align`.
    fn set_align(&mut self, app: &mut App, align: Align)
        requires
            old(app).ready(),
            old(app)@.valid(old(self).id()),
        ensures
            *final(self) == *old(self),
            final(app).ready(),
            final(app)@ == old(app)@.with_props(
                old(self).id(),
                PropsState { align: align, ..old(app)@.widget(old(self).id()) },
            ),
    {
        let p = app.props_mut(self.as_widget_ptr());
        p.align = align;
    }

    /// Gives the widget the picture `image`, at the picture's own size.
    fn set_image(&mut self, app: &mut App, image: &Image)
        requires
            old(app).ready(),
            old(app)@.valid(old(self).id()),
        ensures
            *final(self) == *old(self),
            final(app).ready(),
            final(app)@ == old(app)@.with_props(
                old(self).id(),
                PropsState { image: Some(*image), ..old(app)@.widget(old(self).id()) },
            ),
    {
        let p = app.props_mut(self.as_widget_ptr());
        p.image = Some(*image);
    }

    /// Gives the widget the picture `image`, drawn at the size `w` by `h`.
    fn set_image_with_size(&mut self, app: &mut App, image: &Image, w: i32, h: i32)
        requires
            old(app).ready(),
            old(app)@.valid(old(self).id()),
        ensures
            *final(self) == *old(self),
            final(app).ready(),
            final(app)@ == old(app)@.with_props(
                old(self).id(),
                PropsState {
                    image: Some(Image { resource: image.resource, width: w, height: h }),
                    ..old(app)@.widget(old(self).id())
                },
            ),
    {
        let p = app.props_mut(self.as_widget_ptr());
        p.image = Some(Image { resource: image.resource, width: w, height: h });
    }

    /// The picture of the widget, if it has one.
    fn image(&self, app: &App) -> (r: Option<Image>)
        requires
            app.ready(),
            app@.valid(self.id()),
        ensures
            r == app@.widget(self.id()).image,
    {
        app.props(self.as_widget_ptr()).image
    }

    /// Registers `cb` as what the widget does when it is triggered, in place of what was registered before.
    fn set_callback(&mut self, app: &mut App, cb: Callback)
        requires
            old(app).ready(),
            old(app)@.valid(old(self).id()),
        ensures
            *final(self) == *old(self),
            final(app).ready(),
            final(app)@ == old(app)@.with_props(
                old(self).id(),
                PropsState { callback: Some(cb), ..old(app)@.widget(old(self).id()) },
            ),
    {
        let p = app.props_mut(self.as_widget_ptr());
        p.callback = Some(cb);
    }

    /// Empties the callback slot: the widget does nothing when it is triggered.
    fn clear_callback(&mut self, app: &mut App)
        requires
            old(app).ready(),
            old(app)@.valid(old(self).id()),
        ensures
            *final(self) == *old(self),
            final(app).ready(),
            final(app)@ == old(app)@.with_props(
                old(self).id(),
                PropsState { callback: None, ..old(app)@.widget(old(self).id()) },
            ),
    {
        let p = app.props_mut(self.as_widget_ptr());
        p.callback = None;
    }

    /// Registers `cb` as the handler that sees every event before the widget does. The handler must answer each event with a definite yes or no: whether it has used the event up.
    fn set_custom_handler(&mut self, app: &mut App, cb: Callback)
        requires
            old(app).ready(),
            old(app)@.valid(old(self).id()),
        ensures
            *final(self) == *old(self),
            final(app).ready(),
            final(app)@ == old(app)@.with_props(
                old(self).id(),
                PropsState { custom_handler: Some(cb), ..old(app)@.widget(old(self).id()) },
            ),
    {
        let p = app.props_mut(self.as_widget_ptr());
        p.custom_handler = Some(cb);
    }

    /// Lets the widget fire its callback under the condition `trigger`.
    fn set_trigger(&mut self, app: &mut App, trigger: CallbackTrigger)
        requires
            old(app).ready(),
            old(app)@.valid(old(self).id()),
        ensures
            *final(self) == *old(self),
            final(app).ready(),
            final(app)@ == old(app)@.with_props(
                old(self).id(),
                PropsState { trigger: trigger, ..old(app)@.widget(old(self).id()) },
            ),
    {
        let p = app.props_mut(self.as_widget_ptr());
        p.trigger = trigger;
    }

    /// Registers `cb` as what draws the widget, in place of the widget's own drawing. It must not ask for the widget to be drawn again without end.
    fn set_custom_draw(&mut self, app: &mut App, cb: Callback)
        requires
            old(app).ready(),
            old(app)@.valid(old(self).id()),
        ensures
            *final(self) == *old(self),
            final(app).ready(),
            final(app)@ == old(app)@.with_props(
                old(self).id(),
                PropsState { custom_draw: Some(cb), ..old(app)@.widget(old(self).id()) },
            ),
    {
        let p = app.props_mut(self.as_widget_ptr());
        p.custom_draw = Some(cb);
    }

    /// The group that holds the widget.
    fn parent(&self, app: &App) -> (r: Option<Widget>)
        requires
            app.ready(),
            app@.valid(self.id()),
        ensures
            r matches Some(p) ==> app@.node(self.id()).parent == Some(p.id().index) && app@.valid(
                p.id(),
            ),
            r is None ==> app@.node(self.id()).parent is None,
    {
        match app.parent(self.as_widget_ptr()) {
            Some(p) => Some(Widget::from_widget_ptr(p)),
            None => None,
        }
    }

    /// The colour of what is selected in the widget.
    fn selection_color(&mut self, app: &App) -> (r: Color)
        requires
            app.ready(),
            app@.valid(old(self).id()),
        ensures
            r == app@.widget(old(self).id()).selection_color,
            *final(self) == *old(self),
    {
        app.props(self.as_widget_ptr()).selection_color
    }

    /// Gives what is selected in the widget the colour `color`.
    fn set_selection_color(&mut self, app: &mut App, color: Color)
        requires
            old(app).ready(),
            old(app)@.valid(old(self).id()),
        ensures
            *final(self) == *old(self),
            final(app).ready(),
            final(app)@ == old(app)@.with_props(
                old(self).id(),
                PropsState { selection_color: color, ..old(app)@.widget(old(self).id()) },
            ),
    {
        let p = app.props_mut(self.as_widget_ptr());
        p.selection_color = color;
    }

    /// Triggers the widget: the answer is the callback that is now due, the
    /// one registered last, exactly once; none where the slot is empty.
    /// Nothing changes.
    fn do_callback(&mut self, app: &App) -> (r: Option<Callback>)
        requires
            app.ready(),
            app@.valid(old(self).id()),
        ensures
            *final(self) == *old(self),
            r == app@.widget(old(self).id()).callback,
    {
        app.props(self.as_widget_ptr()).callback
    }

    /// Whether the widget is `wid` or stands somewhere below it.
    fn inside(&self, app: &App, wid: Widget) -> (b: bool)
        requires
            app.ready(),
            app@.valid(self.id()),
        ensures
            b == app@.contains(wid.id(), self.id()),
    {
        app.inside(self.as_widget_ptr(), wid.as_widget_ptr())
    }

    /// The nearest window above the widget.
    fn window(&self, app: &App) -> (r: Option<Window>)
        requires
            app.ready(),
            app@.valid(self.id()),
        ensures
            r matches Some(win) ==> app@.valid(win.id()) && exists|k: nat|
                app@.window_at(self.id(), win.id(), k),
            r is None ==> app@.windowless(self.id()),
    {
        match app.window(self.as_widget_ptr()) {
            Some(h) => {
                let win = Window::from_widget_ptr(h);
                proof {
                    let k = choose|k: nat| app@.window_at(self.id(), h, k);
                    assert(app@.window_at(self.id(), win.id(), k));
                }
                Some(win)
            },
            None => None,
        }
    }

    /// The window at the top of the tree that the widget stands in, if a
    /// window is what stands there.
    fn top_window(&self, app: &App) -> (r: Option<Window>)
        requires
            app.ready(),
            app@.valid(self.id()),
        ensures
            r matches Some(win) ==> app@.valid(win.id()) && app@.root_of(self.id(), win.id())
                && app@.node(win.id()).kind.is_window(),
            r is None ==> forall|top: Handle| #[trigger]
                app@.root_of(self.id(), top) ==> !app@.node(top).kind.is_window(),
    {
        let top = app.root(self.as_widget_ptr());
        proof {
            app.inv_well_formed();
            crate::app::lemma_root_unique(app@, self.id());
        }
        if app.kind(top).opens_window() {
            Some(Window::from_widget_ptr(top))
        } else {
            None
        }
    }
}

/// Clips a count to what fits the narrower unsigned type.
pub open spec fn clipped(n: int) -> u32 {
    if n > u32::MAX {
        u32::MAX
    } else {
        n as u32
    }
}

/// Clips a count to what fits the narrower unsigned type.
pub fn clip(n: usize) -> (r: u32)
    ensures
        r == clipped(n as int),
{
    if n > u32::MAX as usize {
        u32::MAX
    } else {
        n as u32
    }
}

/// What a widget that holds other widgets can do.
pub trait GroupTrait: WidgetTrait {
    /// Opens the group: widgets made from now on become its children.
    fn begin(&self, app: &mut App)
        requires
            old(app).ready(),
            old(app)@.valid(self.id()),
            old(app)@.node(self.id()).kind.is_group(),
        ensures
            final(app).ready(),
            final(app)@ == old(app)@.begun(self.id()),
    {
        app.begin(self.as_widget_ptr());
    }

    /// Closes the group: widgets made from now on become children of the
    /// group that holds this one.
    fn end(&self, app: &mut App)
        requires
            old(app).ready(),
            old(app)@.valid(self.id()),
        ensures
            final(app).ready(),
            final(app)@ == old(app)@.ended(self.id()),
    {
        app.end(self.as_widget_ptr());
    }

    /// The place of `widget` among the children, or their number where it is
    /// not one of them.
    fn find<W: WidgetBase>(&self, app: &App, widget: &W) -> (r: u32)
        requires
            app.ready(),
            app@.valid(self.id()),
        ensures
            exists|n: int|
                0 <= n <= app@.node(self.id()).children.len() && r == clipped(n) && (n
                    < app@.node(self.id()).children.len() ==> app@.node(self.id()).children[n]
                    == widget.id().index) && (n == app@.node(self.id()).children.len()
                    ==> !app@.node(self.id()).children.contains(widget.id().index)),
    {
        clip(app.find(self.as_widget_ptr(), widget.as_widget_ptr()))
    }

    /// Puts `widget` behind the last child. It leaves the group that held it.
    fn add<W: WidgetBase>(&mut self, app: &mut App, widget: &W)
        requires
            old(app).ready(),
            old(app)@.valid(old(self).id()),
            old(app)@.node(old(self).id()).kind.is_group(),
            old(app)@.valid(widget.id()),
            !old(app)@.contains(widget.id(), old(self).id()),
        ensures
            *final(self) == *old(self),
            final(app).ready(),
            final(app)@ == old(app)@.inserted(
                old(self).id(),
                widget.id(),
                old(app)@.node(old(self).id()).children.len() as int,
            ),
    {
        app.add(self.as_widget_ptr(), widget.as_widget_ptr());
    }

    /// Puts `widget` among the children at `index`, or behind the last child
    /// where there are fewer. It leaves the group that held it.
    fn insert<W: WidgetBase>(&mut self, app: &mut App, widget: &W, index: u32)
        requires
            old(app).ready(),
            old(app)@.valid(old(self).id()),
            old(app)@.node(old(self).id()).kind.is_group(),
            old(app)@.valid(widget.id()),
            !old(app)@.contains(widget.id(), old(self).id()),
        ensures
            *final(self) == *old(self),
            final(app).ready(),
            final(app)@ == old(app)@.inserted(old(self).id(), widget.id(), index as int),
    {
        app.insert(self.as_widget_ptr(), widget.as_widget_ptr(), index as usize);
    }

    /// Removes the child at `index` and destroys it with all that stands
    /// below it. Handles to those widgets are no longer valid.
    fn remove(&mut self, app: &mut App, index: u32)
        requires
            old(app).ready(),
            old(app)@.valid(old(self).id()),
        ensures
            *final(self) == *old(self),
            final(app).ready(),
            final(app)@ == old(app)@.removed(old(self).id(), index as int),
    {
        app.remove(self.as_widget_ptr(), index as usize);
    }

    /// Removes all children and destroys them with all that stands below
    /// them. Handles to those widgets are no longer valid.
    fn clear(&mut self, app: &mut App)
        requires
            old(app).ready(),
            old(app)@.valid(old(self).id()),
        ensures
            *final(self) == *old(self),
            final(app).ready(),
            final(app)@ == old(app)@.cleared(old(self).id()),
    {
        app.clear(self.as_widget_ptr());
    }

    /// How many children the group holds.
    fn children(&self, app: &App) -> (r: u32)
        requires
            app.ready(),
            app@.valid(self.id()),
        ensures
            r == clipped(app@.node(self.id()).children.len() as int),
    {
        clip(app.child_count(self.as_widget_ptr()))
    }

    /// The child at `idx`, if the group holds that many.
    fn child(&self, app: &App, idx: u32) -> (r: Option<Widget>)
        requires
            app.ready(),
            app@.valid(self.id()),
        ensures
            idx < app@.node(self.id()).children.len() ==> (r matches Some(c) && c.id().index
                == app@.node(self.id()).children[idx as int]),
            idx >= app@.node(self.id()).children.len() ==> r is None,
    {
        match app.child(self.as_widget_ptr(), idx as usize) {
            Some(h) => Some(Widget::from_widget_ptr(h)),
            None => None,
        }
    }

    /// Names `widget` as the child that takes up the extra space when the
    /// group is resized.
    fn resizable<W: WidgetBase>(&self, app: &mut App, widget: &mut W)
        requires
            old(app).ready(),
            old(app)@.valid(self.id()),
            old(app)@.valid(old(widget).id()),
        ensures
            *final(widget) == *old(widget),
            final(app).ready(),
            final(app)@ == old(app)@.with_resizable(self.id(), old(widget).id()),
    {
        app.set_resizable(self.as_widget_ptr(), widget.as_widget_ptr());
    }
}

/// What a window can do.
pub trait WindowTrait: GroupTrait {
    /// Puts the window in the middle of the screen.
    fn center_screen(self, app: &mut App) -> (r: Self)
        requires
            old(app).ready(),
            old(app)@.valid(self.id()),
        ensures
            r == self,
            final(app).ready(),
            final(app)@ == old(app)@.with_props(
                self.id(),
                PropsState {
                    x: half(old(app)@.screen_width - old(app)@.widget(self.id()).width) as i32,
                    y: half(old(app)@.screen_height - old(app)@.widget(self.id()).height) as i32,
                    ..old(app)@.widget(self.id())
                },
            ),
    {
        let (sw, sh) = app.screen_size();
        let p = app.props_mut(self.as_widget_ptr());
        let x = half_gap(sw, p.width);
        let y = half_gap(sh, p.height);
        p.x = x;
        p.y = y;
        self
    }

    /// Makes the window keep all events to itself, or stops it doing so.
    fn make_modal(&mut self, app: &mut App, val: bool)
        requires
            old(app).ready(),
            old(app)@.valid(old(self).id()),
        ensures
            *final(self) == *old(self),
            final(app).ready(),
            final(app)@ == old(app)@.with_props(
                old(self).id(),
                PropsState { modal: val, ..old(app)@.widget(old(self).id()) },
            ),
    {
        let p = app.props_mut(self.as_widget_ptr());
        p.modal = val;
    }

    /// Lets the window fill the screen, or stops it doing so.
    fn fullscreen(&mut self, app: &mut App, val: bool)
        requires
            old(app).ready(),
            old(app)@.valid(old(self).id()),
        ensures
            *final(self) == *old(self),
            final(app).ready(),
            final(app)@ == old(app)@.with_props(
                old(self).id(),
                PropsState { fullscreen: val, ..old(app)@.widget(old(self).id()) },
            ),
    {
        let p = app.props_mut(self.as_widget_ptr());
        p.fullscreen = val;
    }

    /// Makes the window the target of the drawing that follows.
    fn make_current(&mut self, app: &mut App)
        requires
            old(app).ready(),
            old(app)@.valid(old(self).id()),
        ensures
            *final(self) == *old(self),
            final(app).ready(),
            final(app)@ == (AppState { drawing: Some(old(self).id().index), ..old(app)@ }),
    {
        app.make_current(self.as_widget_ptr());
    }

    /// Gives the window the icon `image`.
    fn set_icon(&mut self, app: &mut App, image: &Image)
        requires
            old(app).ready(),
            old(app)@.valid(old(self).id()),
        ensures
            *final(self) == *old(self),
            final(app).ready(),
            final(app)@ == old(app)@.with_props(
                old(self).id(),
                PropsState { icon: Some(*image), ..old(app)@.widget(old(self).id()) },
            ),
    {
        let p = app.props_mut(self.as_widget_ptr());
        p.icon = Some(*image);
    }

    /// The icon of the window, if it has one.
    fn icon(&self, app: &App) -> (r: Option<Image>)
        requires
            app.ready(),
            app@.valid(self.id()),
        ensures
            r == app@.widget(self.id()).icon,
    {
        app.props(self.as_widget_ptr()).icon
    }

    /// Lets the user resize the window, or stops them doing so.
    fn make_resizable(&mut self, app: &mut App, val: bool)
        requires
            old(app).ready(),
            old(app)@.valid(old(self).id()),
        ensures
            *final(self) == *old(self),
            final(app).ready(),
            final(app)@ == old(app)@.with_props(
                old(self).id(),
                PropsState { resizable: val, ..old(app)@.widget(old(self).id()) },
            ),
    {
        let p = app.props_mut(self.as_widget_ptr());
        p.resizable = val;
    }

}

/// What a widget that holds a line of text can do.
pub trait InputTrait: WidgetTrait {
    /// The text of the field.
    fn value(&self, app: &App) -> (r: String)
        requires
            app.ready(),
            app@.valid(self.id()),
        ensures
            r@ == app@.widget(self.id()).value,
    {
        app.props(self.as_widget_ptr()).value.clone()
    }

    /// Gives the field the text `val`, whatever its greatest size. The cursor
    /// and the mark stand behind the text, or before it where the field is
    /// read-only; the field is marked as unchanged and remembers nothing.
    fn set_value(&self, app: &mut App, val: &str)
        requires
            old(app).ready(),
            old(app)@.valid(self.id()),
            !contains_nul(val@),
        ensures
            final(app).ready(),
            final(app)@ == old(app)@.with_props(
                self.id(),
                PropsState {
                    value: val@,
                    position: if old(app)@.widget(self.id()).readonly {
                        0
                    } else {
                        saturated(val@.len() as int)
                    },
                    mark: if old(app)@.widget(self.id()).readonly {
                        0
                    } else {
                        saturated(val@.len() as int)
                    },
                    changed: false,
                    undo: None,
                    ..old(app)@.widget(self.id())
                },
            ),
    {
        let p = app.props_mut(self.as_widget_ptr());
        let at = if p.readonly {
            0
        } else {
            saturate(char_len(val) as u128)
        };
        p.value = val.to_owned();
        p.position = at;
        p.mark = at;
        p.changed = false;
        p.undo = None;
    }

    /// The greatest number of characters that an edit lets the field hold.
    fn maximum_size(&self, app: &App) -> (r: u32)
        requires
            app.ready(),
            app@.valid(self.id()),
        ensures
            r == app@.widget(self.id()).maximum_size,
    {
        app.props(self.as_widget_ptr()).maximum_size
    }

    /// Lets edits fill the field up to `val` characters. The text it holds stays.
    fn set_maximum_size(&mut self, app: &mut App, val: u32)
        requires
            old(app).ready(),
            old(app)@.valid(old(self).id()),
        ensures
            *final(self) == *old(self),
            final(app).ready(),
            final(app)@ == old(app)@.with_props(
                old(self).id(),
                PropsState { maximum_size: val, ..old(app)@.widget(old(self).id()) },
            ),
    {
        let p = app.props_mut(self.as_widget_ptr());
        p.maximum_size = val;
    }

    /// Where the cursor stands.
    fn position(&self, app: &App) -> (r: i32)
        requires
            app.ready(),
            app@.valid(self.id()),
        ensures
            r == app@.widget(self.id()).position,
    {
        app.props(self.as_widget_ptr()).position
    }

    /// Puts the cursor and the mark at `val`, moved into the text.
    fn set_position(&mut self, app: &mut App, val: i32)
        requires
            old(app).ready(),
            old(app)@.valid(old(self).id()),
        ensures
            *final(self) == *old(self),
            final(app).ready(),
            final(app)@ == old(app)@.with_props(
                old(self).id(),
                PropsState {
                    position: clamped(
                        val as int,
                        old(app)@.widget(old(self).id()).value.len() as int,
                    ) as i32,
                    mark: clamped(
                        val as int,
                        old(app)@.widget(old(self).id()).value.len() as int,
                    ) as i32,
                    ..old(app)@.widget(old(self).id())
                },
            ),
    {
        let p = app.props_mut(self.as_widget_ptr());
        let at = clamp_index(val as i64, char_len(p.value.as_str())) as i32;
        p.position = at;
        p.mark = at;
    }

    /// Where the mark stands.
    fn mark(&self, app: &App) -> (r: i32)
        requires
            app.ready(),
            app@.valid(self.id()),
        ensures
            r == app@.widget(self.id()).mark,
    {
        app.props(self.as_widget_ptr()).mark
    }

    /// Puts the mark at `val`, moved into the text.
    fn set_mark(&mut self, app: &mut App, val: i32)
        requires
            old(app).ready(),
            old(app)@.valid(old(self).id()),
        ensures
            *final(self) == *old(self),
            final(app).ready(),
            final(app)@ == old(app)@.with_props(
                old(self).id(),
                PropsState {
                    mark: clamped(
                        val as int,
                        old(app)@.widget(old(self).id()).value.len() as int,
                    ) as i32,
                    ..old(app)@.widget(old(self).id())
                },
            ),
    {
        let p = app.props_mut(self.as_widget_ptr());
        let at = clamp_index(val as i64, char_len(p.value.as_str())) as i32;
        p.mark = at;
    }

    /// Replaces the characters between `beg` and `end` by `val`: see
    /// `replaced`.
    fn replace(&mut self, app: &mut App, beg: u32, end: u32, val: &str)
        requires
            old(app).ready(),
            old(app)@.valid(old(self).id()),
            !contains_nul(val@),
        ensures
            *final(self) == *old(self),
            final(app).ready(),
            final(app)@ == old(app)@.with_props(
                old(self).id(),
                replaced(old(app)@.widget(old(self).id()), beg as int, end as int, val@),
            ),
    {
        edit(app, self.as_widget_ptr(), beg as i64, end as i64, val);
    }

    /// Puts `txt` in place of the selection, or at the cursor where nothing is
    /// selected: see `replaced`.
    fn insert(&mut self, app: &mut App, txt: &str)
        requires
            old(app).ready(),
            old(app)@.valid(old(self).id()),
            !contains_nul(txt@),
        ensures
            *final(self) == *old(self),
            final(app).ready(),
            final(app)@ == old(app)@.with_props(
                old(self).id(),
                replaced(
                    old(app)@.widget(old(self).id()),
                    old(app)@.widget(old(self).id()).position as int,
                    old(app)@.widget(old(self).id()).mark as int,
                    txt@,
                ),
            ),
    {
        let p = app.props(self.as_widget_ptr());
        let (position, mark) = (p.position, p.mark);
        edit(app, self.as_widget_ptr(), position as i64, mark as i64, txt);
    }

    /// Puts `txt` behind the text: see `replaced`.
    fn append(&mut self, app: &mut App, txt: &str)
        requires
            old(app).ready(),
            old(app)@.valid(old(self).id()),
            !contains_nul(txt@),
        ensures
            *final(self) == *old(self),
            final(app).ready(),
            final(app)@ == old(app)@.with_props(
                old(self).id(),
                replaced(
                    old(app)@.widget(old(self).id()),
                    old(app)@.widget(old(self).id()).value.len() as int,
                    old(app)@.widget(old(self).id()).value.len() as int,
                    txt@,
                ),
            ),
    {
        edit(app, self.as_widget_ptr(), i64::MAX, i64::MAX, txt);
    }

    /// Copies the selection to the clipboard. Where nothing is selected the
    /// clipboard keeps what it holds.
    fn copy(&mut self, app: &mut App)
        requires
            old(app).ready(),
            old(app)@.valid(old(self).id()),
        ensures
            *final(self) == *old(self),
            final(app).ready(),
            final(app)@ == (AppState {
                clipboard: if selection(old(app)@.widget(old(self).id())).len() > 0 {
                    selection(old(app)@.widget(old(self).id()))
                } else {
                    old(app)@.clipboard
                },
                ..old(app)@
            }),
    {
        let p = app.props(self.as_widget_ptr());
        let len = char_len(p.value.as_str());
        let a = clamp_index(p.position as i64, len);
        let b = clamp_index(p.mark as i64, len);
        let (lo, hi) = if a < b {
            (a, b)
        } else {
            (b, a)
        };
        if lo < hi {
            let picked = String::from_str(p.value.as_str().substring_char(lo, hi));
            app.set_clipboard(picked);
        }
    }

    /// Takes the last edit back: see `undone`.
    fn undo(&mut self, app: &mut App)
        requires
            old(app).ready(),
            old(app)@.valid(old(self).id()),
        ensures
            *final(self) == *old(self),
            final(app).ready(),
            final(app)@ == old(app)@.with_props(
                old(self).id(),
                undone(old(app)@.widget(old(self).id())),
            ),
    {
        let p = app.props_mut(self.as_widget_ptr());
        match p.undo.take() {
            Some(s) => {
                let now = Snapshot { value: p.value.clone(), position: p.position, mark: p.mark };
                p.value = s.value;
                p.position = s.position;
                p.mark = s.mark;
                p.changed = true;
                p.undo = Some(now);
            },
            None => {},
        }
    }

    /// Moves the selection to the clipboard: copies it as `copy` does, then
    /// takes it out of the text as `replaced` says.
    fn cut(&mut self, app: &mut App)
        requires
            old(app).ready(),
            old(app)@.valid(old(self).id()),
        ensures
            *final(self) == *old(self),
            final(app).ready(),
            final(app)@ == (AppState {
                clipboard: if selection(old(app)@.widget(old(self).id())).len() > 0 {
                    selection(old(app)@.widget(old(self).id()))
                } else {
                    old(app)@.clipboard
                },
                ..old(app)@
            }).with_props(
                old(self).id(),
                replaced(
                    old(app)@.widget(old(self).id()),
                    old(app)@.widget(old(self).id()).position as int,
                    old(app)@.widget(old(self).id()).mark as int,
                    Seq::empty(),
                ),
            ),
    {
        self.copy(app);
        let p = app.props(self.as_widget_ptr());
        let (position, mark) = (p.position, p.mark);
        let nothing = String::new();
        proof {
            crate::text::lemma_empty_has_no_nul();
        }
        edit(app, self.as_widget_ptr(), position as i64, mark as i64, nothing.as_str());
    }

    /// The typeface of the text.
    fn text_font(&self, app: &App) -> (r: Font)
        requires
            app.ready(),
            app@.valid(self.id()),
        ensures
            r == app@.widget(self.id()).text_font,
    {
        app.props(self.as_widget_ptr()).text_font
    }

    /// Gives the text the typeface `font`.
    fn set_text_font(&mut self, app: &mut App, font: Font)
        requires
            old(app).ready(),
            old(app)@.valid(old(self).id()),
        ensures
            *final(self) == *old(self),
            final(app).ready(),
            final(app)@ == old(app)@.with_props(
                old(self).id(),
                PropsState { text_font: font, ..old(app)@.widget(old(self).id()) },
            ),
    {
        let p = app.props_mut(self.as_widget_ptr());
        p.text_font = font;
    }

    /// The colour of the text.
    fn text_color(&self, app: &App) -> (r: Color)
        requires
            app.ready(),
            app@.valid(self.id()),
        ensures
            r == app@.widget(self.id()).text_color,
    {
        app.props(self.as_widget_ptr()).text_color
    }

    /// Gives the text the colour `color`.
    fn set_text_color(&mut self, app: &mut App, color: Color)
        requires
            old(app).ready(),
            old(app)@.valid(old(self).id()),
        ensures
            *final(self) == *old(self),
            final(app).ready(),
            final(app)@ == old(app)@.with_props(
                old(self).id(),
                PropsState { text_color: color, ..old(app)@.widget(old(self).id()) },
            ),
    {
        let p = app.props_mut(self.as_widget_ptr());
        p.text_color = color;
    }

    /// The size of the text.
    fn text_size(&self, app: &App) -> (r: u32)
        requires
            app.ready(),
            app@.valid(self.id()),
        ensures
            r == app@.widget(self.id()).text_size,
    {
        app.props(self.as_widget_ptr()).text_size
    }

    /// Gives the text the size `sz`.
    fn set_text_size(&mut self, app: &mut App, sz: u32)
        requires
            old(app).ready(),
            old(app)@.valid(old(self).id()),
        ensures
            *final(self) == *old(self),
            final(app).ready(),
            final(app)@ == old(app)@.with_props(
                old(self).id(),
                PropsState { text_size: sz, ..old(app)@.widget(old(self).id()) },
            ),
    {
        let p = app.props_mut(self.as_widget_ptr());
        p.text_size = sz;
    }

    /// Whether the user is kept from changing the text.
    fn readonly(&self, app: &App) -> (r: bool)
        requires
            app.ready(),
            app@.valid(self.id()),
        ensures
            r == app@.widget(self.id()).readonly,
    {
        app.props(self.as_widget_ptr()).readonly
    }

    /// Keeps the user from changing the text, or lets them.
    fn set_readonly(&mut self, app: &mut App, val: bool)
        requires
            old(app).ready(),
            old(app)@.valid(old(self).id()),
        ensures
            *final(self) == *old(self),
            final(app).ready(),
            final(app)@ == old(app)@.with_props(
                old(self).id(),
                PropsState { readonly: val, ..old(app)@.widget(old(self).id()) },
            ),
    {
        let p = app.props_mut(self.as_widget_ptr());
        p.readonly = val;
    }

    /// Whether long lines are broken.
    fn wrap(&self, app: &App) -> (r: bool)
        requires
            app.ready(),
            app@.valid(self.id()),
        ensures
            r == app@.widget(self.id()).wrap,
    {
        app.props(self.as_widget_ptr()).wrap
    }

    /// Breaks long lines, or stops doing so.
    fn set_wrap(&mut self, app: &mut App, val: bool)
        requires
            old(app).ready(),
            old(app)@.valid(old(self).id()),
        ensures
            *final(self) == *old(self),
            final(app).ready(),
            final(app)@ == old(app)@.with_props(
                old(self).id(),
                PropsState { wrap: val, ..old(app)@.widget(old(self).id()) },
            ),
    {
        let p = app.props_mut(self.as_widget_ptr());
        p.wrap = val;
    }

}

/// `i` is the first place at which an item of `items` goes by `name`.
pub open spec fn first_named(items: Seq<MenuEntryState>, name: Seq<char>, i: int) -> bool {
    &&& 0 <= i < items.len()
    &&& items[i].name == name
    &&& forall|j: int| 0 <= j < i ==> items[j].name != name
}

/// Whether an item of `items` goes by `name`.
pub open spec fn any_named(items: Seq<MenuEntryState>, name: Seq<char>) -> bool {
    exists|i: int| 0 <= i < items.len() && items[i].name == name
}

/// What a widget that holds a menu can do.
pub trait MenuTrait: WidgetTrait {
    /// The first item that goes by `name`, the path it was added under.
    fn get_item(&self, app: &App, name: &str) -> (r: Option<MenuItem>)
        requires
            app.ready(),
            app@.valid(self.id()),
        ensures
            r matches Some(item) ==> item.menu == self.id() && first_named(
                app@.widget(self.id()).items,
                name@,
                item.index as int,
            ),
            r is None ==> !any_named(app@.widget(self.id()).items, name@),
    {
        let h = self.as_widget_ptr();
        let wanted = name.to_owned();
        let p = app.props(h);
        let n = p.items.len();
        let mut i: usize = 0;
        while i < n
            invariant
                n == p.items@.len(),
                i <= n,
                wanted@ == name@,
                h == self.id(),
                p@ == app@.widget(h),
                forall|j: int| 0 <= j < i ==> p@.items[j].name != name@,
            decreases n - i,
        {
            proof {
                assert(p@.items[i as int] == p.items@[i as int]@);
            }
            if p.items[i].name == wanted {
                return Some(MenuItem { menu: h, index: i });
            }
            i += 1;
        }
        None
    }

    /// The typeface of the items.
    fn text_font(&self, app: &App) -> (r: Font)
        requires
            app.ready(),
            app@.valid(self.id()),
        ensures
            r == app@.widget(self.id()).text_font,
    {
        app.props(self.as_widget_ptr()).text_font
    }

    /// Gives the items the typeface `c`.
    fn set_text_font(&mut self, app: &mut App, c: Font)
        requires
            old(app).ready(),
            old(app)@.valid(old(self).id()),
        ensures
            *final(self) == *old(self),
            final(app).ready(),
            final(app)@ == old(app)@.with_props(
                old(self).id(),
                PropsState { text_font: c, ..old(app)@.widget(old(self).id()) },
            ),
    {
        let p = app.props_mut(self.as_widget_ptr());
        p.text_font = c;
    }

    /// The size of the items.
    fn text_size(&self, app: &App) -> (r: u32)
        requires
            app.ready(),
            app@.valid(self.id()),
        ensures
            r == app@.widget(self.id()).text_size,
    {
        app.props(self.as_widget_ptr()).text_size
    }

    /// Gives the items the size `c`.
    fn set_text_size(&mut self, app: &mut App, c: u32)
        requires
            old(app).ready(),
            old(app)@.valid(old(self).id()),
        ensures
            *final(self) == *old(self),
            final(app).ready(),
            final(app)@ == old(app)@.with_props(
                old(self).id(),
                PropsState { text_size: c, ..old(app)@.widget(old(self).id()) },
            ),
    {
        let p = app.props_mut(self.as_widget_ptr());
        p.text_size = c;
    }

    /// The colour of the items.
    fn text_color(&self, app: &App) -> (r: Color)
        requires
            app.ready(),
            app@.valid(self.id()),
        ensures
            r == app@.widget(self.id()).text_color,
    {
        app.props(self.as_widget_ptr()).text_color
    }

    /// Gives the items the colour `c`.
    fn set_text_color(&mut self, app: &mut App, c: Color)
        requires
            old(app).ready(),
            old(app)@.valid(old(self).id()),
        ensures
            *final(self) == *old(self),
            final(app).ready(),
            final(app)@ == old(app)@.with_props(
                old(self).id(),
                PropsState { text_color: c, ..old(app)@.widget(old(self).id()) },
            ),
    {
        let p = app.props_mut(self.as_widget_ptr());
        p.text_color = c;
    }

    /// Puts an item behind the last one: it goes by `name`, which is also its
    /// label, has the shortcut `shortcut` and the flag `flag`, and `cb` is due
    /// when it is chosen.
    fn add(&mut self, app: &mut App, name: &str, shortcut: Shortcut, flag: MenuFlag, cb: Callback)
        requires
            old(app).ready(),
            old(app)@.valid(old(self).id()),
            !contains_nul(name@),
        ensures
            *final(self) == *old(self),
            final(app).ready(),
            final(app)@ == old(app)@.with_props(
                old(self).id(),
                PropsState {
                    items: old(app)@.widget(old(self).id()).items.push(
                        MenuEntryState::initial(name@, shortcut.tag(), flag.bits(), Some(cb)),
                    ),
                    ..old(app)@.widget(old(self).id())
                },
            ),
    {
        let entry = MenuEntry::new(name, shortcut.to_i32(), flag.to_i32(), Some(cb));
        let p = app.props_mut(self.as_widget_ptr());
        let ghost before = p@;
        p.items.push(entry);
        proof {
            assert(p@.items =~= before.items.push(entry@));
        }
    }

    /// Puts an item at `idx`, or behind the last one where there are fewer:
    /// it goes by `name`, which is also its label, has the shortcut
    /// `shortcut` and the flag `flag`, and `cb` is due when it is chosen.
    fn insert(
        &mut self,
        app: &mut App,
        idx: u32,
        name: &str,
        shortcut: Shortcut,
        flag: MenuFlag,
        cb: Callback,
    )
        requires
            old(app).ready(),
            old(app)@.valid(old(self).id()),
            !contains_nul(name@),
        ensures
            *final(self) == *old(self),
            final(app).ready(),
            final(app)@ == old(app)@.with_props(
                old(self).id(),
                PropsState {
                    items: old(app)@.widget(old(self).id()).items.insert(
                        if idx < old(app)@.widget(old(self).id()).items.len() {
                            idx as int
                        } else {
                            old(app)@.widget(old(self).id()).items.len() as int
                        },
                        MenuEntryState::initial(name@, shortcut.tag(), flag.bits(), Some(cb)),
                    ),
                    ..old(app)@.widget(old(self).id())
                },
            ),
    {
        let entry = MenuEntry::new(name, shortcut.to_i32(), flag.to_i32(), Some(cb));
        let p = app.props_mut(self.as_widget_ptr());
        let ghost before = p@;
        let n = p.items.len();
        let at = if (idx as usize) < n {
            idx as usize
        } else {
            n
        };
        let ghost list = p.items@;
        p.items.insert(at, entry);
        proof {
            lemma_entries_insert(list, at as int, entry);
        }
    }

    /// Puts a plain item behind the last one: it goes by `text`, which is
    /// also its label, and has no shortcut, no flag and no callback of its
    /// own.
    fn add_choice(&mut self, app: &mut App, text: &str)
        requires
            old(app).ready(),
            old(app)@.valid(old(self).id()),
            !contains_nul(text@),
        ensures
            *final(self) == *old(self),
            final(app).ready(),
            final(app)@ == old(app)@.with_props(
                old(self).id(),
                PropsState {
                    items: old(app)@.widget(old(self).id()).items.push(
                        MenuEntryState::initial(text@, 0, 0, None),
                    ),
                    ..old(app)@.widget(old(self).id())
                },
            ),
    {
        let entry = MenuEntry::new(text, 0, 0, None);
        let p = app.props_mut(self.as_widget_ptr());
        let ghost before = p@;
        p.items.push(entry);
        proof {
            assert(p@.items =~= before.items.push(entry@));
        }
    }

    /// The label of the item that the user chose last, if the menu still
    /// holds an item at that place.
    fn get_choice(&self, app: &App) -> (r: Option<String>)
        requires
            app.ready(),
            app@.valid(self.id()),
        ensures
            opt_text(r) == match app@.widget(self.id()).picked {
                Some(i) => if i < app@.widget(self.id()).items.len() {
                    Some(app@.widget(self.id()).items[i as int].label)
                } else {
                    None
                },
                None => None,
            },
    {
        let p = app.props(self.as_widget_ptr());
        match p.picked {
            Some(i) => if i < p.items.len() {
                Some(p.items[i].label.clone())
            } else {
                None
            },
            None => None,
        }
    }
}

/// What a widget that holds a list of lines can do.
pub trait BrowserTrait: WidgetBase {
    /// Takes the line `line` out.
    fn remove(&mut self, app: &mut App, line: u32)
        requires
            old(app).ready(),
            old(app)@.valid(old(self).id()),
        ensures
            *final(self) == *old(self),
            final(app).ready(),
            final(app)@ == old(app)@.with_props(
                old(self).id(),
                PropsState {
                    lines: without(old(app)@.widget(old(self).id()).lines, line),
                    ..old(app)@.widget(old(self).id())
                },
            ),
    {
        let p = app.props_mut(self.as_widget_ptr());
        remove_line(&mut p.lines, line);
    }

    /// Puts a line with the text `item` behind the last line.
    fn add(&mut self, app: &mut App, item: &str)
        requires
            old(app).ready(),
            old(app)@.valid(old(self).id()),
            !contains_nul(item@),
        ensures
            *final(self) == *old(self),
            final(app).ready(),
            final(app)@ == old(app)@.with_props(
                old(self).id(),
                PropsState {
                    lines: old(app)@.widget(old(self).id()).lines.push(BrowserLineState::initial(item@)),
                    ..old(app)@.widget(old(self).id())
                },
            ),
    {
        let l = BrowserLine::new(item);
        let p = app.props_mut(self.as_widget_ptr());
        let ghost before = p@;
        p.lines.push(l);
        proof {
            assert(p@.lines =~= before.lines.push(l@));
        }
    }

    /// Puts a line with the text `item` at `line`: before the line that is now there, at the front for a line before the first, at the end for a line beyond the last.
    fn insert(&mut self, app: &mut App, line: u32, item: &str)
        requires
            old(app).ready(),
            old(app)@.valid(old(self).id()),
            !contains_nul(item@),
        ensures
            *final(self) == *old(self),
            final(app).ready(),
            final(app)@ == old(app)@.with_props(
                old(self).id(),
                PropsState {
                    lines: old(app)@.widget(old(self).id()).lines.insert(
                        landing(old(app)@.widget(old(self).id()).lines.len() as int, line),
                        BrowserLineState::initial(item@),
                    ),
                    ..old(app)@.widget(old(self).id())
                },
            ),
    {
        let p = app.props_mut(self.as_widget_ptr());
        insert_line(&mut p.lines, line, item);
    }

    /// Takes the line `from` out and puts it at `to`, counted without it.
    fn move_item(&mut self, app: &mut App, to: u32, from: u32)
        requires
            old(app).ready(),
            old(app)@.valid(old(self).id()),
        ensures
            *final(self) == *old(self),
            final(app).ready(),
            final(app)@ == old(app)@.with_props(
                old(self).id(),
                PropsState {
                    lines: moved(old(app)@.widget(old(self).id()).lines, to, from),
                    ..old(app)@.widget(old(self).id())
                },
            ),
    {
        let p = app.props_mut(self.as_widget_ptr());
        move_line(&mut p.lines, to, from);
    }

    /// Lets the lines `a` and `b` change places.
    fn swap(&mut self, app: &mut App, a: u32, b: u32)
        requires
            old(app).ready(),
            old(app)@.valid(old(self).id()),
        ensures
            *final(self) == *old(self),
            final(app).ready(),
            final(app)@ == old(app)@.with_props(
                old(self).id(),
                PropsState {
                    lines: swapped(old(app)@.widget(old(self).id()).lines, a, b),
                    ..old(app)@.widget(old(self).id())
                },
            ),
    {
        let p = app.props_mut(self.as_widget_ptr());
        swap_two(&mut p.lines, a, b);
    }

    /// Takes all lines out.
    fn clear(&mut self, app: &mut App)
        requires
            old(app).ready(),
            old(app)@.valid(old(self).id()),
        ensures
            *final(self) == *old(self),
            final(app).ready(),
            final(app)@ == old(app)@.with_props(
                old(self).id(),
                PropsState {
                    lines: Seq::empty(),
                    ..old(app)@.widget(old(self).id())
                },
            ),
    {
        let p = app.props_mut(self.as_widget_ptr());
        p.lines.clear();
        proof {
            assert(p@.lines =~= Seq::empty());
        }
    }

    /// How many lines the browser holds.
    fn size(&self, app: &App) -> (r: u32)
        requires
            app.ready(),
            app@.valid(self.id()),
        ensures
            r == clipped(app@.widget(self.id()).lines.len() as int),
    {
        clip(app.props(self.as_widget_ptr()).lines.len())
    }

    /// Gives the browser the size `w` by `h`.
    fn set_size(&mut self, app: &mut App, w: i32, h: i32)
        requires
            old(app).ready(),
            old(app)@.valid(old(self).id()),
        ensures
            *final(self) == *old(self),
            final(app).ready(),
            final(app)@ == old(app)@.with_props(
                old(self).id(),
                PropsState { width: w, height: h, ..old(app)@.widget(old(self).id()) },
            ),
    {
        let p = app.props_mut(self.as_widget_ptr());
        p.width = w;
        p.height = h;
    }

    /// Selects the line `line`: it is selected and no other line is.
    fn select(&mut self, app: &mut App, line: u32)
        requires
            old(app).ready(),
            old(app)@.valid(old(self).id()),
        ensures
            *final(self) == *old(self),
            final(app).ready(),
            final(app)@ == old(app)@.with_props(
                old(self).id(),
                PropsState {
                    lines: selected_only(old(app)@.widget(old(self).id()).lines, line),
                    ..old(app)@.widget(old(self).id())
                },
            ),
    {
        let p = app.props_mut(self.as_widget_ptr());
        select_line(&mut p.lines, line);
    }

    /// Whether the browser holds the line `line` and it is selected.
    fn selected(&self, app: &App, line: u32) -> (r: bool)
        requires
            app.ready(),
            app@.valid(self.id()),
        ensures
            r == (holds_line(app@.widget(self.id()).lines, line) && app@.widget(
                self.id(),
            ).lines[line - 1].selected),
    {
        let p = app.props(self.as_widget_ptr());
        line >= 1 && line as usize <= p.lines.len() && p.lines[line as usize - 1].selected
    }

    /// The text of the line `line`, if the browser holds it.
    fn text(&self, app: &App, line: u32) -> (r: Option<String>)
        requires
            app.ready(),
            app@.valid(self.id()),
        ensures
            opt_text(r) == if holds_line(app@.widget(self.id()).lines, line) {
                Some(app@.widget(self.id()).lines[line - 1].text)
            } else {
                None
            },
    {
        let p = app.props(self.as_widget_ptr());
        if line >= 1 && line as usize <= p.lines.len() {
            Some(p.lines[line as usize - 1].text.clone())
        } else {
            None
        }
    }

    /// Gives the line `line` the text `txt`.
    fn set_text(&mut self, app: &mut App, line: u32, txt: &str)
        requires
            old(app).ready(),
            old(app)@.valid(old(self).id()),
            !contains_nul(txt@),
        ensures
            *final(self) == *old(self),
            final(app).ready(),
            final(app)@ == old(app)@.with_props(
                old(self).id(),
                PropsState {
                    lines: with_line(
                        old(app)@.widget(old(self).id()).lines,
                        line,
                        BrowserLineState { text: txt@, ..old(app)@.widget(old(self).id()).lines[line - 1] },
                    ),
                    ..old(app)@.widget(old(self).id())
                },
            ),
    {
        let p = app.props_mut(self.as_widget_ptr());
        set_line_text(&mut p.lines, line, txt);
    }

    /// Loads the browser with the text of a file: the lines it held leave, and each line of `text` becomes a line of the browser.
    fn load_file(&mut self, app: &mut App, text: &str)
        requires
            old(app).ready(),
            old(app)@.valid(old(self).id()),
        ensures
            *final(self) == *old(self),
            final(app).ready(),
            final(app)@ == old(app)@.with_props(
                old(self).id(),
                PropsState {
                    lines: loaded(text@),
                    ..old(app)@.widget(old(self).id())
                },
            ),
    {
        let fresh = load_lines(text);
        let p = app.props_mut(self.as_widget_ptr());
        p.lines = fresh;
    }

    /// The size of the text.
    fn text_size(&self, app: &App) -> (r: u32)
        requires
            app.ready(),
            app@.valid(self.id()),
        ensures
            r == app@.widget(self.id()).text_size,
    {
        app.props(self.as_widget_ptr()).text_size
    }

    /// Gives the text the size `sz`.
    fn set_text_size(&mut self, app: &mut App, sz: u32)
        requires
            old(app).ready(),
            old(app)@.valid(old(self).id()),
        ensures
            *final(self) == *old(self),
            final(app).ready(),
            final(app)@ == old(app)@.with_props(
                old(self).id(),
                PropsState { text_size: sz, ..old(app)@.widget(old(self).id()) },
            ),
    {
        let p = app.props_mut(self.as_widget_ptr());
        p.text_size = sz;
    }

    /// Gives the line `line` the icon `image`.
    fn set_icon(&mut self, app: &mut App, line: u32, image: &Image)
        requires
            old(app).ready(),
            old(app)@.valid(old(self).id()),
        ensures
            *final(self) == *old(self),
            final(app).ready(),
            final(app)@ == old(app)@.with_props(
                old(self).id(),
                PropsState {
                    lines: with_line(
                        old(app)@.widget(old(self).id()).lines,
                        line,
                        BrowserLineState { icon: Some(*image), ..old(app)@.widget(old(self).id()).lines[line - 1] },
                    ),
                    ..old(app)@.widget(old(self).id())
                },
            ),
    {
        let p = app.props_mut(self.as_widget_ptr());
        set_line_icon(&mut p.lines, line, Some(*image));
    }

    /// The icon of the line `line`, if the browser holds the line and the
    /// line has one.
    fn icon(&self, app: &App, line: u32) -> (r: Option<Image>)
        requires
            app.ready(),
            app@.valid(self.id()),
        ensures
            r == if holds_line(app@.widget(self.id()).lines, line) {
                app@.widget(self.id()).lines[line - 1].icon
            } else {
                None
            },
    {
        let p = app.props(self.as_widget_ptr());
        if line >= 1 && line as usize <= p.lines.len() {
            p.lines[line as usize - 1].icon
        } else {
            None
        }
    }

    /// Takes the icon of the line `line` away.
    fn remove_icon(&mut self, app: &mut App, line: u32)
        requires
            old(app).ready(),
            old(app)@.valid(old(self).id()),
        ensures
            *final(self) == *old(self),
            final(app).ready(),
            final(app)@ == old(app)@.with_props(
                old(self).id(),
                PropsState {
                    lines: with_line(
                        old(app)@.widget(old(self).id()).lines,
                        line,
                        BrowserLineState { icon: None, ..old(app)@.widget(old(self).id()).lines[line - 1] },
                    ),
                    ..old(app)@.widget(old(self).id())
                },
            ),
    {
        let p = app.props_mut(self.as_widget_ptr());
        set_line_icon(&mut p.lines, line, None);
    }

}

} // verus!
