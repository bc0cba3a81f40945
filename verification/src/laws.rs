//! What holds of the toolkit whatever state it is in: the laws that relate
//! one operation to another, stated over the views that the contracts of the
//! operations speak of.

use vstd::prelude::*;
use crate::app::{linked, AppState};
use crate::group::{shown_at, turned};
use crate::input::{replaced, undone};
use crate::menu::{flagged, lowered, raised, MenuFlag, MenuItem};
use crate::state::{Callback, Handle, MenuEntryState, PropsState, WidgetKind};
use crate::enums::{Color, Font};

verus! {

/// A widget made at the origin, of no size and without a label, has the
/// place `(0, 0)` and the size `0` by `0`.
pub proof fn law_default_geometry(s: AppState, kind: WidgetKind)
    requires
        s.well_formed(),
        s.nodes.len() <= usize::MAX,
    ensures
        ({
            let h = Handle { index: s.nodes.len() as usize };
            let made = s.created(kind, 0, 0, 0, 0, Seq::empty()).widget(h);
            made.x == 0 && made.y == 0 && made.width == 0 && made.height == 0
        }),
{
}

/// The place and the size of a widget stay as they are until they are set:
/// whatever the other properties of the widget become, and whatever becomes
/// of another widget.
pub proof fn law_geometry_kept(s: AppState, h: Handle, other: Handle, p: PropsState)
    requires
        h.index < s.props.len(),
        other.index < s.props.len(),
        other == h ==> p.x == s.widget(h).x && p.y == s.widget(h).y && p.width == s.widget(
            h,
        ).width && p.height == s.widget(h).height,
    ensures
        s.with_props(other, p).widget(h).x == s.widget(h).x,
        s.with_props(other, p).widget(h).y == s.widget(h).y,
        s.with_props(other, p).widget(h).width == s.widget(h).width,
        s.with_props(other, p).widget(h).height == s.widget(h).height,
{
}

/// After a widget was given a size, its width and its height are exactly
/// what was given, and its place is what it was.
pub proof fn law_size_round_trip(s: AppState, h: Handle, width: i32, height: i32)
    requires
        h.index < s.props.len(),
    ensures
        ({
            let t = s.with_props(h, PropsState { width, height, ..s.widget(h) });
            t.widget(h).width == width && t.widget(h).height == height && t.widget(h).x
                == s.widget(h).x && t.widget(h).y == s.widget(h).y
        }),
{
}

/// After a widget was moved, its place is exactly where it was moved to, and
/// its size is what it was.
pub proof fn law_pos_round_trip(s: AppState, h: Handle, x: i32, y: i32)
    requires
        h.index < s.props.len(),
    ensures
        ({
            let t = s.with_props(h, PropsState { x, y, ..s.widget(h) });
            t.widget(h).x == x && t.widget(h).y == y && t.widget(h).width == s.widget(h).width
                && t.widget(h).height == s.widget(h).height
        }),
{
}

/// A widget put below another has its upper edge `padding` below the lower
/// edge of the other, and its left edge at the left edge of the other.
pub proof fn law_below_of(s: AppState, h: Handle, w: Handle, padding: i32)
    requires
        h.index < s.props.len(),
        w.index < s.props.len(),
        i32::MIN <= s.widget(w).y + s.widget(w).height + padding <= i32::MAX,
    ensures
        ({
            let t = s.with_props(
                h,
                PropsState {
                    x: (s.widget(w).x) as i32,
                    y: (s.widget(w).y + s.widget(w).height + padding) as i32,
                    ..s.widget(h)
                },
            );
            t.widget(h).y == s.widget(w).y + s.widget(w).height + padding && t.widget(h).x
                == s.widget(w).x
        }),
{
}

/// A widget put above another has its lower edge `padding` above the upper
/// edge of the other, and its left edge at the left edge of the other.
pub proof fn law_above_of(s: AppState, h: Handle, w: Handle, padding: i32)
    requires
        h.index < s.props.len(),
        w.index < s.props.len(),
        i32::MIN <= s.widget(w).y - padding - s.widget(h).height <= i32::MAX,
    ensures
        ({
            let t = s.with_props(
                h,
                PropsState {
                    x: (s.widget(w).x) as i32,
                    y: (s.widget(w).y - padding - s.widget(h).height) as i32,
                    ..s.widget(h)
                },
            );
            t.widget(h).y + t.widget(h).height == s.widget(w).y - padding && t.widget(h).x
                == s.widget(w).x
        }),
{
}

/// A widget put to the right of another has its left edge `padding` beyond
/// the right edge of the other, and its upper edge at the upper edge of the
/// other.
pub proof fn law_right_of(s: AppState, h: Handle, w: Handle, padding: i32)
    requires
        h.index < s.props.len(),
        w.index < s.props.len(),
        i32::MIN <= s.widget(w).x + s.widget(w).width + padding <= i32::MAX,
    ensures
        ({
            let t = s.with_props(
                h,
                PropsState {
                    x: (s.widget(w).x + s.widget(w).width + padding) as i32,
                    y: (s.widget(w).y) as i32,
                    ..s.widget(h)
                },
            );
            t.widget(h).x == s.widget(w).x + s.widget(w).width + padding && t.widget(h).y
                == s.widget(w).y
        }),
{
}

/// A widget put to the left of another has its right edge `padding` before
/// the left edge of the other, and its upper edge at the upper edge of the
/// other.
pub proof fn law_left_of(s: AppState, h: Handle, w: Handle, padding: i32)
    requires
        h.index < s.props.len(),
        w.index < s.props.len(),
        i32::MIN <= s.widget(w).x - s.widget(h).width - padding <= i32::MAX,
    ensures
        ({
            let t = s.with_props(
                h,
                PropsState {
                    x: (s.widget(w).x - s.widget(h).width - padding) as i32,
                    y: (s.widget(w).y) as i32,
                    ..s.widget(h)
                },
            );
            t.widget(h).x + t.widget(h).width == s.widget(w).x - padding && t.widget(h).y
                == s.widget(w).y
        }),
{
}

/// The bits of two different flags have nothing in common.
pub proof fn law_flags_disjoint(a: MenuFlag, b: MenuFlag)
    requires
        a != b,
    ensures
        a.bits() & b.bits() == 0,
{
    assert(0i32 & 1 == 0 && 0i32 & 2 == 0 && 0i32 & 4 == 0 && 0i32 & 8 == 0 && 0i32 & 0x10 == 0
        && 0i32 & 0x20 == 0 && 0i32 & 0x40 == 0 && 0i32 & 0x80 == 0 && 0i32 & 0x100 == 0 && 1i32
        & 0 == 0 && 1i32 & 2 == 0 && 1i32 & 4 == 0 && 1i32 & 8 == 0 && 1i32 & 0x10 == 0 && 1i32
        & 0x20 == 0 && 1i32 & 0x40 == 0 && 1i32 & 0x80 == 0 && 1i32 & 0x100 == 0 && 2i32 & 0 == 0
        && 2i32 & 1 == 0 && 2i32 & 4 == 0 && 2i32 & 8 == 0 && 2i32 & 0x10 == 0 && 2i32 & 0x20
        == 0 && 2i32 & 0x40 == 0 && 2i32 & 0x80 == 0 && 2i32 & 0x100 == 0 && 4i32 & 0 == 0 && 4i32
        & 1 == 0 && 4i32 & 2 == 0 && 4i32 & 8 == 0 && 4i32 & 0x10 == 0 && 4i32 & 0x20 == 0 && 4i32
        & 0x40 == 0 && 4i32 & 0x80 == 0 && 4i32 & 0x100 == 0 && 8i32 & 0 == 0 && 8i32 & 1 == 0
        && 8i32 & 2 == 0 && 8i32 & 4 == 0 && 8i32 & 0x10 == 0 && 8i32 & 0x20 == 0 && 8i32 & 0x40
        == 0 && 8i32 & 0x80 == 0 && 8i32 & 0x100 == 0) by (bit_vector);
    assert(0x10i32 & 0 == 0 && 0x10i32 & 1 == 0 && 0x10i32 & 2 == 0 && 0x10i32 & 4 == 0 && 0x10i32
        & 8 == 0 && 0x10i32 & 0x20 == 0 && 0x10i32 & 0x40 == 0 && 0x10i32 & 0x80 == 0 && 0x10i32
        & 0x100 == 0 && 0x20i32 & 0 == 0 && 0x20i32 & 1 == 0 && 0x20i32 & 2 == 0 && 0x20i32 & 4
        == 0 && 0x20i32 & 8 == 0 && 0x20i32 & 0x10 == 0 && 0x20i32 & 0x40 == 0 && 0x20i32 & 0x80
        == 0 && 0x20i32 & 0x100 == 0 && 0x40i32 & 0 == 0 && 0x40i32 & 1 == 0 && 0x40i32 & 2 == 0
        && 0x40i32 & 4 == 0 && 0x40i32 & 8 == 0 && 0x40i32 & 0x10 == 0 && 0x40i32 & 0x20 == 0
        && 0x40i32 & 0x80 == 0 && 0x40i32 & 0x100 == 0 && 0x80i32 & 0 == 0 && 0x80i32 & 1 == 0
        && 0x80i32 & 2 == 0 && 0x80i32 & 4 == 0 && 0x80i32 & 8 == 0 && 0x80i32 & 0x10 == 0
        && 0x80i32 & 0x20 == 0 && 0x80i32 & 0x40 == 0 && 0x80i32 & 0x100 == 0 && 0x100i32 & 0 == 0
        && 0x100i32 & 1 == 0 && 0x100i32 & 2 == 0 && 0x100i32 & 4 == 0 && 0x100i32 & 8 == 0
        && 0x100i32 & 0x10 == 0 && 0x100i32 & 0x20 == 0 && 0x100i32 & 0x40 == 0 && 0x100i32 & 0x80
        == 0) by (bit_vector);
}

/// Raising the bit of a flag makes the flags hold it and leaves every other
/// flag as it was. (`Normal` has no bit: no flags hold it.)
pub proof fn law_flag_raised(flags: i32, a: MenuFlag, b: MenuFlag)
    ensures
        a != MenuFlag::Normal ==> flagged(raised(flags, a), a),
        a != b ==> flagged(raised(flags, a), b) == flagged(flags, b),
{
    let x = a.bits();
    let y = b.bits();
    assert(x != 0 ==> (flags | x) & x != 0) by (bit_vector);
    if a != b {
        law_flags_disjoint(a, b);
        assert(x & y == 0 ==> ((flags | x) & y != 0) == (flags & y != 0)) by (bit_vector);
    }
}

/// Lowering the bit of a flag makes the flags hold it no more and leaves
/// every other flag as it was.
pub proof fn law_flag_lowered(flags: i32, a: MenuFlag, b: MenuFlag)
    ensures
        !flagged(lowered(flags, a), a),
        a != b ==> flagged(lowered(flags, a), b) == flagged(flags, b),
{
    let x = a.bits();
    let y = b.bits();
    assert((flags & !x) & x == 0) by (bit_vector);
    if a != b {
        law_flags_disjoint(a, b);
        assert(x & y == 0 ==> ((flags & !x) & y != 0) == (flags & y != 0)) by (bit_vector);
    }
}

/// Raising or lowering the bits of two different flags comes to the same in
/// either order.
pub proof fn law_flag_order(flags: i32, a: MenuFlag, b: MenuFlag)
    requires
        a != b,
    ensures
        raised(raised(flags, a), b) == raised(raised(flags, b), a),
        lowered(lowered(flags, a), b) == lowered(lowered(flags, b), a),
        raised(lowered(flags, a), b) == lowered(raised(flags, b), a),
{
    let x = a.bits();
    let y = b.bits();
    law_flags_disjoint(a, b);
    assert((flags | x) | y == (flags | y) | x) by (bit_vector);
    assert((flags & !x) & !y == (flags & !y) & !x) by (bit_vector);
    assert(x & y == 0 ==> (flags & !x) | y == (flags | y) & !x) by (bit_vector);
}

/// Raising a bit twice, or lowering it twice, is raising or lowering it
/// once; and what was raised last, or lowered last, is what counts.
pub proof fn law_flag_last_wins(flags: i32, a: MenuFlag)
    ensures
        raised(raised(flags, a), a) == raised(flags, a),
        lowered(lowered(flags, a), a) == lowered(flags, a),
        raised(lowered(flags, a), a) == raised(flags, a),
        lowered(raised(flags, a), a) == lowered(flags, a),
{
    let x = a.bits();
    assert((flags | x) | x == flags | x) by (bit_vector);
    assert((flags & !x) & !x == flags & !x) by (bit_vector);
    assert((flags & !x) | x == flags | x) by (bit_vector);
    assert((flags | x) & !x == flags & !x) by (bit_vector);
}

/// Switching an item on or off and showing or hiding it do not get in each
/// other's way: whatever the flags were, the item is switched on exactly when
/// it was switched on last, and shows up exactly when it was shown last.
pub proof fn law_item_value_and_visibility(flags: i32)
    ensures
        flagged(raised(flags, MenuFlag::Value), MenuFlag::Value),
        !flagged(lowered(flags, MenuFlag::Value), MenuFlag::Value),
        flagged(raised(flags, MenuFlag::Invisible), MenuFlag::Invisible),
        !flagged(lowered(flags, MenuFlag::Invisible), MenuFlag::Invisible),
        flagged(raised(flags, MenuFlag::Value), MenuFlag::Invisible) == flagged(
            flags,
            MenuFlag::Invisible,
        ),
        flagged(lowered(flags, MenuFlag::Value), MenuFlag::Invisible) == flagged(
            flags,
            MenuFlag::Invisible,
        ),
        flagged(raised(flags, MenuFlag::Invisible), MenuFlag::Value) == flagged(
            flags,
            MenuFlag::Value,
        ),
        flagged(lowered(flags, MenuFlag::Invisible), MenuFlag::Value) == flagged(
            flags,
            MenuFlag::Value,
        ),
{
    law_flag_raised(flags, MenuFlag::Value, MenuFlag::Invisible);
    law_flag_raised(flags, MenuFlag::Invisible, MenuFlag::Value);
    law_flag_lowered(flags, MenuFlag::Value, MenuFlag::Invisible);
    law_flag_lowered(flags, MenuFlag::Invisible, MenuFlag::Value);
}

/// After a callback was registered with a widget, triggering the widget
/// answers with that callback, each time it is triggered; and where another
/// widget changes in between, it still does.
pub proof fn law_callback_registered(s: AppState, h: Handle, cb: Callback, other: Handle, p: PropsState)
    requires
        h.index < s.props.len(),
        other.index < s.props.len(),
        other != h,
    ensures
        s.with_props(h, PropsState { callback: Some(cb), ..s.widget(h) }).widget(h).callback
            == Some(cb),
        s.with_props(h, PropsState { callback: Some(cb), ..s.widget(h) }).with_props(
            other,
            p,
        ).widget(h).callback == Some(cb),
{
}

/// After an item was replaced, it reads back exactly as what replaced it;
/// it is still an item of its menu, and every other item of the menu is as
/// it was.
pub proof fn law_item_replaced(s: AppState, item: MenuItem, e: MenuEntryState, other: int)
    requires
        item.valid(s),
        item.menu.index < s.props.len(),
        0 <= other < s.widget(item.menu).items.len(),
    ensures
        item.valid(item.with_entry(s, e)),
        item.entry(item.with_entry(s, e)) == e,
        other != item.index ==> item.with_entry(s, e).widget(item.menu).items[other] == s.widget(
            item.menu,
        ).items[other],
{
}

/// After the colour, the typeface and the size of an item's label were set,
/// in this order, each reads back exactly as it was set.
pub proof fn law_item_label_round_trip(
    s: AppState,
    item: MenuItem,
    color: Color,
    font: Font,
    size: usize,
)
    requires
        item.valid(s),
        item.menu.index < s.props.len(),
    ensures
        ({
            let s1 = item.with_entry(s, MenuEntryState { label_color: color, ..item.entry(s) });
            let s2 = item.with_entry(s1, MenuEntryState { label_font: font, ..item.entry(s1) });
            let s3 = item.with_entry(s2, MenuEntryState { label_size: size, ..item.entry(s2) });
            item.valid(s3) && item.entry(s3).label_color == color && item.entry(s3).label_font
                == font && item.entry(s3).label_size == size
        }),
{
    let e1 = MenuEntryState { label_color: color, ..item.entry(s) };
    let s1 = item.with_entry(s, e1);
    law_item_replaced(s, item, e1, item.index as int);
    let e2 = MenuEntryState { label_font: font, ..item.entry(s1) };
    let s2 = item.with_entry(s1, e2);
    law_item_replaced(s1, item, e2, item.index as int);
    let e3 = MenuEntryState { label_size: size, ..item.entry(s2) };
    law_item_replaced(s2, item, e3, item.index as int);
}

/// Making a widget leaves every handle valid that was valid, and the new
/// handle is valid.
pub proof fn law_created_keeps_valid(
    s: AppState,
    kind: WidgetKind,
    x: i32,
    y: i32,
    width: i32,
    height: i32,
    title: Seq<char>,
    h: Handle,
)
    requires
        s.well_formed(),
        s.nodes.len() <= usize::MAX,
        s.valid(h),
    ensures
        s.created(kind, x, y, width, height, title).valid(h),
        s.created(kind, x, y, width, height, title).valid(
            Handle { index: s.nodes.len() as usize },
        ),
{
}

/// Removing a child of a group ends the validity of exactly the handles to
/// the child and to what stands below it: a handle to any other widget is
/// valid afterwards if and only if it was valid before.
pub proof fn law_removed_validity(s: AppState, g: Handle, idx: int, h: Handle)
    requires
        s.well_formed(),
        s.valid(g),
        0 <= idx < s.node(g).children.len(),
        h.index < s.nodes.len(),
        h != g,
    ensures
        s.removed(g, idx).valid(g),
        s.removed(g, idx).valid(h) == (s.valid(h) && !s.contains(
            Handle { index: s.node(g).children[idx] },
            h,
        )),
{
}

/// Clearing a group ends the validity of exactly the handles to what stands
/// below it; the group itself stays valid.
pub proof fn law_cleared_validity(s: AppState, g: Handle, h: Handle)
    requires
        s.well_formed(),
        s.valid(g),
        h.index < s.nodes.len(),
    ensures
        s.cleared(g).valid(g),
        s.cleared(g).node(g).children.len() == 0,
        h != g ==> s.cleared(g).valid(h) == (s.valid(h) && !s.contains(g, h)),
{
}

/// Putting a widget into a group ends the validity of no handle and makes
/// none valid; afterwards the group holds the widget, and the widget names
/// the group as its parent.
pub proof fn law_inserted(s: AppState, g: Handle, w: Handle, index: int, h: Handle)
    requires
        s.well_formed(),
        s.valid(g),
        s.valid(w),
        g != w,
        0 <= index,
        h.index < s.nodes.len(),
    ensures
        s.inserted(g, w, index).valid(h) == s.valid(h),
        s.inserted(g, w, index).node(w).parent == Some(g.index),
{
}

/// Making a group and closing it leaves the group current that was current
/// before: groups nest as brackets do.
pub proof fn law_group_brackets(s: AppState, kind: WidgetKind, x: i32, y: i32, width: i32, height: i32, title: Seq<char>)
    requires
        s.well_formed(),
        s.nodes.len() <= usize::MAX,
        kind.is_group(),
    ensures
        ({
            let g = Handle { index: s.nodes.len() as usize };
            let opened = s.created(kind, x, y, width, height, title);
            opened.current == Some(g.index) && opened.ended(g).current == s.current
        }),
{
}

/// Taking back an edit that changed the text of an input field gives the
/// field the text, the cursor and the mark it had before the edit.
pub proof fn law_undo_restores(w: PropsState, beg: int, end: int, text: Seq<char>)
    requires
        replaced(w, beg, end, text) != w,
    ensures
        undone(replaced(w, beg, end, text)).value == w.value,
        undone(replaced(w, beg, end, text)).position == w.position,
        undone(replaced(w, beg, end, text)).mark == w.mark,
{
}

/// After a wizard was opened at a page, that page is the one it is open at:
/// it is shown, and no page before it is. So a step to the next page from the
/// page `k` leaves the wizard open at `k + 1`, and a step back from there
/// leaves it open at `k` again.
pub proof fn law_turned_shows(s: AppState, g: Handle, page: int)
    requires
        s.well_formed(),
        s.nodes.len() <= usize::MAX,
        s.valid(g),
        0 <= page < s.node(g).children.len(),
    ensures
        shown_at(turned(s, g, page), g, page),
        forall|k: int| shown_at(turned(s, g, page), g, k) ==> k == page,
        turned(s, g, page).nodes == s.nodes,
{
    let t = turned(s, g, page);
    let kids = s.node(g).children;
    assert(linked(s.nodes, g.index as int));
    assert(kids.subrange(0, kids.len() as int) =~= kids);
    assert forall|j: int| 0 <= j < kids.len() implies t.props[#[trigger] kids[j] as int].visible
        == (j == page) by {
        assert(kids.contains(kids[j]));
    }
}

} // verus!
