//! The input field: a widget that holds a line of text, a cursor and a mark.
//!
//! Places in the text count characters from zero. The text between the cursor
//! and the mark is the selection.

use vstd::prelude::*;
use vstd::string::*;
use crate::app::App;
use crate::prelude::{InputTrait, WidgetBase, WidgetTrait};
use crate::state::{Handle, PropsState, Snapshot, SnapshotState, WidgetKind};
use crate::text::{char_len, contains_nul, prefix, splice};

verus! {

/// A widget that holds a line of text.
#[derive(Clone, Copy, Debug, PartialEq, Eq, Hash, Structural)]
pub struct Input {
    _inner: Handle,
}

impl WidgetBase for Input {
    closed spec fn id(&self) -> Handle {
        self._inner
    }

    open spec fn kind_of() -> WidgetKind {
        WidgetKind::Input
    }

    fn as_widget_ptr(&self) -> (h: Handle) {
        self._inner
    }

    fn from_widget_ptr(ptr: Handle) -> (w: Self) {
        Input { _inner: ptr }
    }

    fn kind() -> (k: WidgetKind) {
        WidgetKind::Input
    }
}

impl WidgetTrait for Input {
}

impl InputTrait for Input {
}

/// The place `p`, moved into a text of `len` characters.
pub open spec fn clamped(p: int, len: int) -> int {
    if p < 0 {
        0
    } else if p > len {
        len
    } else {
        p
    }
}

/// The count `n` as a place, or the greatest place where `n` is beyond it.
pub open spec fn saturated(n: int) -> i32 {
    if n > i32::MAX {
        i32::MAX
    } else {
        n as i32
    }
}

/// Where the selection of `w` begins.
pub open spec fn selection_start(w: PropsState) -> int {
    let p = clamped(w.position as int, w.value.len() as int);
    let m = clamped(w.mark as int, w.value.len() as int);
    if p < m {
        p
    } else {
        m
    }
}

/// Where the selection of `w` ends.
pub open spec fn selection_end(w: PropsState) -> int {
    let p = clamped(w.position as int, w.value.len() as int);
    let m = clamped(w.mark as int, w.value.len() as int);
    if p < m {
        m
    } else {
        p
    }
}

/// The text that is selected in `w`.
pub open spec fn selection(w: PropsState) -> Seq<char> {
    w.value.subrange(selection_start(w), selection_end(w))
}

/// What `w` remembers of itself for a later undo.
pub open spec fn snapshot(w: PropsState) -> SnapshotState {
    SnapshotState { value: w.value, position: w.position, mark: w.mark }
}

/// Where the span between the places `beg` and `end`, in either order and
/// moved into a text of `len` characters, begins.
pub open spec fn span_start(len: int, beg: int, end: int) -> int {
    if clamped(beg, len) < clamped(end, len) {
        clamped(beg, len)
    } else {
        clamped(end, len)
    }
}

/// Where the span between the places `beg` and `end` ends.
pub open spec fn span_end(len: int, beg: int, end: int) -> int {
    if clamped(beg, len) < clamped(end, len) {
        clamped(end, len)
    } else {
        clamped(beg, len)
    }
}

/// How much of `text` fits into a text of `len` characters once the
/// characters between `lo` and `hi` have left it: all of it, or as much as
/// keeps the text within `most` characters.
pub open spec fn fitting(len: int, most: int, lo: int, hi: int, text: Seq<char>) -> Seq<char> {
    let kept = len - (hi - lo);
    let room = if most > kept {
        most - kept
    } else {
        0
    };
    text.subrange(
        0,
        if text.len() < room {
            text.len() as int
        } else {
            room
        },
    )
}

/// The input field `w` after the characters between the places `beg` and
/// `end`, in either order and moved into the text, were replaced by as much
/// of `text` as fits. The cursor and the mark stand behind what was put in,
/// the field is marked as changed, and it remembers how it was. Where nothing
/// leaves and nothing comes, `w` stays as it is.
pub open spec fn replaced(w: PropsState, beg: int, end: int, text: Seq<char>) -> PropsState {
    let len = w.value.len() as int;
    let lo = span_start(len, beg, end);
    let hi = span_end(len, beg, end);
    let ins = fitting(len, w.maximum_size as int, lo, hi, text);
    if lo == hi && ins.len() == 0 {
        w
    } else {
        PropsState {
            value: w.value.subrange(0, lo) + ins + w.value.subrange(hi, len),
            position: saturated(lo + ins.len()),
            mark: saturated(lo + ins.len()),
            changed: true,
            undo: Some(snapshot(w)),
            ..w
        }
    }
}

/// The input field `w` after its last edit was taken back: it is as it
/// remembers itself, and remembers how it was just now, so that a second undo
/// brings the edit back. Where it remembers nothing, `w` stays as it is.
pub open spec fn undone(w: PropsState) -> PropsState {
    match w.undo {
        Some(s) => PropsState {
            value: s.value,
            position: s.position,
            mark: s.mark,
            changed: true,
            undo: Some(snapshot(w)),
            ..w
        },
        None => w,
    }
}

/// The place `p`, moved into a text of `len` characters.
pub fn clamp_index(p: i64, len: usize) -> (r: usize)
    ensures
        r == clamped(p as int, len as int),
{
    if p < 0 {
        0
    } else if p as u64 > len as u64 {
        len
    } else {
        p as usize
    }
}

/// The count `n` as a place, or the greatest place where `n` is beyond it.
pub fn saturate(n: u128) -> (r: i32)
    ensures
        r == saturated(n as int),
{
    if n > i32::MAX as u128 {
        i32::MAX
    } else {
        n as i32
    }
}

/// The text that `value` becomes when the characters between `beg` and `end`
/// are replaced by as much of `text` as fits, and the place behind what was
/// put in; nothing where nothing leaves and nothing comes.
fn spliced(value: &str, most: u32, beg: i64, end: i64, text: &str) -> (r: Option<(String, i32)>)
    ensures
        ({
            let len = value@.len() as int;
            let lo = span_start(len, beg as int, end as int);
            let hi = span_end(len, beg as int, end as int);
            let ins = fitting(len, most as int, lo, hi, text@);
            match r {
                None => lo == hi && ins.len() == 0,
                Some((v, at)) => !(lo == hi && ins.len() == 0) && v@ == value@.subrange(0, lo)
                    + ins + value@.subrange(hi, len) && at == saturated(lo + ins.len()),
            }
        }),
{
    let len = char_len(value);
    let b = clamp_index(beg, len);
    let e = clamp_index(end, len);
    let (lo, hi) = if b < e {
        (b, e)
    } else {
        (e, b)
    };
    let kept = len - (hi - lo);
    let room = if most as usize > kept {
        most as usize - kept
    } else {
        0
    };
    let ins = prefix(text, room);
    let ins_len = char_len(ins);
    if lo == hi && ins_len == 0 {
        None
    } else {
        Some((splice(value, lo, hi, ins), saturate(lo as u128 + ins_len as u128)))
    }
}

/// Replaces the characters of the input field `h` between `beg` and `end` by
/// `text`: see `replaced`.
pub fn edit(app: &mut App, h: Handle, beg: i64, end: i64, text: &str)
    requires
        old(app).ready(),
        old(app)@.valid(h),
        !contains_nul(text@),
    ensures
        final(app).ready(),
        final(app)@ == old(app)@.with_props(
            h,
            replaced(old(app)@.widget(h), beg as int, end as int, text@),
        ),
{
    let p = app.props_mut(h);
    match spliced(p.value.as_str(), p.maximum_size, beg, end, text) {
        None => {},
        Some((value, at)) => {
            let snap = Snapshot { value: p.value.clone(), position: p.position, mark: p.mark };
            p.value = value;
            p.position = at;
            p.mark = at;
            p.changed = true;
            p.undo = Some(snap);
        },
    }
}

} // verus!
