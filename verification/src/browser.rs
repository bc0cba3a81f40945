//! The browser: a widget that holds a list of lines.
//!
//! Lines are counted from one. An operation on a line that the browser does
//! not hold changes nothing.

use vstd::prelude::*;
use crate::prelude::{BrowserTrait, WidgetBase, WidgetTrait};
use crate::state::{
    lemma_lines_insert, lemma_lines_remove, lines_view, BrowserLine, BrowserLineState, Handle,
    Image, WidgetKind,
};
use crate::text::{lines_of, split_lines, texts_of};

verus! {

/// A widget that holds a list of lines.
#[derive(Clone, Copy, Debug, PartialEq, Eq, Hash, Structural)]
pub struct Browser {
    _inner: Handle,
}

impl WidgetBase for Browser {
    closed spec fn id(&self) -> Handle {
        self._inner
    }

    open spec fn kind_of() -> WidgetKind {
        WidgetKind::Browser
    }

    fn as_widget_ptr(&self) -> (h: Handle) {
        self._inner
    }

    fn from_widget_ptr(ptr: Handle) -> (w: Self) {
        Browser { _inner: ptr }
    }

    fn kind() -> (k: WidgetKind) {
        WidgetKind::Browser
    }
}

impl WidgetTrait for Browser {
}

impl BrowserTrait for Browser {
}

/// Whether a browser with these lines holds the line `line`.
pub open spec fn holds_line(lines: Seq<BrowserLineState>, line: u32) -> bool {
    1 <= line <= lines.len()
}

/// Where a line that is put at `line` comes to stand in a list of `len`
/// lines, counted from zero: before the line that is now at `line`, at the
/// front for a line before the first, at the end for a line beyond the last.
pub open spec fn landing(len: int, line: u32) -> int {
    if line <= 1 {
        0
    } else if line > len {
        len
    } else {
        line - 1
    }
}

/// The lines after the line `line` was taken out.
pub open spec fn without(lines: Seq<BrowserLineState>, line: u32) -> Seq<BrowserLineState> {
    if holds_line(lines, line) {
        lines.remove(line - 1)
    } else {
        lines
    }
}

/// The lines after the line `from` was taken out and put at `to`, counted
/// without it.
pub open spec fn moved(lines: Seq<BrowserLineState>, to: u32, from: u32) -> Seq<BrowserLineState> {
    if holds_line(lines, from) {
        lines.remove(from - 1).insert(landing(lines.len() - 1, to), lines[from - 1])
    } else {
        lines
    }
}

/// The lines after the lines `a` and `b` changed places.
pub open spec fn swapped(lines: Seq<BrowserLineState>, a: u32, b: u32) -> Seq<BrowserLineState> {
    if holds_line(lines, a) && holds_line(lines, b) {
        lines.update(a - 1, lines[b - 1]).update(b - 1, lines[a - 1])
    } else {
        lines
    }
}

/// The lines after the line `line` was selected: it is selected and no other
/// line is.
pub open spec fn selected_only(lines: Seq<BrowserLineState>, line: u32) -> Seq<BrowserLineState> {
    if holds_line(lines, line) {
        Seq::new(
            lines.len(),
            |i: int| BrowserLineState { selected: i == line - 1, ..lines[i] },
        )
    } else {
        lines
    }
}

/// The lines after the line `line` was changed to `l`.
pub open spec fn with_line(
    lines: Seq<BrowserLineState>,
    line: u32,
    l: BrowserLineState,
) -> Seq<BrowserLineState> {
    if holds_line(lines, line) {
        lines.update(line - 1, l)
    } else {
        lines
    }
}

/// The lines that a browser holds after it was loaded with `text`: one for
/// each line of the text, none selected, none with an icon.
pub open spec fn loaded(text: Seq<char>) -> Seq<BrowserLineState> {
    Seq::new(lines_of(text).len(), |i: int| BrowserLineState::initial(lines_of(text)[i]))
}

/// Two values of a list change places when the later one is taken out, then
/// the earlier one, and each is put where the other was.
pub proof fn lemma_swap_by_moves<T>(s: Seq<T>, a: int, b: int)
    requires
        0 <= a < b < s.len(),
    ensures
        s.remove(b).remove(a).insert(a, s[b]).insert(b, s[a]) == s.update(a, s[b]).update(b, s[a]),
{
    let l = s.remove(b).remove(a).insert(a, s[b]).insert(b, s[a]);
    let r = s.update(a, s[b]).update(b, s[a]);
    let s1 = s.remove(b);
    let s2 = s1.remove(a);
    let s3 = s2.insert(a, s[b]);
    assert(s1.len() == s.len() - 1);
    assert(s2.len() == s.len() - 2);
    assert(s3.len() == s.len() - 1);
    assert(l.len() == r.len());
    assert forall|i: int| 0 <= i < l.len() implies l[i] == r[i] by {
        if i < a {
            assert(s3[i] == s2[i]);
            assert(s2[i] == s1[i]);
        } else if i == a {
            assert(s3[i] == s[b]);
        } else if i < b {
            assert(s3[i] == s2[i - 1]);
            assert(s2[i - 1] == s1[i]);
        } else if i == b {
        } else {
            assert(l[i] == s3[i - 1]);
            assert(s3[i - 1] == s2[i - 2]);
            assert(s2[i - 2] == s1[i - 1]);
            assert(s1[i - 1] == s[i]);
        }
    }
    assert(l =~= r);
}

/// Lets the lines at the places `lo` and `hi` change places.
fn swap_lines(lines: &mut Vec<BrowserLine>, lo: usize, hi: usize)
    requires
        lo < hi < old(lines)@.len(),
    ensures
        lines_view(final(lines)@) == lines_view(old(lines)@).update(
            lo as int,
            lines_view(old(lines)@)[hi as int],
        ).update(hi as int, lines_view(old(lines)@)[lo as int]),
{
    let ghost s0 = lines@;
    let upper = lines.remove(hi);
    let ghost s1 = lines@;
    let lower = lines.remove(lo);
    let ghost s2 = lines@;
    lines.insert(lo, upper);
    let ghost s3 = lines@;
    lines.insert(hi, lower);
    proof {
        lemma_lines_remove(s0, hi as int);
        lemma_lines_remove(s1, lo as int);
        lemma_lines_insert(s2, lo as int, upper);
        lemma_lines_insert(s3, hi as int, lower);
        lemma_swap_by_moves(lines_view(s0), lo as int, hi as int);
    }
}

/// Selects the line `line` and no other: see `selected_only`.
pub fn select_line(lines: &mut Vec<BrowserLine>, line: u32)
    ensures
        lines_view(final(lines)@) == selected_only(lines_view(old(lines)@), line),
{
    let ghost before = lines_view(lines@);
    let n = lines.len();
    if line >= 1 && line as usize <= n {
        let index = line as usize - 1;
        let mut i: usize = 0;
        while i < n
            invariant
                n == lines@.len(),
                n == before.len(),
                i <= n,
                forall|k: int|
                    0 <= k < n ==> #[trigger] lines_view(lines@)[k] == (if k < i {
                        BrowserLineState { selected: k == index, ..before[k] }
                    } else {
                        before[k]
                    }),
            decreases n - i,
        {
            let ghost prev = lines@;
            let ghost now = lines_view(lines@);
            lines[i].selected = i == index;
            proof {
                let next = lines_view(lines@);
                assert forall|k: int| 0 <= k < n implies #[trigger] next[k] == (if k < i + 1 {
                    BrowserLineState { selected: k == index, ..before[k] }
                } else {
                    before[k]
                }) by {
                    assert(now[k] == prev[k]@);
                    assert(next[k] == lines@[k]@);
                    if k != i {
                        assert(lines@[k] == prev[k]);
                    }
                }
            }
            i += 1;
        }
        proof {
            assert(lines_view(lines@) =~= selected_only(before, line));
        }
    }
}

/// Gives the line `line` the text `txt`.
pub fn set_line_text(lines: &mut Vec<BrowserLine>, line: u32, txt: &str)
    ensures
        lines_view(final(lines)@) == with_line(
            lines_view(old(lines)@),
            line,
            BrowserLineState { text: txt@, ..lines_view(old(lines)@)[line - 1] },
        ),
{
    let ghost before = lines_view(lines@);
    if line >= 1 && line as usize <= lines.len() {
        lines[line as usize - 1].text = txt.to_owned();
        proof {
            assert(lines_view(lines@) =~= before.update(
                line - 1,
                BrowserLineState { text: txt@, ..before[line - 1] },
            ));
        }
    }
}

/// Gives the line `line` the icon `icon`, or takes its icon away.
pub fn set_line_icon(lines: &mut Vec<BrowserLine>, line: u32, icon: Option<Image>)
    ensures
        lines_view(final(lines)@) == with_line(
            lines_view(old(lines)@),
            line,
            BrowserLineState { icon, ..lines_view(old(lines)@)[line - 1] },
        ),
{
    let ghost before = lines_view(lines@);
    if line >= 1 && line as usize <= lines.len() {
        lines[line as usize - 1].icon = icon;
        proof {
            assert(lines_view(lines@) =~= before.update(
                line - 1,
                BrowserLineState { icon, ..before[line - 1] },
            ));
        }
    }
}

/// Lets the lines `a` and `b` change places: see `swapped`.
pub fn swap_two(lines: &mut Vec<BrowserLine>, a: u32, b: u32)
    ensures
        lines_view(final(lines)@) == swapped(lines_view(old(lines)@), a, b),
{
    let ghost before = lines_view(lines@);
    let n = lines.len();
    if a >= 1 && a as usize <= n && b >= 1 && b as usize <= n && a != b {
        let (lo, hi) = if a < b {
            (a as usize - 1, b as usize - 1)
        } else {
            (b as usize - 1, a as usize - 1)
        };
        swap_lines(lines, lo, hi);
        proof {
            assert(before.update(lo as int, before[hi as int]).update(
                hi as int,
                before[lo as int],
            ) =~= swapped(before, a, b));
        }
    } else {
        proof {
            assert(swapped(before, a, b) =~= before);
        }
    }
}

/// Takes the line `from` out and puts it at `to`: see `moved`.
pub fn move_line(lines: &mut Vec<BrowserLine>, to: u32, from: u32)
    ensures
        lines_view(final(lines)@) == moved(lines_view(old(lines)@), to, from),
{
    if from >= 1 && from as usize <= lines.len() {
        let ghost list = lines@;
        let l = lines.remove(from as usize - 1);
        let at = land(lines.len(), to);
        let ghost rest = lines@;
        lines.insert(at, l);
        proof {
            lemma_lines_remove(list, from - 1);
            lemma_lines_insert(rest, at as int, l);
        }
    }
}

/// Takes the line `line` out: see `without`.
pub fn remove_line(lines: &mut Vec<BrowserLine>, line: u32)
    ensures
        lines_view(final(lines)@) == without(lines_view(old(lines)@), line),
{
    if line >= 1 && line as usize <= lines.len() {
        let ghost list = lines@;
        lines.remove(line as usize - 1);
        proof {
            lemma_lines_remove(list, line - 1);
        }
    }
}

/// Puts a line with the text `item` at `line`: see `landing`.
pub fn insert_line(lines: &mut Vec<BrowserLine>, line: u32, item: &str)
    ensures
        lines_view(final(lines)@) == lines_view(old(lines)@).insert(
            landing(old(lines)@.len() as int, line),
            BrowserLineState::initial(item@),
        ),
{
    let l = BrowserLine::new(item);
    let at = land(lines.len(), line);
    let ghost list = lines@;
    lines.insert(at, l);
    proof {
        lemma_lines_insert(list, at as int, l);
    }
}

/// The lines that a browser holds after it was loaded with `text`: see
/// `loaded`.
pub fn load_lines(text: &str) -> (fresh: Vec<BrowserLine>)
    ensures
        lines_view(fresh@) == loaded(text@),
{
    let texts = split_lines(text);
    let n = texts.len();
    let mut fresh: Vec<BrowserLine> = Vec::new();
    let mut i: usize = 0;
    while i < n
        invariant
            n == texts@.len(),
            i <= n,
            texts_of(texts@) == lines_of(text@),
            fresh@.len() == i,
            forall|k: int|
                0 <= k < i ==> (#[trigger] fresh@[k])@ == BrowserLineState::initial(
                    lines_of(text@)[k],
                ),
        decreases n - i,
    {
        proof {
            assert(texts_of(texts@)[i as int] == texts@[i as int]@);
        }
        fresh.push(BrowserLine::new(texts[i].as_str()));
        i += 1;
    }
    proof {
        assert(texts_of(texts@).len() == n);
        assert(lines_view(fresh@) =~= loaded(text@));
    }
    fresh
}

/// Where a line that is put at `line` comes to stand in a list of `len`
/// lines: see `landing`.
pub fn land(len: usize, line: u32) -> (at: usize)
    ensures
        at == landing(len as int, line),
{
    if line <= 1 {
        0
    } else if line as usize > len {
        len
    } else {
        line as usize - 1
    }
}

} // verus!
