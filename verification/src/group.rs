//! Groups: widgets that hold other widgets.

use vstd::prelude::*;
use crate::app::{linked, App, AppState};
use crate::prelude::{GroupTrait, WidgetBase, WidgetTrait};
use crate::state::{Handle, PropsState, WidgetKind};
use crate::widget::Widget;

verus! {

/// A widget that holds other widgets.
#[derive(Clone, Copy, Debug, PartialEq, Eq, Hash, Structural)]
pub struct Group {
    _inner: Handle,
}

impl WidgetBase for Group {
    closed spec fn id(&self) -> Handle {
        self._inner
    }

    open spec fn kind_of() -> WidgetKind {
        WidgetKind::Group
    }

    fn as_widget_ptr(&self) -> (h: Handle) {
        self._inner
    }

    fn from_widget_ptr(ptr: Handle) -> (w: Self) {
        Group { _inner: ptr }
    }

    fn kind() -> (k: WidgetKind) {
        WidgetKind::Group
    }
}

impl WidgetTrait for Group {
}

impl GroupTrait for Group {
}

/// A group that shows one of its children at a time, as the pages of a wizard.
#[derive(Clone, Copy, Debug, PartialEq, Eq, Hash, Structural)]
pub struct Wizard {
    _inner: Handle,
}

impl WidgetBase for Wizard {
    closed spec fn id(&self) -> Handle {
        self._inner
    }

    open spec fn kind_of() -> WidgetKind {
        WidgetKind::Wizard
    }

    fn as_widget_ptr(&self) -> (h: Handle) {
        self._inner
    }

    fn from_widget_ptr(ptr: Handle) -> (w: Self) {
        Wizard { _inner: ptr }
    }

    fn kind() -> (k: WidgetKind) {
        WidgetKind::Wizard
    }
}

impl WidgetTrait for Wizard {
}

impl GroupTrait for Wizard {
}


/// The child of `g` at `k` is shown and no child before it is: it is the page
/// that the wizard `g` is open at.
pub open spec fn shown_at(s: AppState, g: Handle, k: int) -> bool {
    &&& 0 <= k < s.node(g).children.len()
    &&& s.props[s.node(g).children[k] as int].visible
    &&& forall|j: int| 0 <= j < k ==> !s.props[#[trigger] s.node(g).children[j] as int].visible
}

/// No child of `g` is shown.
pub open spec fn none_shown(s: AppState, g: Handle) -> bool {
    forall|j: int|
        0 <= j < s.node(g).children.len() ==> !s.props[#[trigger] s.node(g).children[j] as int].visible
}

/// The state after the first `upto` children of `g` were shown or hidden so
/// that, among them, only the child at `page` is shown.
pub open spec fn turned_upto(s: AppState, g: Handle, page: int, upto: int) -> AppState {
    AppState {
        props: Seq::new(
            s.props.len(),
            |i: int|
                if s.node(g).children.subrange(0, upto).contains(i as usize) {
                    PropsState { visible: i == s.node(g).children[page], ..s.props[i] }
                } else {
                    s.props[i]
                },
        ),
        ..s
    }
}

/// The state after the wizard `g` was opened at `page`: of its children, the
/// one at `page` is shown and all others are hidden. Nothing else changes.
pub open spec fn turned(s: AppState, g: Handle, page: int) -> AppState {
    turned_upto(s, g, page, s.node(g).children.len() as int)
}

impl Wizard {
    /// Opens the wizard at `page`.
    fn turn(&self, app: &mut App, page: usize)
        requires
            old(app).ready(),
            old(app)@.valid(self.id()),
            page < old(app)@.node(self.id()).children.len(),
        ensures
            final(app).ready(),
            final(app)@ == turned(old(app)@, self.id(), page as int),
    {
        let g = self.as_widget_ptr();
        let ghost before = app@;
        let ghost kids = before.node(g).children;
        proof {
            app.inv_well_formed();
            assert(linked(before.nodes, g.index as int));
            assert(before =~= turned_upto(before, g, page as int, 0));
        }
        let n = app.child_count(g);
        let mut j: usize = 0;
        while j < n
            invariant
                app.ready(),
                g == self.id(),
                before.valid(g),
                before.well_formed(),
                kids == before.node(g).children,
                before.nodes.len() <= usize::MAX,
                n == kids.len(),
                page < n,
                j <= n,
                kids.no_duplicates(),
                forall|k: int| 0 <= k < kids.len() ==> (#[trigger] kids[k]) < before.nodes.len(),
                app@ == turned_upto(before, g, page as int, j as int),
            decreases n - j,
        {
            let ghost now = app@;
            let c = app.child(g, j).unwrap();
            let shown = j == page;
            let p = app.props_mut(c);
            p.visible = shown;
            proof {
                let next = turned_upto(before, g, page as int, j + 1);
                let lower = kids.subrange(0, j as int);
                let upper = kids.subrange(0, j + 1);
                assert(upper =~= lower.push(kids[j as int]));
                assert(c.index == kids[j as int]);
                assert(now.props.len() == before.props.len());
                assert forall|i: int| 0 <= i < next.props.len() implies app@.props[i]
                    == next.props[i] by {
                    let iu = i as usize;
                    if i == c.index as int {
                        assert(upper[j as int] == iu);
                        assert(!lower.contains(iu)) by {
                            if lower.contains(iu) {
                                let m = choose|m: int| 0 <= m < lower.len() && lower[m] == iu;
                                assert(kids[m] == kids[j as int]);
                            }
                        }
                    } else {
                        if upper.contains(iu) {
                            let m = choose|m: int| 0 <= m < upper.len() && upper[m] == iu;
                            assert(m != j);
                            assert(lower[m] == iu);
                        }
                        if lower.contains(iu) {
                            let m = choose|m: int| 0 <= m < lower.len() && lower[m] == iu;
                            assert(upper[m] == iu);
                        }
                    }
                }
                assert(app@ =~= next);
            }
            j += 1;
        }
    }

    /// The place of the page that the wizard is open at: the first child that
    /// is shown.
    pub fn current_page(&self, app: &App) -> (r: Option<usize>)
        requires
            app.ready(),
            app@.valid(self.id()),
        ensures
            r matches Some(k) ==> shown_at(app@, self.id(), k as int),
            r is None ==> none_shown(app@, self.id()),
    {
        let g = self.as_widget_ptr();
        proof {
            app.inv_well_formed();
            assert(linked(app@.nodes, g.index as int));
        }
        let n = app.child_count(g);
        let mut j: usize = 0;
        while j < n
            invariant
                app.ready(),
                g == self.id(),
                app@.valid(g),
                n == app@.node(g).children.len(),
                j <= n,
                forall|k: int|
                    0 <= k < n ==> (#[trigger] app@.node(g).children[k]) < app@.nodes.len(),
                forall|k: int|
                    0 <= k < j ==> !app@.props[#[trigger] app@.node(g).children[k] as int].visible,
            decreases n - j,
        {
            let c = app.child(g, j).unwrap();
            if app.props(c).visible {
                return Some(j);
            }
            j += 1;
        }
        None
    }

    /// The page that the wizard is open at: the first child that is shown.
    pub fn current_widget(&self, app: &App) -> (r: Option<Widget>)
        requires
            app.ready(),
            app@.valid(self.id()),
        ensures
            r matches Some(w) ==> exists|k: int|
                shown_at(app@, self.id(), k) && w.id().index == app@.node(self.id()).children[k],
            r is None ==> none_shown(app@, self.id()),
    {
        match self.current_page(app) {
            Some(k) => {
                let c = app.child(self.as_widget_ptr(), k).unwrap();
                Some(Widget::from_widget_ptr(c))
            },
            None => None,
        }
    }

    /// Turns to the next page: the child behind the one that the wizard is
    /// open at is shown and all others are hidden. On the last page, or with
    /// no page shown, nothing changes.
    pub fn next(&mut self, app: &mut App)
        requires
            old(app).ready(),
            old(app)@.valid(old(self).id()),
        ensures
            *final(self) == *old(self),
            final(app).ready(),
            forall|k: int|
                shown_at(old(app)@, old(self).id(), k) ==> final(app)@ == if k + 1 < old(app)@.node(
                    old(self).id(),
                ).children.len() {
                    turned(old(app)@, old(self).id(), k + 1)
                } else {
                    old(app)@
                },
            none_shown(old(app)@, old(self).id()) ==> final(app)@ == old(app)@,
    {
        let n = app.child_count(self.as_widget_ptr());
        match self.current_page(app) {
            Some(k) => {
                if k + 1 < n {
                    self.turn(app, k + 1);
                }
            },
            None => {},
        }
    }

    /// Turns to the page before: the child before the one that the wizard is
    /// open at is shown and all others are hidden. On the first page, or with
    /// no page shown, nothing changes.
    pub fn prev(&mut self, app: &mut App)
        requires
            old(app).ready(),
            old(app)@.valid(old(self).id()),
        ensures
            *final(self) == *old(self),
            final(app).ready(),
            forall|k: int|
                shown_at(old(app)@, old(self).id(), k) ==> final(app)@ == if k >= 1 {
                    turned(old(app)@, old(self).id(), k - 1)
                } else {
                    old(app)@
                },
            none_shown(old(app)@, old(self).id()) ==> final(app)@ == old(app)@,
    {
        match self.current_page(app) {
            Some(k) => {
                if k >= 1 {
                    self.turn(app, k - 1);
                }
            },
            None => {},
        }
    }
}

} // verus!
