//! The display context: the one value that owns every widget record, the tree
//! that links them, and the state of the toolkit as a whole.

use vstd::prelude::*;
use vstd::string::*;
use crate::error::{FltkError, FltkErrorKind};
use crate::state::{Handle, Props, PropsState, WidgetKind};
use crate::text::contains_nul;

verus! {

/// How far the toolkit has come in its life.
#[derive(Clone, Copy, Debug, PartialEq, Eq, Hash, Structural)]
pub enum Phase {
    /// The display context has not been set up: no widget operation is valid.
    Uninitialized,
    /// The display context is set up and the event loop has not been entered.
    Ready,
    /// The event loop has been entered.
    Running,
}

/// A named visual style, applied to all widgets at once.
#[derive(Clone, Copy, Debug, PartialEq, Eq, Hash, Structural)]
pub enum Scheme {
    Base,
    Gtk,
    Gleam,
    Plastic,
}

impl Scheme {
    /// The name the toolkit knows this scheme by.
    pub open spec fn name_text(self) -> Seq<char> {
        match self {
            Scheme::Base => "base"@,
            Scheme::Gtk => "gtk+"@,
            Scheme::Gleam => "gleam"@,
            Scheme::Plastic => "plastic"@,
        }
    }

    /// The scheme that goes by `name`, if there is one.
    pub open spec fn named(name: Seq<char>) -> Option<Scheme> {
        if name == "base"@ {
            Some(Scheme::Base)
        } else if name == "gtk+"@ {
            Some(Scheme::Gtk)
        } else if name == "gleam"@ {
            Some(Scheme::Gleam)
        } else if name == "plastic"@ {
            Some(Scheme::Plastic)
        } else {
            None
        }
    }

    /// The name the toolkit knows this scheme by.
    pub fn name(&self) -> (s: &str)
        ensures
            s@ == self.name_text(),
    {
        match self {
            Scheme::Base => "base",
            Scheme::Gtk => "gtk+",
            Scheme::Gleam => "gleam",
            Scheme::Plastic => "plastic",
        }
    }

    /// Looks a scheme up by its name.
    pub fn from_name(name: &str) -> (r: Result<Scheme, FltkError>)
        ensures
            r matches Ok(s) ==> Scheme::named(name@) == Some(s),
            r matches Err(e) ==> Scheme::named(name@) is None && e == FltkError::Internal(
                FltkErrorKind::FailedToSetScheme,
            ),
    {
        let owned = name.to_owned();
        if owned == String::from_str("base") {
            Ok(Scheme::Base)
        } else if owned == String::from_str("gtk+") {
            Ok(Scheme::Gtk)
        } else if owned == String::from_str("gleam") {
            Ok(Scheme::Gleam)
        } else if owned == String::from_str("plastic") {
            Ok(Scheme::Plastic)
        } else {
            Err(FltkError::Internal(FltkErrorKind::FailedToSetScheme))
        }
    }
}

/// The links of one widget record.
struct Node {
    kind: WidgetKind,
    alive: bool,
    parent: Option<usize>,
    children: Vec<usize>,
    resizable: Option<usize>,
}

/// The links of one widget, as the contracts see them.
pub struct NodeState {
    /// What the widget is.
    pub kind: WidgetKind,
    /// Whether handles to the widget are still valid.
    pub alive: bool,
    /// The group that holds the widget.
    pub parent: Option<usize>,
    /// The widgets that the widget holds, in order.
    pub children: Seq<usize>,
    /// The child that takes up extra space when the widget is resized.
    pub resizable: Option<usize>,
}

impl View for Node {
    type V = NodeState;

    closed spec fn view(&self) -> NodeState {
        NodeState {
            kind: self.kind,
            alive: self.alive,
            parent: self.parent,
            children: self.children@,
            resizable: self.resizable,
        }
    }
}

/// The links of `nodes[i]` agree with those of its parent and its children.
pub open spec fn linked(nodes: Seq<NodeState>, i: int) -> bool {
    &&& nodes[i].parent matches Some(p) ==> {
        &&& p < nodes.len()
        &&& p != i
        &&& nodes[p as int].kind.is_group()
        &&& nodes[p as int].children.contains(i as usize)
        &&& (nodes[i].alive ==> nodes[p as int].alive)
    }
    &&& forall|k: int|
        0 <= k < nodes[i].children.len() ==> (#[trigger] nodes[i].children[k]) < nodes.len()
            && nodes[nodes[i].children[k] as int].parent == Some(i as usize)
    &&& nodes[i].children.no_duplicates()
    &&& (!nodes[i].kind.is_group() ==> nodes[i].children.len() == 0)
    &&& nodes[i].resizable matches Some(r) ==> r < nodes.len()
}

/// The widget `k` steps above `i`: `i` itself for no step, its parent for one.
pub open spec fn ancestor(nodes: Seq<NodeState>, i: usize, k: nat) -> Option<usize>
    decreases k,
{
    if k == 0 {
        Some(i)
    } else if i < nodes.len() {
        match nodes[i as int].parent {
            Some(p) => ancestor(nodes, p, (k - 1) as nat),
            None => None,
        }
    } else {
        None
    }
}

/// Whether `inner` is `outer` or stands somewhere below it.
pub open spec fn below(nodes: Seq<NodeState>, outer: usize, inner: usize) -> bool {
    exists|k: nat| ancestor(nodes, inner, k) == Some(outer)
}

/// The state of the toolkit, as the contracts see it.
#[verifier::ext_equal]
pub struct AppState {
    /// How far the toolkit has come in its life.
    pub phase: Phase,
    /// The visual scheme in force.
    pub scheme: Scheme,
    /// Whether the toolkit was made safe for use from several threads.
    pub locked: bool,
    /// The size of the screen.
    pub screen_width: i32,
    pub screen_height: i32,
    /// The group that receives the widgets made next.
    pub current: Option<usize>,
    /// The window that drawing goes to.
    pub drawing: Option<usize>,
    /// The text last copied or cut.
    pub clipboard: Seq<char>,
    /// The names of the resources that can be looked up.
    pub resources: Seq<Seq<char>>,
    /// The links of every widget ever made, by handle.
    pub nodes: Seq<NodeState>,
    /// The properties of every widget ever made, by handle.
    pub props: Seq<PropsState>,
}

impl AppState {
    /// Whether `h` names a widget that has not been removed.
    pub open spec fn valid(self, h: Handle) -> bool {
        h.index < self.nodes.len() && self.nodes[h.index as int].alive
    }

    /// The links of the widget that `h` names.
    pub open spec fn node(self, h: Handle) -> NodeState {
        self.nodes[h.index as int]
    }

    /// The properties of the widget that `h` names.
    pub open spec fn widget(self, h: Handle) -> PropsState {
        self.props[h.index as int]
    }

    /// Whether `inner` is `outer` or stands somewhere below it.
    pub open spec fn contains(self, outer: Handle, inner: Handle) -> bool {
        below(self.nodes, outer.index, inner.index)
    }

    /// Every widget has properties, the links of all widgets agree, and the
    /// current group and the drawing target exist.
    pub open spec fn well_formed(self) -> bool {
        &&& self.props.len() == self.nodes.len()
        &&& forall|i: int| 0 <= i < self.nodes.len() ==> #[trigger] linked(self.nodes, i)
        &&& self.current matches Some(g) ==> g < self.nodes.len()
            && self.nodes[g as int].kind.is_group() && self.nodes[g as int].alive
        &&& self.drawing matches Some(w) ==> w < self.nodes.len()
    }

    /// This state with the properties of `h` replaced by `p`.
    pub open spec fn with_props(self, h: Handle, p: PropsState) -> AppState {
        AppState { props: self.props.update(h.index as int, p), ..self }
    }

    /// The links with which a widget of kind `kind` starts: alive, below the
    /// current group, without children.
    pub open spec fn fresh_node(self, kind: WidgetKind) -> NodeState {
        NodeState {
            kind,
            alive: true,
            parent: self.current,
            children: Seq::empty(),
            resizable: None,
        }
    }

    /// The links of all widgets once `child` was appended to the children of
    /// the current group, if there is one.
    pub open spec fn adopted(self, nodes: Seq<NodeState>, child: usize) -> Seq<NodeState> {
        match self.current {
            Some(g) => nodes.update(
                g as int,
                NodeState { children: nodes[g as int].children.push(child), ..nodes[g as int] },
            ),
            None => nodes,
        }
    }

    /// The state after one more widget was made: it takes the next handle,
    /// becomes the last child of the current group, and, where it holds
    /// children itself, becomes the current group.
    pub open spec fn created(
        self,
        kind: WidgetKind,
        x: i32,
        y: i32,
        width: i32,
        height: i32,
        title: Seq<char>,
    ) -> AppState {
        let h = self.nodes.len() as usize;
        AppState {
            nodes: self.adopted(self.nodes.push(self.fresh_node(kind)), h),
            props: self.props.push(PropsState::initial(kind, x, y, width, height, title)),
            current: if kind.is_group() {
                Some(h)
            } else {
                self.current
            },
            ..self
        }
    }
}

impl AppState {
    /// The state after `g` was made the current group.
    pub open spec fn begun(self, g: Handle) -> AppState {
        AppState { current: Some(g.index), ..self }
    }

    /// The state after the group `g` was closed: the group that holds `g`
    /// becomes current.
    pub open spec fn ended(self, g: Handle) -> AppState {
        AppState { current: self.node(g).parent, ..self }
    }

    /// `win` stands `k` steps above `h`, is a window, and no widget between
    /// the two is one.
    pub open spec fn window_at(self, h: Handle, win: Handle, k: nat) -> bool {
        &&& k >= 1
        &&& ancestor(self.nodes, h.index, k) == Some(win.index)
        &&& self.node(win).kind.is_window()
        &&& forall|j: nat|
            1 <= j < k ==> (#[trigger] ancestor(self.nodes, h.index, j) matches Some(a)
                ==> !self.nodes[a as int].kind.is_window())
    }

    /// No widget above `h` is a window.
    pub open spec fn windowless(self, h: Handle) -> bool {
        forall|k: nat|
            k >= 1 ==> (#[trigger] ancestor(self.nodes, h.index, k) matches Some(a)
                ==> !self.nodes[a as int].kind.is_window())
    }

    /// `top` is `h` or stands above it, and nothing stands above `top`.
    pub open spec fn root_of(self, h: Handle, top: Handle) -> bool {
        &&& self.contains(top, h)
        &&& top.index < self.nodes.len()
        &&& self.node(top).parent is None
    }

    /// The state after `w` was named as the child of `g` that takes up extra
    /// space.
    pub open spec fn with_resizable(self, g: Handle, w: Handle) -> AppState {
        AppState {
            nodes: self.nodes.update(
                g.index as int,
                NodeState { resizable: Some(w.index), ..self.node(g) },
            ),
            ..self
        }
    }
}

/// One more step up from the widget `k` steps above `i`.
pub proof fn lemma_ancestor_step(nodes: Seq<NodeState>, i: usize, k: nat)
    ensures
        ancestor(nodes, i, k + 1) == match ancestor(nodes, i, k) {
            Some(a) => if a < nodes.len() {
                nodes[a as int].parent
            } else {
                None
            },
            None => None,
        },
    decreases k,
{
    if k == 0 {
        assert(ancestor(nodes, i, 1) == if i < nodes.len() {
            match nodes[i as int].parent {
                Some(p) => ancestor(nodes, p, 0),
                None => None,
            }
        } else {
            None
        });
    } else {
        if i < nodes.len() {
            match nodes[i as int].parent {
                Some(p) => {
                    lemma_ancestor_step(nodes, p, (k - 1) as nat);
                },
                None => {},
            }
        }
    }
}

/// Above the top of a chain there is nothing.
pub proof fn lemma_ancestor_ends(nodes: Seq<NodeState>, i: usize, k: nat, m: nat)
    requires
        ancestor(nodes, i, k) is None,
        k <= m,
    ensures
        ancestor(nodes, i, m) is None,
    decreases m - k,
{
    if k < m {
        lemma_ancestor_step(nodes, i, k);
        lemma_ancestor_ends(nodes, i, k + 1, m);
    }
}

impl AppState {
    /// The links of the widget `i` once the widget `c` and all below it were
    /// destroyed: those widgets are dead, and `c` has no parent.
    pub open spec fn buried(self, c: usize, i: int) -> NodeState {
        if self.contains(Handle { index: c }, Handle { index: i as usize }) {
            NodeState {
                alive: false,
                parent: if i == c {
                    None
                } else {
                    self.nodes[i].parent
                },
                ..self.nodes[i]
            }
        } else {
            self.nodes[i]
        }
    }

    /// The current group once the widget `c` and all below it were destroyed.
    pub open spec fn current_without(self, c: usize) -> Option<usize> {
        match self.current {
            Some(cur) => if self.contains(Handle { index: c }, Handle { index: cur }) {
                None
            } else {
                Some(cur)
            },
            None => None,
        }
    }

    /// The state after the child of `g` at `idx` was removed: the child and
    /// all widgets below it are dead, it is no longer among the children of
    /// `g`, and where it was the resizable child or held the current group,
    /// there is none. Without a child at `idx` nothing changes.
    pub open spec fn removed(self, g: Handle, idx: int) -> AppState {
        if 0 <= idx < self.node(g).children.len() {
            let c = self.node(g).children[idx];
            AppState {
                nodes: Seq::new(
                    self.nodes.len(),
                    |i: int|
                        if i == g.index {
                            NodeState {
                                children: self.nodes[i].children.remove(idx),
                                resizable: if self.nodes[i].resizable == Some(c) {
                                    None
                                } else {
                                    self.nodes[i].resizable
                                },
                                ..self.nodes[i]
                            }
                        } else {
                            self.buried(c, i)
                        },
                ),
                current: self.current_without(c),
                ..self
            }
        } else {
            self
        }
    }

    /// The links of the widget `i` once all widgets below `g` were destroyed.
    pub open spec fn emptied(self, g: usize, i: int) -> NodeState {
        if i == g {
            NodeState { children: Seq::empty(), resizable: None, ..self.nodes[i] }
        } else if self.contains(Handle { index: g }, Handle { index: i as usize }) {
            NodeState {
                alive: false,
                parent: if self.nodes[i].parent == Some(g) {
                    None
                } else {
                    self.nodes[i].parent
                },
                ..self.nodes[i]
            }
        } else {
            self.nodes[i]
        }
    }

    /// The state after all children of `g` were removed: every widget below
    /// `g` is dead, `g` holds nothing, and where the current group was below
    /// `g`, there is none.
    pub open spec fn cleared(self, g: Handle) -> AppState {
        AppState {
            nodes: Seq::new(self.nodes.len(), |i: int| self.emptied(g.index, i)),
            current: match self.current {
                Some(cur) => if cur != g.index && self.contains(g, Handle { index: cur }) {
                    None
                } else {
                    Some(cur)
                },
                None => None,
            },
            ..self
        }
    }

    /// Where `w` comes to stand among the children of `g` when it is put at
    /// `index`: at `index` or at the end, whichever comes first, counted
    /// before `w` leaves the place it may already have in `g`.
    pub open spec fn landing(self, g: Handle, w: Handle, index: int) -> int {
        let list = self.node(g).children;
        let lim = if index < list.len() {
            index
        } else {
            list.len() as int
        };
        if self.node(w).parent == Some(g.index) && lim > list.index_of(w.index) {
            lim - 1
        } else {
            lim
        }
    }

    /// The links of the widget `i` once `w` was put among the children of `g`
    /// at `index`.
    pub open spec fn rehomed(self, g: Handle, w: Handle, index: int, i: int) -> NodeState {
        let from = self.node(w).parent;
        let left = if from == Some(i as usize) {
            NodeState {
                children: self.nodes[i].children.remove(
                    self.nodes[i].children.index_of(w.index),
                ),
                resizable: if i != g.index && self.nodes[i].resizable == Some(w.index) {
                    None
                } else {
                    self.nodes[i].resizable
                },
                ..self.nodes[i]
            }
        } else {
            self.nodes[i]
        };
        if i == g.index {
            NodeState {
                children: left.children.insert(self.landing(g, w, index), w.index),
                ..left
            }
        } else if i == w.index {
            NodeState { parent: Some(g.index), ..left }
        } else {
            left
        }
    }

    /// The state after `w` was put among the children of `g` at `index`: it
    /// leaves the group that held it and becomes a child of `g`. Within `g`
    /// itself this moves `w`.
    pub open spec fn inserted(self, g: Handle, w: Handle, index: int) -> AppState {
        AppState {
            nodes: Seq::new(self.nodes.len(), |i: int| self.rehomed(g, w, index, i)),
            ..self
        }
    }
}

/// Steps up the tree read nothing but the parents.
pub proof fn lemma_ancestor_same_parents(a: Seq<NodeState>, b: Seq<NodeState>, i: usize, k: nat)
    requires
        a.len() == b.len(),
        forall|j: int| 0 <= j < a.len() ==> a[j].parent == b[j].parent,
    ensures
        ancestor(a, i, k) == ancestor(b, i, k),
    decreases k,
{
    if k > 0 && i < a.len() {
        match a[i as int].parent {
            Some(p) => {
                lemma_ancestor_same_parents(a, b, p, (k - 1) as nat);
            },
            None => {},
        }
    }
}

/// Removing one place of a list without repeats leaves a list without
/// repeats that holds the same values but the one removed.
pub proof fn lemma_remove_keeps(s: Seq<usize>, idx: int)
    requires
        0 <= idx < s.len(),
        s.no_duplicates(),
    ensures
        s.remove(idx).no_duplicates(),
        s.remove(idx).len() == s.len() - 1,
        !s.remove(idx).contains(s[idx]),
        forall|v: usize| v != s[idx] && s.contains(v) ==> #[trigger] s.remove(idx).contains(v),
        forall|k: int| 0 <= k < s.len() - 1 ==> s.contains(#[trigger] s.remove(idx)[k]),
{
    let r = s.remove(idx);
    assert forall|v: usize| v != s[idx] && s.contains(v) implies #[trigger] r.contains(v) by {
        let k = choose|k: int| 0 <= k < s.len() && s[k] == v;
        if k < idx {
            assert(r[k] == v);
        } else {
            assert(r[k - 1] == v);
        }
    }
    assert forall|k: int| 0 <= k < s.len() - 1 implies s.contains(#[trigger] r[k]) by {
        if k < idx {
            assert(s[k] == r[k]);
        } else {
            assert(s[k + 1] == r[k]);
        }
    }
}

/// Putting a new value into a list without repeats leaves a list without
/// repeats that holds the same values and the new one.
pub proof fn lemma_insert_keeps(s: Seq<usize>, at: int, v: usize)
    requires
        0 <= at <= s.len(),
        s.no_duplicates(),
        !s.contains(v),
    ensures
        s.insert(at, v).no_duplicates(),
        s.insert(at, v).len() == s.len() + 1,
        s.insert(at, v)[at] == v,
        forall|u: usize| s.contains(u) ==> #[trigger] s.insert(at, v).contains(u),
        forall|k: int|
            0 <= k < s.len() + 1 ==> (#[trigger] s.insert(at, v)[k]) == v || s.contains(
                s.insert(at, v)[k],
            ),
{
    let r = s.insert(at, v);
    assert forall|u: usize| s.contains(u) implies #[trigger] r.contains(u) by {
        let k = choose|k: int| 0 <= k < s.len() && s[k] == u;
        if k < at {
            assert(r[k] == u);
        } else {
            assert(r[k + 1] == u);
        }
    }
    assert forall|k: int| 0 <= k < s.len() + 1 implies (#[trigger] r[k]) == v || s.contains(
        r[k],
    ) by {
        if k < at {
            assert(s[k] == r[k]);
        } else if k > at {
            assert(s[k - 1] == r[k]);
        }
    }
    assert forall|i: int, j: int| 0 <= i < r.len() && 0 <= j < r.len() && i != j implies r[i]
        != r[j] by {
        let a = if i < at { i } else { i - 1 };
        let b = if j < at { j } else { j - 1 };
        if i != at && j != at {
            assert(s[a] == r[i] && s[b] == r[j]);
        } else if i != at {
            assert(s[a] == r[i]);
        } else {
            assert(s[b] == r[j]);
        }
    }
}

impl AppState {
    /// Whether a resource goes by `name`.
    pub open spec fn has_resource(self, name: Seq<char>) -> bool {
        exists|i: int| 0 <= i < self.resources.len() && self.resources[i] == name
    }

    /// `i` is the first place at which a resource goes by `name`.
    pub open spec fn first_resource(self, name: Seq<char>, i: int) -> bool {
        &&& 0 <= i < self.resources.len()
        &&& self.resources[i] == name
        &&& forall|j: int| 0 <= j < i ==> self.resources[j] != name
    }
}

impl AppState {
    /// Where the left edge of `h` comes to stand when `h` is put in the middle
    /// of `w`: half the spare width beyond the left edge of `w`, or beyond
    /// zero where `w` is a window.
    pub open spec fn center_x(self, h: Handle, w: Handle) -> int {
        crate::prelude::half(self.widget(w).width - self.widget(h).width) + if self.node(
            w,
        ).kind.is_window() {
            0
        } else {
            self.widget(w).x as int
        }
    }

    /// Where the upper edge of `h` comes to stand when `h` is put in the
    /// middle of `w`.
    pub open spec fn center_y(self, h: Handle, w: Handle) -> int {
        crate::prelude::half(self.widget(w).height - self.widget(h).height) + if self.node(
            w,
        ).kind.is_window() {
            0
        } else {
            self.widget(w).y as int
        }
    }
}

/// A widget stands in one tree: it has one top.
pub proof fn lemma_root_unique(state: AppState, h: Handle)
    ensures
        forall|a: Handle, b: Handle| #[trigger]
            state.root_of(h, a) && #[trigger] state.root_of(h, b) ==> a == b,
{
    assert forall|a: Handle, b: Handle| #[trigger]
        state.root_of(h, a) && #[trigger] state.root_of(h, b) implies a == b by {
        let ka = choose|k: nat| ancestor(state.nodes, h.index, k) == Some(a.index);
        let kb = choose|k: nat| ancestor(state.nodes, h.index, k) == Some(b.index);
        if ka < kb {
            lemma_ancestor_step(state.nodes, h.index, ka);
            lemma_ancestor_ends(state.nodes, h.index, ka + 1, kb);
        } else if kb < ka {
            lemma_ancestor_step(state.nodes, h.index, kb);
            lemma_ancestor_ends(state.nodes, h.index, kb + 1, ka);
        }
    }
}

/// The display context. It owns the record of every widget; the widget types
/// are handles into it.
pub struct App {
    phase: Phase,
    scheme: Scheme,
    locked: bool,
    screen_width: i32,
    screen_height: i32,
    current: Option<usize>,
    drawing: Option<usize>,
    clipboard: String,
    resources: Vec<String>,
    nodes: Vec<Node>,
    props: Vec<Props>,
    rank: Ghost<Seq<nat>>,
}

spec fn nodes_view(nodes: Seq<Node>) -> Seq<NodeState> {
    Seq::new(nodes.len(), |i: int| nodes[i]@)
}

spec fn props_view(props: Seq<Props>) -> Seq<PropsState> {
    Seq::new(props.len(), |i: int| props[i]@)
}

spec fn texts_view(texts: Seq<String>) -> Seq<Seq<char>> {
    Seq::new(texts.len(), |i: int| texts[i]@)
}

/// Every widget stands strictly higher than its parent.
spec fn ranked(nodes: Seq<NodeState>, rank: Seq<nat>) -> bool {
    &&& rank.len() == nodes.len()
    &&& forall|i: int|
        0 <= i < nodes.len() ==> ((#[trigger] nodes[i]).parent matches Some(p) ==> p < nodes.len()
            && rank[p as int] < rank[i])
}

/// A widget whose parent stands below `outer` stands below `outer`.
pub proof fn lemma_below_child(nodes: Seq<NodeState>, outer: usize, i: usize)
    requires
        i < nodes.len(),
        nodes[i as int].parent matches Some(p) && below(nodes, outer, p),
    ensures
        below(nodes, outer, i),
{
    let p = nodes[i as int].parent->0;
    let k = choose|k: nat| ancestor(nodes, p, k) == Some(outer);
    assert(ancestor(nodes, i, k + 1) == Some(outer));
}

/// A widget that stands below `outer` and is not `outer` has a parent that
/// stands below `outer`.
pub proof fn lemma_below_parent(nodes: Seq<NodeState>, outer: usize, i: usize)
    requires
        below(nodes, outer, i),
        i != outer,
    ensures
        i < nodes.len(),
        nodes[i as int].parent matches Some(p) && below(nodes, outer, p),
{
    let k = choose|k: nat| ancestor(nodes, i, k) == Some(outer);
    assert(k > 0);
    let p = nodes[i as int].parent->0;
    assert(ancestor(nodes, p, (k - 1) as nat) == Some(outer));
}

/// Every widget stands below itself.
pub proof fn lemma_below_self(nodes: Seq<NodeState>, i: usize)
    ensures
        below(nodes, i, i),
{
    assert(ancestor(nodes, i, 0) == Some(i));
}

/// A widget `k` steps below another stands at least `k` higher in rank.
proof fn lemma_rank_steps(nodes: Seq<NodeState>, rank: Seq<nat>, outer: usize, inner: usize, k: nat)
    requires
        ranked(nodes, rank),
        inner < nodes.len(),
        ancestor(nodes, inner, k) == Some(outer),
    ensures
        outer < nodes.len(),
        rank[inner as int] >= rank[outer as int] + k,
    decreases k,
{
    if k > 0 {
        let p = nodes[inner as int].parent->0;
        assert(nodes[inner as int].parent is Some);
        lemma_rank_steps(nodes, rank, outer, p, (k - 1) as nat);
    }
}

/// A widget below another does not stand lower in rank.
proof fn lemma_rank_below(nodes: Seq<NodeState>, rank: Seq<nat>, outer: usize, inner: usize)
    requires
        ranked(nodes, rank),
        inner < nodes.len(),
        below(nodes, outer, inner),
    ensures
        outer < nodes.len(),
        rank[inner as int] >= rank[outer as int],
{
    let k = choose|k: nat| ancestor(nodes, inner, k) == Some(outer);
    lemma_rank_steps(nodes, rank, outer, inner, k);
}

/// Removing a child keeps the state well formed and the ranks in order.
proof fn lemma_removed_sound(before: AppState, rank: Seq<nat>, g: Handle, idx: int)
    requires
        before.well_formed(),
        ranked(before.nodes, rank),
        before.nodes.len() <= usize::MAX,
        before.valid(g),
        0 <= idx < before.node(g).children.len(),
    ensures
        before.removed(g, idx).well_formed(),
        ranked(before.removed(g, idx).nodes, rank),
{
    let old_nodes = before.nodes;
    let after = before.removed(g, idx);
    let nodes = after.nodes;
    let c = old_nodes[g.index as int].children[idx];
    let kept = old_nodes[g.index as int].children.remove(idx);
    assert(linked(old_nodes, g.index as int));
    assert(linked(old_nodes, c as int));
    lemma_below_self(old_nodes, c);
    lemma_remove_keeps(old_nodes[g.index as int].children, idx);
    assert(!below(old_nodes, c, g.index)) by {
        if below(old_nodes, c, g.index) {
            lemma_rank_below(old_nodes, rank, c, g.index);
        }
    }
    assert(nodes[g.index as int].children == kept);
    assert forall|i: int| 0 <= i < nodes.len() implies #[trigger] linked(nodes, i) by {
        let iu = i as usize;
        assert(linked(old_nodes, i));
        if let Some(p) = nodes[i].parent {
            assert(old_nodes[i].parent == Some(p));
            assert(i != c);
            assert(linked(old_nodes, p as int));
            if p == g.index {
                assert(old_nodes[p as int].children.contains(iu));
                assert(kept.contains(iu));
            } else {
                assert(nodes[p as int].children == old_nodes[p as int].children);
            }
            if nodes[i].alive {
                assert(old_nodes[p as int].alive);
                if p != g.index && below(old_nodes, c, p) {
                    lemma_below_child(old_nodes, c, iu);
                }
            }
        }
        assert forall|k: int| 0 <= k < nodes[i].children.len() implies (
        #[trigger] nodes[i].children[k]) < nodes.len() && nodes[nodes[i].children[k] as int].parent
            == Some(iu) by {
            let ch = nodes[i].children[k];
            if i == g.index as int {
                assert(old_nodes[i].children.contains(kept[k]));
                let m = choose|m: int|
                    0 <= m < old_nodes[i].children.len() && old_nodes[i].children[m] == ch;
                assert(old_nodes[old_nodes[i].children[m] as int].parent == Some(iu));
                assert(ch != c);
            } else {
                assert(old_nodes[i].children[k] == ch);
                assert(old_nodes[ch as int].parent == Some(iu));
                assert(ch != c);
            }
        }
    }
    assert forall|i: int| 0 <= i < nodes.len() implies ((#[trigger] nodes[i]).parent matches Some(
        p,
    ) ==> p < nodes.len() && rank[p as int] < rank[i]) by {
        if nodes[i].parent is Some {
            assert(old_nodes[i].parent == nodes[i].parent);
        }
    }
    if let Some(cur) = after.current {
        assert(before.current == Some(cur));
        assert(!below(old_nodes, c, cur));
    }
}

/// Clearing a group keeps the state well formed and the ranks in order.
proof fn lemma_cleared_sound(before: AppState, rank: Seq<nat>, g: Handle)
    requires
        before.well_formed(),
        ranked(before.nodes, rank),
        before.nodes.len() <= usize::MAX,
        before.valid(g),
    ensures
        before.cleared(g).well_formed(),
        ranked(before.cleared(g).nodes, rank),
{
    let old_nodes = before.nodes;
    let after = before.cleared(g);
    let nodes = after.nodes;
    let gi = g.index;
    assert(linked(old_nodes, gi as int));
    lemma_below_self(old_nodes, gi);
    assert forall|i: int| 0 <= i < nodes.len() implies #[trigger] linked(nodes, i) by {
        let iu = i as usize;
        assert(linked(old_nodes, i));
        assert(nodes[i] == before.emptied(gi, i));
        if let Some(p) = nodes[i].parent {
            assert(old_nodes[i].parent == Some(p));
            assert(linked(old_nodes, p as int));
            assert(nodes[p as int] == before.emptied(gi, p as int));
            if p == gi {
                lemma_below_child(old_nodes, gi, iu);
                if i == gi as int {
                } else {
                    assert(false);
                }
            }
            if nodes[i].alive && below(old_nodes, gi, p) {
                lemma_below_child(old_nodes, gi, iu);
                if i == gi as int {
                    lemma_rank_below(old_nodes, rank, gi, p);
                }
            }
        }
        assert forall|k: int| 0 <= k < nodes[i].children.len() implies (
        #[trigger] nodes[i].children[k]) < nodes.len() && nodes[nodes[i].children[k] as int].parent
            == Some(iu) by {
            let ch = nodes[i].children[k];
            assert(i != gi);
            assert(old_nodes[i].children[k] == ch);
            assert(old_nodes[ch as int].parent == Some(iu));
            assert(nodes[ch as int] == before.emptied(gi, ch as int));
        }
    }
    assert forall|i: int| 0 <= i < nodes.len() implies ((#[trigger] nodes[i]).parent matches Some(
        p,
    ) ==> p < nodes.len() && rank[p as int] < rank[i]) by {
        assert(nodes[i] == before.emptied(gi, i));
        if nodes[i].parent is Some {
            assert(old_nodes[i].parent == nodes[i].parent);
        }
    }
    if let Some(cur) = after.current {
        assert(before.current == Some(cur));
        assert(nodes[cur as int] == before.emptied(gi, cur as int));
    }
}

/// The ranks after `w` went below `g`: `w` and all below it rise above `g`.
spec fn shifted(nodes: Seq<NodeState>, rank: Seq<nat>, g: usize, w: usize) -> Seq<nat> {
    Seq::new(
        rank.len(),
        |i: int|
            if below(nodes, w, i as usize) {
                rank[i] + rank[g as int] + 1
            } else {
                rank[i]
            },
    )
}

/// Putting a widget into a group that does not stand below it keeps the
/// state well formed, and the shifted ranks are in order.
proof fn lemma_inserted_sound(before: AppState, rank: Seq<nat>, g: Handle, w: Handle, index: int)
    requires
        before.well_formed(),
        ranked(before.nodes, rank),
        before.nodes.len() <= usize::MAX,
        before.valid(g),
        before.node(g).kind.is_group(),
        before.valid(w),
        !before.contains(w, g),
        0 <= index,
    ensures
        before.inserted(g, w, index).well_formed(),
        ranked(before.inserted(g, w, index).nodes, shifted(before.nodes, rank, g.index, w.index)),
{
    let old_nodes = before.nodes;
    let after = before.inserted(g, w, index);
    let nodes = after.nodes;
    let gi = g.index;
    let wi = w.index;
    let from = old_nodes[wi as int].parent;
    let at = before.landing(g, w, index);
    let new_rank = shifted(old_nodes, rank, gi, wi);
    lemma_below_self(old_nodes, gi);
    lemma_below_self(old_nodes, wi);
    assert(gi != wi);
    assert(linked(old_nodes, gi as int));
    assert(linked(old_nodes, wi as int));
    // the list that `w` leaves
    if let Some(p) = from {
        assert(linked(old_nodes, p as int));
        let s = old_nodes[p as int].children;
        let n = s.index_of(wi);
        assert(s.contains(wi));
        assert(0 <= n < s.len() && s[n] == wi);
        lemma_remove_keeps(s, n);
    }
    let left = if from == Some(gi) {
        old_nodes[gi as int].children.remove(old_nodes[gi as int].children.index_of(wi))
    } else {
        old_nodes[gi as int].children
    };
    assert(!left.contains(wi)) by {
        if from != Some(gi) && left.contains(wi) {
            let m = choose|m: int| 0 <= m < left.len() && left[m] == wi;
            assert(old_nodes[left[m] as int].parent == Some(gi));
        }
    }
    assert(0 <= at <= left.len());
    assert(left.no_duplicates());
    lemma_insert_keeps(left, at, wi);
    assert(nodes[gi as int] == before.rehomed(g, w, index, gi as int));
    assert(nodes[gi as int].children == left.insert(at, wi));
    assert forall|i: int| 0 <= i < nodes.len() implies #[trigger] linked(nodes, i) by {
        let iu = i as usize;
        assert(linked(old_nodes, i));
        assert(nodes[i] == before.rehomed(g, w, index, i));
        if let Some(p) = nodes[i].parent {
            assert(nodes[p as int] == before.rehomed(g, w, index, p as int));
            if i == wi as int {
                assert(p == gi);
                assert(nodes[p as int].children[at] == wi);
            } else {
                assert(old_nodes[i].parent == Some(p));
                assert(linked(old_nodes, p as int));
                assert(old_nodes[p as int].children.contains(iu));
                if p == gi {
                    assert(left.contains(iu));
                } else if from == Some(p) {
                } else {
                }
            }
        }
        assert forall|k: int| 0 <= k < nodes[i].children.len() implies (
        #[trigger] nodes[i].children[k]) < nodes.len() && nodes[nodes[i].children[k] as int].parent
            == Some(iu) by {
            let ch = nodes[i].children[k];
            if i == gi as int {
                if ch != wi {
                    assert(left.contains(ch));
                    assert(old_nodes[gi as int].children.contains(ch));
                    let m = choose|m: int|
                        0 <= m < old_nodes[gi as int].children.len() && old_nodes[gi as int].children[m]
                            == ch;
                    assert(old_nodes[old_nodes[gi as int].children[m] as int].parent == Some(gi));
                    assert(nodes[ch as int] == before.rehomed(g, w, index, ch as int));
                } else {
                    assert(nodes[ch as int] == before.rehomed(g, w, index, ch as int));
                }
            } else if from == Some(iu) {
                let s = old_nodes[i].children;
                assert(s.contains(nodes[i].children[k]));
                let m = choose|m: int| 0 <= m < s.len() && s[m] == ch;
                assert(old_nodes[s[m] as int].parent == Some(iu));
                assert(ch != wi);
                assert(nodes[ch as int] == before.rehomed(g, w, index, ch as int));
            } else {
                assert(old_nodes[i].children[k] == ch);
                assert(old_nodes[ch as int].parent == Some(iu));
                assert(ch != wi);
                assert(nodes[ch as int] == before.rehomed(g, w, index, ch as int));
            }
        }
    }
    assert forall|i: int| 0 <= i < nodes.len() implies ((#[trigger] nodes[i]).parent matches Some(
        p,
    ) ==> p < nodes.len() && new_rank[p as int] < new_rank[i]) by {
        let iu = i as usize;
        assert(nodes[i] == before.rehomed(g, w, index, i));
        assert(linked(old_nodes, i));
        if let Some(p) = nodes[i].parent {
            if i == wi as int {
            } else {
                assert(old_nodes[i].parent == Some(p));
                if below(old_nodes, wi, iu) {
                    lemma_below_parent(old_nodes, wi, iu);
                } else if below(old_nodes, wi, p) {
                    lemma_below_child(old_nodes, wi, iu);
                }
            }
        }
    }
}

impl View for App {
    type V = AppState;

    closed spec fn view(&self) -> AppState {
        AppState {
            phase: self.phase,
            scheme: self.scheme,
            locked: self.locked,
            screen_width: self.screen_width,
            screen_height: self.screen_height,
            current: self.current,
            drawing: self.drawing,
            clipboard: self.clipboard@,
            resources: texts_view(self.resources@),
            nodes: nodes_view(self.nodes@),
            props: props_view(self.props@),
        }
    }
}

impl App {
    /// The invariant of the display context: its state is well formed and no
    /// widget stands below itself.
    pub closed spec fn inv(&self) -> bool {
        &&& self@.well_formed()
        &&& ranked(nodes_view(self.nodes@), self.rank@)
    }

    /// The display context is sound and set up: widget operations are valid.
    pub open spec fn ready(&self) -> bool {
        self.inv() && self@.phase != Phase::Uninitialized
    }

    /// What the invariant says of the state.
    pub proof fn inv_well_formed(&self)
        requires
            self.inv(),
        ensures
            self@.well_formed(),
            self@.nodes.len() <= usize::MAX,
    {
        assert(self@.nodes.len() == self.nodes.len());
    }

    /// What the invariant says of the tree: no widget stands above itself,
    /// however many steps up.
    pub proof fn inv_acyclic(&self, h: Handle, k: nat)
        requires
            self.inv(),
            h.index < self@.nodes.len(),
            k >= 1,
        ensures
            ancestor(self@.nodes, h.index, k) != Some(h.index),
    {
        if ancestor(self@.nodes, h.index, k) == Some(h.index) {
            lemma_rank_steps(self@.nodes, self.rank@, h.index, h.index, k);
        }
    }

    /// A display context that has not been set up and holds no widget.
    pub fn new() -> (app: App)
        ensures
            app.inv(),
            app@ == (AppState {
                phase: Phase::Uninitialized,
                scheme: Scheme::Base,
                locked: false,
                screen_width: 0,
                screen_height: 0,
                current: None,
                drawing: None,
                clipboard: Seq::empty(),
                resources: Seq::empty(),
                nodes: Seq::empty(),
                props: Seq::empty(),
            }),
    {
        let app = App {
            phase: Phase::Uninitialized,
            scheme: Scheme::Base,
            locked: false,
            screen_width: 0,
            screen_height: 0,
            current: None,
            drawing: None,
            clipboard: String::new(),
            resources: Vec::new(),
            nodes: Vec::new(),
            props: Vec::new(),
            rank: Ghost(Seq::empty()),
        };
        assert(app@.resources =~= Seq::empty());
        assert(app@.nodes =~= Seq::empty());
        assert(app@.props =~= Seq::empty());
        app
    }

    /// Sets the display context up. Setting it up again changes nothing.
    pub fn init(&mut self)
        requires
            old(self).inv(),
        ensures
            final(self).ready(),
            final(self)@ == (AppState {
                phase: if old(self)@.phase == Phase::Uninitialized {
                    Phase::Ready
                } else {
                    old(self)@.phase
                },
                ..old(self)@
            }),
    {
        if self.phase == Phase::Uninitialized {
            self.phase = Phase::Ready;
        }
    }

    /// A display context that is set up and holds no widget.
    pub fn default() -> (app: App)
        ensures
            app.ready(),
            app@ == (AppState {
                phase: Phase::Ready,
                scheme: Scheme::Base,
                locked: false,
                screen_width: 0,
                screen_height: 0,
                current: None,
                drawing: None,
                clipboard: Seq::empty(),
                resources: Seq::empty(),
                nodes: Seq::empty(),
                props: Seq::empty(),
            }),
    {
        let mut app = App::new();
        app.init();
        app
    }

    /// Enters the event loop. The loop can be entered once, and only after the
    /// display context was set up; otherwise the state stays as it is.
    pub fn run(&mut self) -> (r: Result<(), FltkError>)
        requires
            old(self).inv(),
        ensures
            final(self).inv(),
            old(self)@.phase == Phase::Ready ==> r is Ok && final(self)@ == (AppState {
                phase: Phase::Running,
                ..old(self)@
            }),
            old(self)@.phase != Phase::Ready ==> r == Err::<(), FltkError>(
                FltkError::Internal(FltkErrorKind::FailedToRun),
            ) && final(self)@ == old(self)@,
    {
        if self.phase == Phase::Ready {
            self.phase = Phase::Running;
            Ok(())
        } else {
            Err(FltkError::Internal(FltkErrorKind::FailedToRun))
        }
    }

    /// How far the toolkit has come in its life.
    pub fn phase(&self) -> (p: Phase)
        ensures
            p == self@.phase,
    {
        self.phase
    }

    /// The properties of the widget that `h` names.
    pub fn props(&self, h: Handle) -> (r: &Props)
        requires
            self.inv(),
            h.index < self@.nodes.len(),
        ensures
            r@ == self@.widget(h),
    {
        &self.props[h.index]
    }

    /// The properties of the widget that `h` names, to be changed in place.
    /// Nothing but these properties changes.
    pub fn props_mut(&mut self, h: Handle) -> (r: &mut Props)
        requires
            old(self).inv(),
            h.index < old(self)@.nodes.len(),
        ensures
            r@ == old(self)@.widget(h),
            final(self).inv(),
            final(self)@ =~= old(self)@.with_props(h, final(r)@),
    {
        &mut self.props[h.index]
    }

    /// How many widgets were ever made: the handles below this number name a
    /// record, valid or not.
    pub fn widget_count(&self) -> (n: usize)
        ensures
            n == self@.nodes.len(),
    {
        self.nodes.len()
    }

    /// The kind of the widget that `h` names.
    pub fn kind(&self, h: Handle) -> (k: WidgetKind)
        requires
            self.inv(),
            h.index < self@.nodes.len(),
        ensures
            k == self@.node(h).kind,
    {
        self.nodes[h.index].kind
    }

    /// Whether `h` names a widget that has not been removed.
    pub fn is_valid(&self, h: Handle) -> (b: bool)
        requires
            self.inv(),
        ensures
            b == self@.valid(h),
    {
        h.index < self.nodes.len() && self.nodes[h.index].alive
    }

    /// Makes a widget: see `AppState::created`.
    pub fn create(
        &mut self,
        kind: WidgetKind,
        x: i32,
        y: i32,
        width: i32,
        height: i32,
        title: &str,
    ) -> (h: Handle)
        requires
            old(self).ready(),
            !contains_nul(title@),
        ensures
            final(self).ready(),
            h.index == old(self)@.nodes.len(),
            final(self)@.valid(h),
            final(self)@ == old(self)@.created(kind, x, y, width, height, title@),
            final(self)@.widget(h) == PropsState::initial(kind, x, y, width, height, title@),
            forall|o: Handle| old(self)@.valid(o) ==> final(self)@.valid(o),
    {
        let n = self.nodes.len();
        let parent = self.current;
        let ghost before = self@;
        let ghost old_nodes = nodes_view(self.nodes@);
        let ghost old_rank = self.rank@;
        self.nodes.push(Node { kind, alive: true, parent, children: Vec::new(), resizable: None });
        self.props.push(Props::new(kind, x, y, width, height, title));
        match parent {
            Some(g) => {
                self.nodes[g].children.push(n);
            },
            None => {},
        }
        if kind.holds_children() {
            self.current = Some(n);
        }
        proof {
            self.rank@ = old_rank.push(
                match parent {
                    Some(g) => old_rank[g as int] + 1,
                    None => 0,
                },
            );
            let after = before.created(kind, x, y, width, height, title@);
            let nodes = nodes_view(self.nodes@);
            assert(nodes =~= after.nodes);
            assert(self@.props =~= after.props);
            assert(self@.resources =~= after.resources);
            assert(self@ =~= after);
            assert forall|i: int| 0 <= i < nodes.len() implies #[trigger] linked(nodes, i) by {
                if i < n {
                    assert(linked(old_nodes, i));
                    if let Some(p) = nodes[i].parent {
                        let k = choose|k: int|
                            0 <= k < old_nodes[p as int].children.len()
                                && old_nodes[p as int].children[k] == i as usize;
                        assert(nodes[p as int].children[k] == i as usize);
                    }
                    if parent == Some(i as usize) {
                        assert forall|a: int, b: int|
                            0 <= a < nodes[i].children.len() && 0 <= b < nodes[i].children.len()
                                && a != b implies nodes[i].children[a] != nodes[i].children[b] by {
                            if a < old_nodes[i].children.len() {
                                assert(old_nodes[i].children[a] < n);
                            }
                            if b < old_nodes[i].children.len() {
                                assert(old_nodes[i].children[b] < n);
                            }
                        }
                    }
                } else {
                    if let Some(g) = parent {
                        assert(nodes[g as int].children[nodes[g as int].children.len() - 1] == n);
                    }
                }
            }
            assert forall|i: int| 0 <= i < nodes.len() implies ((#[trigger] nodes[i]).parent matches Some(
                p,
            ) ==> p < nodes.len() && self.rank@[p as int] < self.rank@[i]) by {
                if i < n {
                    assert(old_nodes[i].parent == nodes[i].parent);
                }
            }
        }
        Handle { index: n }
    }

    /// The group that receives the widgets made next.
    pub fn current(&self) -> (r: Option<Handle>)
        requires
            self.inv(),
        ensures
            r matches Some(g) ==> self@.current == Some(g.index) && self@.valid(g),
            r is None ==> self@.current is None,
    {
        match self.current {
            Some(g) => Some(Handle { index: g }),
            None => None,
        }
    }

    /// Makes `g` the current group: widgets made from now on become its
    /// children.
    pub fn begin(&mut self, g: Handle)
        requires
            old(self).ready(),
            old(self)@.valid(g),
            old(self)@.node(g).kind.is_group(),
        ensures
            final(self).ready(),
            final(self)@ == old(self)@.begun(g),
    {
        self.current = Some(g.index);
    }

    /// Closes the group `g`: the group that holds `g` becomes current.
    pub fn end(&mut self, g: Handle)
        requires
            old(self).ready(),
            old(self)@.valid(g),
        ensures
            final(self).ready(),
            final(self)@ == old(self)@.ended(g),
    {
        proof {
            assert(linked(self@.nodes, g.index as int));
        }
        self.current = self.nodes[g.index].parent;
    }

    /// The group that holds `h`.
    pub fn parent(&self, h: Handle) -> (r: Option<Handle>)
        requires
            self.ready(),
            self@.valid(h),
        ensures
            r matches Some(p) ==> self@.node(h).parent == Some(p.index) && self@.valid(p),
            r is None ==> self@.node(h).parent is None,
    {
        proof {
            assert(linked(self@.nodes, h.index as int));
        }
        match self.nodes[h.index].parent {
            Some(p) => Some(Handle { index: p }),
            None => None,
        }
    }

    /// How many children `g` holds.
    pub fn child_count(&self, g: Handle) -> (n: usize)
        requires
            self.ready(),
            self@.valid(g),
        ensures
            n == self@.node(g).children.len(),
    {
        self.nodes[g.index].children.len()
    }

    /// The child of `g` at `idx`, if `g` holds that many.
    pub fn child(&self, g: Handle, idx: usize) -> (r: Option<Handle>)
        requires
            self.ready(),
            self@.valid(g),
        ensures
            idx < self@.node(g).children.len() ==> r == Some(
                Handle { index: self@.node(g).children[idx as int] },
            ),
            idx >= self@.node(g).children.len() ==> r is None,
    {
        if idx < self.nodes[g.index].children.len() {
            Some(Handle { index: self.nodes[g.index].children[idx] })
        } else {
            None
        }
    }

    /// The place of `w` among the children of `g`, or their number where `w`
    /// is not one of them.
    pub fn find(&self, g: Handle, w: Handle) -> (r: usize)
        requires
            self.ready(),
            self@.valid(g),
        ensures
            r <= self@.node(g).children.len(),
            r < self@.node(g).children.len() ==> self@.node(g).children[r as int] == w.index,
            r == self@.node(g).children.len() ==> !self@.node(g).children.contains(w.index),
    {
        let n = self.nodes[g.index].children.len();
        let mut i: usize = 0;
        while i < n
            invariant
                g.index < self.nodes@.len(),
                n == self.nodes@[g.index as int].children@.len(),
                i <= n,
                forall|j: int| 0 <= j < i ==> self.nodes@[g.index as int].children@[j] != w.index,
            decreases n - i,
        {
            if self.nodes[g.index].children[i] == w.index {
                return i;
            }
            i += 1;
        }
        i
    }

    /// Names `w` as the child of `g` that takes up extra space when `g` is
    /// resized.
    pub fn set_resizable(&mut self, g: Handle, w: Handle)
        requires
            old(self).ready(),
            old(self)@.valid(g),
            old(self)@.valid(w),
        ensures
            final(self).ready(),
            final(self)@ == old(self)@.with_resizable(g, w),
    {
        let ghost old_nodes = nodes_view(self.nodes@);
        self.nodes[g.index].resizable = Some(w.index);
        proof {
            let nodes = nodes_view(self.nodes@);
            assert(nodes =~= old(self)@.with_resizable(g, w).nodes);
            assert(self@ =~= old(self)@.with_resizable(g, w));
            assert forall|i: int| 0 <= i < nodes.len() implies #[trigger] linked(nodes, i) by {
                assert(linked(old_nodes, i));
            }
            assert forall|i: int| 0 <= i < nodes.len() implies ((#[trigger] nodes[i]).parent matches Some(
                p,
            ) ==> p < nodes.len() && self.rank@[p as int] < self.rank@[i]) by {
                assert(old_nodes[i].parent == nodes[i].parent);
            }
        }
    }

    /// Whether `inner` is `outer` or stands somewhere below it. Needs only
    /// that no widget stands below itself.
    fn walk_inside(&self, outer: usize, inner: usize) -> (b: bool)
        requires
            ranked(nodes_view(self.nodes@), self.rank@),
            inner < self.nodes@.len(),
        ensures
            b == below(nodes_view(self.nodes@), outer, inner),
    {
        let ghost nodes = nodes_view(self.nodes@);
        let mut cur = inner;
        let ghost mut steps: nat = 0;
        loop
            invariant
                nodes == nodes_view(self.nodes@),
                ranked(nodes, self.rank@),
                cur < nodes.len(),
                ancestor(nodes, inner, steps) == Some(cur),
                forall|k: nat| k < steps ==> ancestor(nodes, inner, k) != Some(outer),
            decreases self.rank@[cur as int],
        {
            if cur == outer {
                return true;
            }
            proof {
                lemma_ancestor_step(nodes, inner, steps);
                assert(nodes[cur as int].parent == self.nodes@[cur as int].parent);
            }
            match self.nodes[cur].parent {
                None => {
                    proof {
                        assert forall|k: nat| ancestor(nodes, inner, k) != Some(outer) by {
                            if k > steps {
                                lemma_ancestor_ends(nodes, inner, steps + 1, k);
                            }
                        }
                    }
                    return false;
                },
                Some(p) => {
                    cur = p;
                    proof {
                        steps = steps + 1;
                    }
                },
            }
        }
    }

    /// Whether `h` is `w` or stands somewhere below it.
    pub fn inside(&self, h: Handle, w: Handle) -> (b: bool)
        requires
            self.ready(),
            self@.valid(h),
        ensures
            b == self@.contains(w, h),
    {
        self.walk_inside(w.index, h.index)
    }

    /// The nearest window above `h`.
    pub fn window(&self, h: Handle) -> (r: Option<Handle>)
        requires
            self.ready(),
            self@.valid(h),
        ensures
            r matches Some(win) ==> self@.valid(win) && exists|k: nat| self@.window_at(h, win, k),
            r is None ==> self@.windowless(h),
    {
        let ghost nodes = nodes_view(self.nodes@);
        let mut cur = h.index;
        let ghost mut steps: nat = 0;
        loop
            invariant
                self.inv(),
                nodes == nodes_view(self.nodes@),
                nodes == self@.nodes,
                cur < nodes.len(),
                nodes[cur as int].alive,
                ancestor(nodes, h.index, steps) == Some(cur),
                forall|j: nat|
                    1 <= j <= steps ==> (#[trigger] ancestor(nodes, h.index, j) matches Some(a)
                        ==> !nodes[a as int].kind.is_window()),
            decreases self.rank@[cur as int],
        {
            proof {
                lemma_ancestor_step(nodes, h.index, steps);
                assert(nodes[cur as int].parent == self.nodes@[cur as int].parent);
                assert(linked(nodes, cur as int));
            }
            match self.nodes[cur].parent {
                None => {
                    proof {
                        assert forall|k: nat| k >= 1 implies (#[trigger] ancestor(
                            nodes,
                            h.index,
                            k,
                        ) matches Some(a) ==> !nodes[a as int].kind.is_window()) by {
                            if k > steps {
                                lemma_ancestor_ends(nodes, h.index, steps + 1, k);
                            }
                        }
                    }
                    return None;
                },
                Some(p) => {
                    proof {
                        assert(nodes[p as int].kind == self.nodes@[p as int].kind);
                    }
                    if self.nodes[p].kind.opens_window() {
                        proof {
                            assert(self@.window_at(h, Handle { index: p }, steps + 1));
                        }
                        return Some(Handle { index: p });
                    }
                    cur = p;
                    proof {
                        steps = steps + 1;
                    }
                },
            }
        }
    }

    /// The top of the tree that `h` stands in.
    pub fn root(&self, h: Handle) -> (top: Handle)
        requires
            self.ready(),
            self@.valid(h),
        ensures
            self@.valid(top),
            self@.root_of(h, top),
    {
        let ghost nodes = nodes_view(self.nodes@);
        let mut cur = h.index;
        let ghost mut steps: nat = 0;
        loop
            invariant
                self.inv(),
                nodes == nodes_view(self.nodes@),
                nodes == self@.nodes,
                cur < nodes.len(),
                nodes[cur as int].alive,
                ancestor(nodes, h.index, steps) == Some(cur),
            decreases self.rank@[cur as int],
        {
            proof {
                lemma_ancestor_step(nodes, h.index, steps);
                assert(nodes[cur as int].parent == self.nodes@[cur as int].parent);
                assert(linked(nodes, cur as int));
            }
            match self.nodes[cur].parent {
                None => {
                    return Handle { index: cur };
                },
                Some(p) => {
                    cur = p;
                    proof {
                        steps = steps + 1;
                    }
                },
            }
        }
    }

    /// Marks dead every widget but `keep` that is `root` or stands below it.
    /// Touches nothing else.
    fn bury(&mut self, root: usize, keep: usize)
        requires
            ranked(nodes_view(old(self).nodes@), old(self).rank@),
            old(self).props@.len() == old(self).nodes@.len(),
        ensures
            final(self).rank@ == old(self).rank@,
            final(self).props@ == old(self).props@,
            final(self).phase == old(self).phase,
            final(self).scheme == old(self).scheme,
            final(self).locked == old(self).locked,
            final(self).screen_width == old(self).screen_width,
            final(self).screen_height == old(self).screen_height,
            final(self).current == old(self).current,
            final(self).drawing == old(self).drawing,
            final(self).clipboard == old(self).clipboard,
            final(self).resources == old(self).resources,
            final(self).nodes@.len() == old(self).nodes@.len(),
            forall|i: int|
                0 <= i < old(self).nodes@.len() ==> #[trigger] nodes_view(final(self).nodes@)[i] == (
                if i != keep && below(nodes_view(old(self).nodes@), root, i as usize) {
                    NodeState { alive: false, ..nodes_view(old(self).nodes@)[i] }
                } else {
                    nodes_view(old(self).nodes@)[i]
                }),
    {
        let ghost before = nodes_view(self.nodes@);
        let n = self.nodes.len();
        let mut i: usize = 0;
        while i < n
            invariant
                n == self.nodes@.len(),
                n == before.len(),
                i <= n,
                self.rank@ == old(self).rank@,
                self.props@ == old(self).props@,
                self.phase == old(self).phase,
                self.scheme == old(self).scheme,
                self.locked == old(self).locked,
                self.screen_width == old(self).screen_width,
                self.screen_height == old(self).screen_height,
                self.current == old(self).current,
                self.drawing == old(self).drawing,
                self.clipboard == old(self).clipboard,
                self.resources == old(self).resources,
                ranked(before, self.rank@),
                ranked(nodes_view(self.nodes@), self.rank@),
                forall|j: int|
                    0 <= j < n ==> #[trigger] nodes_view(self.nodes@)[j] == (if j < i && j != keep
                        && below(before, root, j as usize) {
                        NodeState { alive: false, ..before[j] }
                    } else {
                        before[j]
                    }),
            decreases n - i,
        {
            let ghost now = nodes_view(self.nodes@);
            let doomed = self.walk_inside(root, i);
            proof {
                assert forall|k: nat| ancestor(now, i, k) == ancestor(before, i, k) by {
                    assert forall|j: int| 0 <= j < now.len() implies now[j].parent
                        == before[j].parent by {
                        assert(now[j] == nodes_view(self.nodes@)[j]);
                    }
                    lemma_ancestor_same_parents(now, before, i, k);
                }
            }
            if i != keep && doomed {
                self.nodes[i].alive = false;
                proof {
                    let next = nodes_view(self.nodes@);
                    assert forall|j: int| 0 <= j < n implies #[trigger] next[j] == (if j < i + 1
                        && j != keep && below(before, root, j as usize) {
                        NodeState { alive: false, ..before[j] }
                    } else {
                        before[j]
                    }) by {
                        if j != i {
                            assert(next[j] == now[j]);
                        }
                    }
                    assert forall|j: int| 0 <= j < next.len() implies ((#[trigger] next[j]).parent matches Some(
                        p,
                    ) ==> p < next.len() && self.rank@[p as int] < self.rank@[j]) by {
                        assert(before[j].parent == next[j].parent);
                    }
                }
            }
            i += 1;
        }
    }

    /// Removes the child of `g` at `idx` and destroys it with all that stands
    /// below it: see `AppState::removed`.
    pub fn remove(&mut self, g: Handle, idx: usize)
        requires
            old(self).ready(),
            old(self)@.valid(g),
        ensures
            final(self).ready(),
            final(self)@ == old(self)@.removed(g, idx as int),
    {
        if idx >= self.nodes[g.index].children.len() {
            return ;
        }
        let ghost before = self@;
        let ghost old_nodes = nodes_view(self.nodes@);
        let c = self.nodes[g.index].children[idx];
        proof {
            assert(linked(old_nodes, g.index as int));
            assert(old_nodes[g.index as int].children[idx as int] == c);
            assert(linked(old_nodes, c as int));
        }
        let drop_current = match self.current {
            Some(cur) => self.walk_inside(c, cur),
            None => false,
        };
        self.bury(c, g.index);
        let ghost mid = nodes_view(self.nodes@);
        proof {
            assert(mid[g.index as int] == old_nodes[g.index as int]);
        }
        self.nodes[c].parent = None;
        let ghost s1 = nodes_view(self.nodes@);
        proof {
            assert(s1 =~= mid.update(c as int, NodeState { parent: None, ..mid[c as int] }));
            assert(s1[g.index as int] == old_nodes[g.index as int]);
        }
        self.nodes[g.index].children.remove(idx);
        let ghost s2 = nodes_view(self.nodes@);
        proof {
            assert(s2 =~= s1.update(
                g.index as int,
                NodeState {
                    children: old_nodes[g.index as int].children.remove(idx as int),
                    ..s1[g.index as int]
                },
            ));
        }
        let was_resizable = match self.nodes[g.index].resizable {
            Some(r) => r == c,
            None => false,
        };
        if was_resizable {
            self.nodes[g.index].resizable = None;
        }
        if drop_current {
            self.current = None;
        }
        proof {
            let after = before.removed(g, idx as int);
            let nodes = nodes_view(self.nodes@);
            let rank = self.rank@;
            lemma_below_self(old_nodes, c);
            assert(nodes =~= s2.update(
                g.index as int,
                NodeState {
                    resizable: if old_nodes[g.index as int].resizable == Some(c) {
                        None
                    } else {
                        old_nodes[g.index as int].resizable
                    },
                    ..s2[g.index as int]
                },
            ));
            assert forall|i: int| 0 <= i < nodes.len() implies nodes[i] == after.nodes[i] by {
                if i == c as int {
                    assert(below(old_nodes, c, i as usize));
                } else if i != g.index as int {
                    assert(nodes[i] == mid[i]);
                }
            }
            assert(nodes =~= after.nodes);
            assert(self@ =~= after);
            assert(nodes.len() == self.nodes.len());
            lemma_removed_sound(before, rank, g, idx as int);
        }
    }

    /// Removes all children of `g` and destroys them with all that stands
    /// below them: see `AppState::cleared`.
    pub fn clear(&mut self, g: Handle)
        requires
            old(self).ready(),
            old(self)@.valid(g),
        ensures
            final(self).ready(),
            final(self)@ == old(self)@.cleared(g),
    {
        let ghost before = self@;
        let ghost old_nodes = nodes_view(self.nodes@);
        let ghost kids = old_nodes[g.index as int].children;
        proof {
            assert(linked(old_nodes, g.index as int));
        }
        let drop_current = match self.current {
            Some(cur) => cur != g.index && self.walk_inside(g.index, cur),
            None => false,
        };
        self.bury(g.index, g.index);
        let ghost mid = nodes_view(self.nodes@);
        proof {
            assert(mid[g.index as int] == old_nodes[g.index as int]);
        }
        let n = self.nodes[g.index].children.len();
        let mut k: usize = 0;
        while k < n
            invariant
                k <= n,
                n == kids.len(),
                g.index < self.nodes@.len(),
                self.nodes@.len() == mid.len(),
                mid.len() == old_nodes.len(),
                self.props@ == old(self).props@,
                self.rank@ == old(self).rank@,
                self.phase == old(self).phase,
                self.scheme == old(self).scheme,
                self.locked == old(self).locked,
                self.screen_width == old(self).screen_width,
                self.screen_height == old(self).screen_height,
                self.current == old(self).current,
                self.drawing == old(self).drawing,
                self.clipboard == old(self).clipboard,
                self.resources == old(self).resources,
                nodes_view(self.nodes@)[g.index as int] == old_nodes[g.index as int],
                kids == old_nodes[g.index as int].children,
                kids.no_duplicates(),
                forall|j: int|
                    0 <= j < kids.len() ==> (#[trigger] kids[j]) < mid.len() && kids[j] != g.index
                        && old_nodes[kids[j] as int].parent == Some(g.index),
                forall|i: int|
                    0 <= i < mid.len() ==> #[trigger] nodes_view(self.nodes@)[i] == (if exists|j: int|
                        0 <= j < k && kids[j] == i {
                        NodeState { parent: None, ..mid[i] }
                    } else {
                        mid[i]
                    }),
            decreases n - k,
        {
            let ghost now = nodes_view(self.nodes@);
            proof {
                assert(now[g.index as int].children == kids);
            }
            let c = self.nodes[g.index].children[k];
            proof {
                assert(c == kids[k as int]);
            }
            self.nodes[c].parent = None;
            proof {
                let next = nodes_view(self.nodes@);
                assert(next =~= now.update(c as int, NodeState { parent: None, ..now[c as int] }));
                assert forall|i: int| 0 <= i < mid.len() implies #[trigger] next[i] == (if exists|j: int|
                    0 <= j < k + 1 && kids[j] == i {
                    NodeState { parent: None, ..mid[i] }
                } else {
                    mid[i]
                }) by {
                    if i == c as int {
                        assert(kids[k as int] == i);
                    } else {
                        if exists|j: int| 0 <= j < k + 1 && kids[j] == i {
                            let j = choose|j: int| 0 <= j < k + 1 && kids[j] == i;
                            assert(j < k);
                        }
                    }
                }
            }
            k += 1;
        }
        let ghost s1 = nodes_view(self.nodes@);
        self.nodes[g.index].children.clear();
        self.nodes[g.index].resizable = None;
        if drop_current {
            self.current = None;
        }
        proof {
            let after = before.cleared(g);
            let nodes = nodes_view(self.nodes@);
            lemma_below_self(old_nodes, g.index);
            assert(nodes =~= s1.update(
                g.index as int,
                NodeState { children: Seq::empty(), resizable: None, ..s1[g.index as int] },
            ));
            assert(nodes.len() == self.nodes.len());
            assert forall|i: int| 0 <= i < nodes.len() implies nodes[i] == after.nodes[i] by {
                let iu = i as usize;
                assert(linked(old_nodes, i));
                if i != g.index as int {
                    if old_nodes[i].parent == Some(g.index) {
                        assert(kids.contains(iu));
                        let j = choose|j: int| 0 <= j < kids.len() && kids[j] == iu;
                        assert(kids[j] == i);
                        lemma_below_child(old_nodes, g.index, iu);
                    } else {
                        if exists|j: int| 0 <= j < k && kids[j] == i {
                            let j = choose|j: int| 0 <= j < k && kids[j] == i;
                            assert(old_nodes[kids[j] as int].parent == Some(g.index));
                        }
                    }
                }
            }
            assert(nodes =~= after.nodes);
            assert(self@ =~= after);
            lemma_cleared_sound(before, self.rank@, g);
        }
    }

    /// Puts `w` among the children of `g` at `index`: see
    /// `AppState::inserted`. A group cannot be put below itself.
    pub fn insert(&mut self, g: Handle, w: Handle, index: usize)
        requires
            old(self).ready(),
            old(self)@.valid(g),
            old(self)@.node(g).kind.is_group(),
            old(self)@.valid(w),
            !old(self)@.contains(w, g),
        ensures
            final(self).ready(),
            final(self)@ == old(self)@.inserted(g, w, index as int),
    {
        let ghost before = self@;
        let ghost old_nodes = nodes_view(self.nodes@);
        let ghost old_rank = self.rank@;
        proof {
            assert(linked(old_nodes, g.index as int));
            assert(linked(old_nodes, w.index as int));
            lemma_below_self(old_nodes, g.index);
        }
        let here = self.nodes[g.index].children.len();
        let lim = if index < here {
            index
        } else {
            here
        };
        let from = self.nodes[w.index].parent;
        let mut at = lim;
        match from {
            Some(p) => {
                proof {
                    assert(linked(old_nodes, p as int));
                }
                let n = self.find(Handle { index: p }, w);
                proof {
                    let s = old_nodes[p as int].children;
                    assert(s.contains(w.index));
                    assert(n < s.len());
                    assert(s.index_of(w.index) == n);
                }
                if p == g.index && lim > n {
                    at = lim - 1;
                }
                self.nodes[p].children.remove(n);
                let ghost s0 = nodes_view(self.nodes@);
                proof {
                    assert(s0 =~= old_nodes.update(
                        p as int,
                        NodeState {
                            children: old_nodes[p as int].children.remove(n as int),
                            ..old_nodes[p as int]
                        },
                    ));
                }
                if p != g.index {
                    let was_resizable = match self.nodes[p].resizable {
                        Some(r) => r == w.index,
                        None => false,
                    };
                    if was_resizable {
                        self.nodes[p].resizable = None;
                        proof {
                            assert(nodes_view(self.nodes@) =~= s0.update(
                                p as int,
                                NodeState { resizable: None, ..s0[p as int] },
                            ));
                        }
                    }
                }
            },
            None => {},
        }
        let ghost s1 = nodes_view(self.nodes@);
        proof {
            assert(s1.len() == self.nodes.len());
            assert(at == before.landing(g, w, index as int));
            assert forall|i: int| 0 <= i < s1.len() implies #[trigger] s1[i] == (if from == Some(
                i as usize,
            ) {
                NodeState {
                    children: old_nodes[i].children.remove(old_nodes[i].children.index_of(w.index)),
                    resizable: if i != g.index && old_nodes[i].resizable == Some(w.index) {
                        None
                    } else {
                        old_nodes[i].resizable
                    },
                    ..old_nodes[i]
                }
            } else {
                old_nodes[i]
            }) by {}
        }
        self.nodes[w.index].parent = Some(g.index);
        self.nodes[g.index].children.insert(at, w.index);
        proof {
            let after = before.inserted(g, w, index as int);
            let nodes = nodes_view(self.nodes@);
            assert(nodes.len() == self.nodes.len());
            assert forall|i: int| 0 <= i < nodes.len() implies nodes[i] == after.nodes[i] by {
                assert(after.nodes[i] == before.rehomed(g, w, index as int, i));
            }
            assert(nodes =~= after.nodes);
            assert(self@ =~= after);
            lemma_inserted_sound(before, old_rank, g, w, index as int);
            self.rank@ = shifted(old_nodes, old_rank, g.index, w.index);
        }
    }

    /// Puts `w` behind the last child of `g`: see `AppState::inserted`.
    pub fn add(&mut self, g: Handle, w: Handle)
        requires
            old(self).ready(),
            old(self)@.valid(g),
            old(self)@.node(g).kind.is_group(),
            old(self)@.valid(w),
            !old(self)@.contains(w, g),
        ensures
            final(self).ready(),
            final(self)@ == old(self)@.inserted(g, w, old(self)@.node(g).children.len() as int),
    {
        let n = self.nodes[g.index].children.len();
        self.insert(g, w, n);
    }

    /// Records what the toolkit answered when it was asked to become safe for
    /// use from several threads: zero stands for success, anything else for
    /// failure, which leaves the state as it is.
    pub fn lock(&mut self, status: i32) -> (r: Result<(), FltkError>)
        requires
            old(self).inv(),
        ensures
            final(self).inv(),
            status == 0 ==> r is Ok && final(self)@ == (AppState { locked: true, ..old(self)@ }),
            status != 0 ==> r == Err::<(), FltkError>(
                FltkError::Internal(FltkErrorKind::FailedToLock),
            ) && final(self)@ == old(self)@,
    {
        if status == 0 {
            self.locked = true;
            Ok(())
        } else {
            Err(FltkError::Internal(FltkErrorKind::FailedToLock))
        }
    }

    /// Whether the toolkit was made safe for use from several threads.
    pub fn is_locked(&self) -> (b: bool)
        ensures
            b == self@.locked,
    {
        self.locked
    }

    /// Gives up the safety for use from several threads.
    pub fn unlock(&mut self)
        requires
            old(self).inv(),
        ensures
            final(self).inv(),
            final(self)@ == (AppState { locked: false, ..old(self)@ }),
    {
        self.locked = false;
    }

    /// Puts the scheme that goes by `name` in force. An unknown name is an
    /// error and leaves the scheme in force.
    pub fn set_scheme(&mut self, name: &str) -> (r: Result<(), FltkError>)
        requires
            old(self).inv(),
        ensures
            final(self).inv(),
            Scheme::named(name@) matches Some(s) ==> r is Ok && final(self)@ == (AppState {
                scheme: s,
                ..old(self)@
            }),
            Scheme::named(name@) is None ==> r == Err::<(), FltkError>(
                FltkError::Internal(FltkErrorKind::FailedToSetScheme),
            ) && final(self)@ == old(self)@,
    {
        match Scheme::from_name(name) {
            Ok(s) => {
                self.scheme = s;
                Ok(())
            },
            Err(e) => Err(e),
        }
    }

    /// This display context with `scheme` in force.
    pub fn with_scheme(self, scheme: Scheme) -> (app: App)
        requires
            self.inv(),
        ensures
            app.inv(),
            app@ == (AppState { scheme, ..self@ }),
    {
        let mut app = self;
        app.scheme = scheme;
        app
    }

    /// The scheme in force.
    pub fn scheme(&self) -> (s: Scheme)
        ensures
            s == self@.scheme,
    {
        self.scheme
    }

    /// Records the size of the screen.
    pub fn set_screen_size(&mut self, width: i32, height: i32)
        requires
            old(self).inv(),
        ensures
            final(self).inv(),
            final(self)@ == (AppState {
                screen_width: width,
                screen_height: height,
                ..old(self)@
            }),
    {
        self.screen_width = width;
        self.screen_height = height;
    }

    /// The size of the screen, width first.
    pub fn screen_size(&self) -> (r: (i32, i32))
        ensures
            r == (self@.screen_width, self@.screen_height),
    {
        (self.screen_width, self.screen_height)
    }

    /// Makes the window `w` the target of the drawing that follows.
    pub fn make_current(&mut self, w: Handle)
        requires
            old(self).ready(),
            old(self)@.valid(w),
        ensures
            final(self).ready(),
            final(self)@ == (AppState { drawing: Some(w.index), ..old(self)@ }),
    {
        self.drawing = Some(w.index);
    }

    /// The window that drawing goes to, if one was named.
    pub fn drawing(&self) -> (r: Option<Handle>)
        ensures
            r matches Some(w) ==> self@.drawing == Some(w.index),
            r is None ==> self@.drawing is None,
    {
        match self.drawing {
            Some(w) => Some(Handle { index: w }),
            None => None,
        }
    }

    /// The text last copied or cut.
    pub fn clipboard(&self) -> (s: &str)
        ensures
            s@ == self@.clipboard,
    {
        self.clipboard.as_str()
    }

    /// Replaces the text last copied or cut.
    pub fn set_clipboard(&mut self, text: String)
        requires
            old(self).inv(),
        ensures
            final(self).inv(),
            final(self)@ == (AppState { clipboard: text@, ..old(self)@ }),
    {
        self.clipboard = text;
    }

    /// Makes a resource known under `name`, behind those already known.
    pub fn add_resource(&mut self, name: &str)
        requires
            old(self).inv(),
        ensures
            final(self).inv(),
            final(self)@ == (AppState {
                resources: old(self)@.resources.push(name@),
                ..old(self)@
            }),
    {
        self.resources.push(name.to_owned());
        proof {
            assert(self@.resources =~= old(self)@.resources.push(name@));
        }
    }

    /// Looks a resource up by its name: the first place at which one goes by
    /// `name`, or an error where none does.
    pub fn find_resource(&self, name: &str) -> (r: Result<usize, FltkError>)
        ensures
            r matches Ok(i) ==> self@.first_resource(name@, i as int),
            r matches Err(e) ==> !self@.has_resource(name@) && e == FltkError::Internal(
                FltkErrorKind::ResourceNotFound,
            ),
    {
        let wanted = name.to_owned();
        let n = self.resources.len();
        let mut i: usize = 0;
        while i < n
            invariant
                n == self.resources@.len(),
                i <= n,
                wanted@ == name@,
                forall|j: int| 0 <= j < i ==> self@.resources[j] != name@,
            decreases n - i,
        {
            if self.resources[i] == wanted {
                return Ok(i);
            }
            i += 1;
        }
        Err(FltkError::Internal(FltkErrorKind::ResourceNotFound))
    }
}

} // verus!
