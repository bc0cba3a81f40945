//! The window: a group that stands at the top of a tree.

use vstd::prelude::*;
use crate::prelude::{GroupTrait, WidgetBase, WidgetTrait, WindowTrait};
use crate::state::{Handle, WidgetKind};

verus! {

/// A top-level window. It is hidden until it is shown.
#[derive(Clone, Copy, Debug, PartialEq, Eq, Hash, Structural)]
pub struct Window {
    _inner: Handle,
}

impl WidgetBase for Window {
    closed spec fn id(&self) -> Handle {
        self._inner
    }

    open spec fn kind_of() -> WidgetKind {
        WidgetKind::Window
    }

    fn as_widget_ptr(&self) -> (h: Handle) {
        self._inner
    }

    fn from_widget_ptr(ptr: Handle) -> (w: Self) {
        Window { _inner: ptr }
    }

    fn kind() -> (k: WidgetKind) {
        WidgetKind::Window
    }
}

impl WidgetTrait for Window {
}

impl GroupTrait for Window {
}

impl WindowTrait for Window {
}

} // verus!
