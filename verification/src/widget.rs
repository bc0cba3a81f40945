//! The plain widget: a handle for any record, whatever its kind.

use vstd::prelude::*;
use crate::prelude::{WidgetBase, WidgetTrait};
use crate::state::{Handle, WidgetKind};

verus! {

/// A handle for any widget. The tree queries answer with handles of this type.
#[derive(Clone, Copy, Debug, PartialEq, Eq, Hash, Structural)]
pub struct Widget {
    _inner: Handle,
}

impl WidgetBase for Widget {
    closed spec fn id(&self) -> Handle {
        self._inner
    }

    open spec fn kind_of() -> WidgetKind {
        WidgetKind::Widget
    }

    fn as_widget_ptr(&self) -> (h: Handle) {
        self._inner
    }

    fn from_widget_ptr(ptr: Handle) -> (w: Self) {
        Widget { _inner: ptr }
    }

    fn kind() -> (k: WidgetKind) {
        WidgetKind::Widget
    }
}

impl WidgetTrait for Widget {
}

} // verus!
