//! The frame: a widget that shows a label and a box.

use vstd::prelude::*;
use crate::prelude::{WidgetBase, WidgetTrait};
use crate::state::{Handle, WidgetKind};

verus! {

/// A widget that shows a label and a box.
#[derive(Clone, Copy, Debug, PartialEq, Eq, Hash, Structural)]
pub struct Frame {
    _inner: Handle,
}

impl WidgetBase for Frame {
    closed spec fn id(&self) -> Handle {
        self._inner
    }

    open spec fn kind_of() -> WidgetKind {
        WidgetKind::Frame
    }

    fn as_widget_ptr(&self) -> (h: Handle) {
        self._inner
    }

    fn from_widget_ptr(ptr: Handle) -> (w: Self) {
        Frame { _inner: ptr }
    }

    fn kind() -> (k: WidgetKind) {
        WidgetKind::Frame
    }
}

impl WidgetTrait for Frame {
}

} // verus!
