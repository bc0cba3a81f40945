//! The button: a widget that is triggered by a click.

use vstd::prelude::*;
use crate::prelude::{WidgetBase, WidgetTrait};
use crate::state::{Handle, WidgetKind};

verus! {

/// A widget that is triggered by a click.
#[derive(Clone, Copy, Debug, PartialEq, Eq, Hash, Structural)]
pub struct Button {
    _inner: Handle,
}

impl WidgetBase for Button {
    closed spec fn id(&self) -> Handle {
        self._inner
    }

    open spec fn kind_of() -> WidgetKind {
        WidgetKind::Button
    }

    fn as_widget_ptr(&self) -> (h: Handle) {
        self._inner
    }

    fn from_widget_ptr(ptr: Handle) -> (w: Self) {
        Button { _inner: ptr }
    }

    fn kind() -> (k: WidgetKind) {
        WidgetKind::Button
    }
}

impl WidgetTrait for Button {
}

} // verus!
