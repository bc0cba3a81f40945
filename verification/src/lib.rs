//! A verified model of a retained-mode widget toolkit.
//!
//! Every widget is one flat record kept by an [`app::App`]; the widget types
//! are copyable handles that name a record, and the capability traits of
//! [`prelude`] are the operations a handle offers. All state is plain data, so
//! every operation carries a contract that says exactly what it reads or
//! changes.

pub mod text;
pub mod error;
pub mod enums;
pub mod state;
pub mod app;
pub mod prelude;
pub mod widget;
pub mod frame;
pub mod button;
pub mod group;
pub mod window;
pub mod menu;
pub mod input;
pub mod laws;
pub mod browser;
