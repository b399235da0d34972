//! A declarative description of the interface of a test runner: the window, the
//! theme, and the widgets of one frame, with the list of the tests at its centre.
//!
//! The library decides what is shown; it draws nothing. A caller hands each
//! widget of [`gui`] to a toolkit, in order, and asks [`test_button`] for the
//! widget of each item of the list that the toolkit wants to show.

pub mod color;
pub mod frame;
pub mod ids;
pub mod state;
pub mod theme;
pub mod widget;

pub use crate::color::Color;
pub use crate::frame::{gui, test_button, ITEM_HEIGHT, MARGIN};
pub use crate::ids::Id;
pub use crate::state::CFTIApp;
pub use crate::theme::{theme, Align, Direction, Padding, Range, Relative, Theme};
pub use crate::widget::{
    ButtonStep, CanvasStep, Instance, Layout, ListStep, ScrollbarStep, TextStep, Widget,
};

use vstd::prelude::*;

verus! {

/// Width of the application window, in pixels.
pub const WIN_W: u32 = 600;

/// Height of the application window, in pixels.
pub const WIN_H: u32 = 420;

} // verus!
