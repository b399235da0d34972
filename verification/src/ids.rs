//! The identities of the widgets.

use vstd::prelude::*;

verus! {

/// The identity of a widget of the interface. A widget keeps its identity
/// from frame to frame, and other widgets are laid out by reference to it.
#[derive(Clone, Copy, Debug, PartialEq, Eq)]
pub enum Id {
    /// The canvas that everything else lies on.
    Canvas,
    /// Kept for a canvas that flows; the frame declares no such widget.
    CanvasFlow,
    /// The title above the list of tests.
    TestsTitle,
    /// Kept for a title of the main canvas; the frame declares no such widget.
    DeviceTitle,
    /// The canvas on the left, which holds the tests.
    TestsCanvas,
    /// The list of the tests.
    TestsList,
    /// The main canvas, to the right of the tests.
    DeviceCanvas,
    /// Kept for a list on the main canvas; the frame declares no such widget.
    DeviceList,
    /// The scrollbar of the outermost canvas.
    CanvasScrollbar,
}

} // verus!
