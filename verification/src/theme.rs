//! The defaults by which the toolkit styles and places the widgets of the
//! interface.

use vstd::prelude::*;

use crate::color::Color;

verus! {

/// How a widget is aligned with another along one axis.
#[derive(Clone, Copy, Debug, PartialEq, Eq)]
pub enum Align {
    Start,
    Middle,
    End,
}

/// A direction along one axis: forwards is right or up, backwards is left or
/// down.
#[derive(Clone, Copy, Debug, PartialEq, Eq)]
pub enum Direction {
    Forwards,
    Backwards,
}

/// Where a widget lies along one axis, relative to the widget declared just
/// before it.
#[derive(Clone, Copy, Debug, PartialEq, Eq)]
pub enum Relative {
    /// Aligned with the other widget.
    Align(Align),
    /// At a distance in pixels from the other widget, in the given direction.
    Direction(Direction, u32),
}

/// The two ends of an interval along one axis, in pixels.
#[derive(Clone, Copy, Debug, PartialEq, Eq)]
pub struct Range {
    pub start: u32,
    pub end: u32,
}

/// The space between the border of a canvas and what lies on it, at the start
/// and at the end of each axis.
#[derive(Clone, Copy, Debug, PartialEq, Eq)]
pub struct Padding {
    pub x: Range,
    pub y: Range,
}

impl Padding {
    /// No padding on any side.
    pub open spec fn spec_none() -> Padding {
        Padding { x: Range { start: 0, end: 0 }, y: Range { start: 0, end: 0 } }
    }

    /// No padding on any side.
    #[verifier::when_used_as_spec(spec_none)]
    pub fn none() -> (padding: Padding)
        ensures
            padding == Self::spec_none(),
    {
        Padding { x: Range { start: 0, end: 0 }, y: Range { start: 0, end: 0 } }
    }
}

/// The defaults of the interface. Lengths are in pixels. A theme names no font,
/// and styles no kind of widget apart from the others.
#[derive(Debug, PartialEq, Eq)]
pub struct Theme {
    /// The name by which the theme is known.
    pub name: String,
    /// The padding of a canvas.
    pub padding: Padding,
    /// Where a widget lies along the x axis when it does not say.
    pub x_position: Relative,
    /// Where a widget lies along the y axis when it does not say.
    pub y_position: Relative,
    pub background_color: Color,
    /// The colour of the shapes of widgets.
    pub shape_color: Color,
    pub border_color: Color,
    pub border_width: u32,
    pub label_color: Color,
    pub font_size_large: u32,
    pub font_size_medium: u32,
    pub font_size_small: u32,
    /// How far the pointer must move with a button down before it drags.
    pub mouse_drag_threshold: u32,
    /// The longest time between two clicks that make a double click, in
    /// milliseconds.
    pub double_click_threshold_ms: u64,
}

/// The name of the theme.
pub open spec fn theme_name() -> Seq<char> {
    "Demo Theme"@
}

/// The theme of the interface: dark, without borders or padding, each widget
/// by default aligned with the start of the one before it and 20 pixels below
/// it.
pub fn theme() -> (theme: Theme)
    ensures
        theme.name@ == theme_name(),
        theme.padding == Padding::none(),
        theme.x_position == Relative::Align(Align::Start),
        theme.y_position == Relative::Direction(Direction::Backwards, 20),
        theme.background_color == Color::DarkCharcoal,
        theme.shape_color == Color::LightCharcoal,
        theme.border_color == Color::Black,
        theme.border_width == 0,
        theme.label_color == Color::White,
        theme.font_size_large == 26,
        theme.font_size_medium == 18,
        theme.font_size_small == 12,
        theme.mouse_drag_threshold == 0,
        theme.double_click_threshold_ms == 500,
{
    Theme {
        name: "Demo Theme".to_string(),
        padding: Padding::none(),
        x_position: Relative::Align(Align::Start),
        y_position: Relative::Direction(Direction::Backwards, 20),
        background_color: Color::DarkCharcoal,
        shape_color: Color::LightCharcoal,
        border_color: Color::Black,
        border_width: 0,
        label_color: Color::White,
        font_size_large: 26,
        font_size_medium: 18,
        font_size_small: 12,
        mouse_drag_threshold: 0,
        double_click_threshold_ms: 500,
    }
}

} // verus!
