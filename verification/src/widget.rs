//! The widgets of the interface, as values: what each one is, and the steps by
//! which it is styled, sized and placed.
//!
//! A widget is built step by step, and a later step overrides an earlier one
//! where both say the same thing (a second position along the same axis). The
//! steps are therefore kept in order.

use vstd::prelude::*;

use crate::color::Color;
use crate::ids::Id;

verus! {

/// A step that sizes or places a widget. Every widget takes these. Lengths are
/// in pixels.
#[derive(Clone, Copy, Debug, PartialEq, Eq)]
pub enum Layout {
    /// The width.
    W(u32),
    /// The height.
    H(u32),
    /// The width of the widget `of`, less the width of the widget `less`, both
    /// as they lie in the frame at this point.
    WRemaining { of: Id, less: Id },
    /// The width of the given widget.
    WOf(Id),
    /// The height of the given widget.
    HOf(Id),
    /// With the left edge on that of the widget declared just before.
    AlignLeft,
    /// With the top edge on that of the given widget.
    AlignTopOf(Id),
    /// In the middle of the given widget.
    MiddleOf(Id),
    /// To the right of the given widget, at this distance.
    RightFrom(Id, u32),
    /// Below the given widget, at this distance.
    DownFrom(Id, u32),
}

/// A step in building a canvas.
#[derive(Clone, Copy, Debug, PartialEq, Eq)]
pub enum CanvasStep {
    Layout(Layout),
    /// The same padding on all four sides.
    Pad(u32),
    Color(Color),
}

/// A step in building a text.
#[derive(Clone, Copy, Debug, PartialEq, Eq)]
pub enum TextStep {
    Layout(Layout),
    /// Each line is centred.
    CenterJustify,
    /// The space between two lines.
    LineSpacing(u32),
}

/// A step in building a list.
#[derive(Clone, Copy, Debug, PartialEq, Eq)]
pub enum ListStep {
    Layout(Layout),
    /// The list scrolls, and its scrollbar lies over the edge of the items and
    /// hides while it is not in use.
    ScrollbarOnTop,
}

/// A step in building a button that is an item of a list. The list sizes and
/// places its items.
#[derive(Debug, PartialEq, Eq)]
pub enum ButtonStep {
    Label(String),
    LabelColor(Color),
    Color(Color),
}

/// A step in building a scrollbar.
#[derive(Clone, Copy, Debug, PartialEq, Eq)]
pub enum ScrollbarStep {
    Layout(Layout),
    /// Whether the scrollbar hides while it is not in use.
    AutoHide(bool),
}

/// A widget that a frame declares: what it is made from, and the steps that
/// build it, in order.
#[derive(Debug, PartialEq, Eq)]
#[allow(inconsistent_fields)]
pub enum Widget {
    Canvas(Vec<CanvasStep>),
    /// A text, with what it says.
    Text { text: String, steps: Vec<TextStep> },
    /// A list that flows downwards, of `num_items` items that are each `item_h`
    /// pixels high. The toolkit asks for the widgets of the items that can be
    /// seen, each by its index, which is less than `num_items`.
    List { num_items: usize, item_h: u32, steps: Vec<ListStep> },
    /// A scrollbar that scrolls the widget `of` up and down.
    ScrollbarY { of: Id, steps: Vec<ScrollbarStep> },
}

/// A widget of the frame, with its identity.
#[derive(Debug, PartialEq, Eq)]
pub struct Instance {
    pub widget: Widget,
    pub id: Id,
}

/// A step in building a button, with the label as a sequence of characters.
pub enum ButtonStepView {
    Label(Seq<char>),
    LabelColor(Color),
    Color(Color),
}

/// A widget, with each text as a sequence of characters and each list of steps
/// as a sequence.
#[allow(inconsistent_fields)]
pub enum WidgetView {
    Canvas(Seq<CanvasStep>),
    Text { text: Seq<char>, steps: Seq<TextStep> },
    List { num_items: nat, item_h: u32, steps: Seq<ListStep> },
    ScrollbarY { of: Id, steps: Seq<ScrollbarStep> },
}

/// A widget of the frame, with its identity.
pub struct InstanceView {
    pub widget: WidgetView,
    pub id: Id,
}

impl Layout {
    /// Whether the step names the widget `id`.
    pub open spec fn refers_to(self, id: Id) -> bool {
        match self {
            Layout::W(_) | Layout::H(_) | Layout::AlignLeft => false,
            Layout::WRemaining { of, less } => id == of || id == less,
            Layout::WOf(other)
            | Layout::HOf(other)
            | Layout::AlignTopOf(other)
            | Layout::MiddleOf(other)
            | Layout::RightFrom(other, _)
            | Layout::DownFrom(other, _) => id == other,
        }
    }
}

impl CanvasStep {
    /// Whether the step names the widget `id`.
    pub open spec fn refers_to(self, id: Id) -> bool {
        self matches CanvasStep::Layout(layout) && layout.refers_to(id)
    }
}

impl TextStep {
    /// Whether the step names the widget `id`.
    pub open spec fn refers_to(self, id: Id) -> bool {
        self matches TextStep::Layout(layout) && layout.refers_to(id)
    }
}

impl ListStep {
    /// Whether the step names the widget `id`.
    pub open spec fn refers_to(self, id: Id) -> bool {
        self matches ListStep::Layout(layout) && layout.refers_to(id)
    }
}

impl ScrollbarStep {
    /// Whether the step names the widget `id`.
    pub open spec fn refers_to(self, id: Id) -> bool {
        self matches ScrollbarStep::Layout(layout) && layout.refers_to(id)
    }
}

impl WidgetView {
    /// Whether the widget names the widget `id`: in one of its steps, or as
    /// what it scrolls.
    pub open spec fn refers_to(self, id: Id) -> bool {
        match self {
            WidgetView::Canvas(steps) => exists|k: int|
                0 <= k < steps.len() && (#[trigger] steps[k]).refers_to(id),
            WidgetView::Text { steps, .. } => exists|k: int|
                0 <= k < steps.len() && (#[trigger] steps[k]).refers_to(id),
            WidgetView::List { steps, .. } => exists|k: int|
                0 <= k < steps.len() && (#[trigger] steps[k]).refers_to(id),
            WidgetView::ScrollbarY { of, steps } => id == of || exists|k: int|
                0 <= k < steps.len() && (#[trigger] steps[k]).refers_to(id),
        }
    }
}

/// Whether `frame` can be declared from its first widget to its last: no
/// identity is declared twice, a widget names only widgets that are declared
/// before it, and the items of a list have a height.
pub open spec fn well_formed(frame: Seq<InstanceView>) -> bool {
    &&& forall|j: int, k: int|
        0 <= j < k < frame.len() ==> (#[trigger] frame[j]).id != (#[trigger] frame[k]).id
    &&& forall|k: int, id: Id|
        0 <= k < frame.len() && #[trigger] frame[k].widget.refers_to(id) ==> exists|j: int|
            0 <= j < k && (#[trigger] frame[j]).id == id
    &&& forall|k: int|
        0 <= k < frame.len() && (#[trigger] frame[k]).widget is List
            ==> frame[k].widget->item_h > 0
}

impl DeepView for ButtonStep {
    type V = ButtonStepView;

    open spec fn deep_view(&self) -> ButtonStepView {
        match *self {
            ButtonStep::Label(label) => ButtonStepView::Label(label@),
            ButtonStep::LabelColor(color) => ButtonStepView::LabelColor(color),
            ButtonStep::Color(color) => ButtonStepView::Color(color),
        }
    }
}

impl DeepView for Widget {
    type V = WidgetView;

    open spec fn deep_view(&self) -> WidgetView {
        match *self {
            Widget::Canvas(steps) => WidgetView::Canvas(steps@),
            Widget::Text { text, steps } => WidgetView::Text { text: text@, steps: steps@ },
            Widget::List { num_items, item_h, steps } => WidgetView::List {
                num_items: num_items as nat,
                item_h,
                steps: steps@,
            },
            Widget::ScrollbarY { of, steps } => WidgetView::ScrollbarY { of, steps: steps@ },
        }
    }
}

impl DeepView for Instance {
    type V = InstanceView;

    open spec fn deep_view(&self) -> InstanceView {
        InstanceView { widget: self.widget.deep_view(), id: self.id }
    }
}

} // verus!
