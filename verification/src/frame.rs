//! The frame of the interface: the widgets that are declared each time the
//! window is drawn, in the order in which they are declared.

use vstd::prelude::*;

use crate::color::Color;
use crate::ids::Id;
use crate::state::CFTIApp;
use crate::widget::{
    well_formed, ButtonStep, ButtonStepView, CanvasStep, Instance, InstanceView, Layout, ListStep,
    ScrollbarStep, TextStep, Widget, WidgetView,
};

verus! {

/// The padding of the outermost canvas, in pixels.
pub const MARGIN: u32 = 30;

/// The height of one item of the list of tests, in pixels.
pub const ITEM_HEIGHT: u32 = 50;

/// The title above the list of tests.
pub open spec fn tests_title() -> Seq<char> {
    "Test List"@
}

/// The outermost canvas.
pub open spec fn canvas_view() -> WidgetView {
    WidgetView::Canvas(seq![CanvasStep::Pad(MARGIN)])
}

/// The canvas on the left: 200 pixels wide, as high as the outermost canvas.
pub open spec fn tests_canvas_view() -> WidgetView {
    WidgetView::Canvas(
        seq![
            CanvasStep::Layout(Layout::W(200)),
            CanvasStep::Layout(Layout::HOf(Id::Canvas)),
            CanvasStep::Layout(Layout::AlignLeft),
            CanvasStep::Color(Color::Purple),
        ],
    )
}

/// The main canvas: to the right of the canvas of the tests, over the width
/// that it leaves.
pub open spec fn device_canvas_view() -> WidgetView {
    WidgetView::Canvas(
        seq![
            CanvasStep::Layout(Layout::WRemaining { of: Id::Canvas, less: Id::TestsCanvas }),
            CanvasStep::Layout(Layout::HOf(Id::Canvas)),
            CanvasStep::Layout(Layout::RightFrom(Id::TestsCanvas, 1)),
            CanvasStep::Color(Color::Orange),
        ],
    )
}

/// The title of the list, at the top of the canvas of the tests.
pub open spec fn tests_title_view() -> WidgetView {
    WidgetView::Text {
        text: tests_title(),
        steps: seq![
            TextStep::Layout(Layout::MiddleOf(Id::TestsCanvas)),
            TextStep::Layout(Layout::WOf(Id::TestsCanvas)),
            TextStep::Layout(Layout::AlignTopOf(Id::TestsCanvas)),
            TextStep::CenterJustify,
            TextStep::LineSpacing(5),
        ],
    }
}

/// The list of the tests, with one item for each of the `num_tests` tests,
/// below the title.
pub open spec fn tests_list_view(num_tests: nat) -> WidgetView {
    WidgetView::List {
        num_items: num_tests,
        item_h: ITEM_HEIGHT,
        steps: seq![
            ListStep::ScrollbarOnTop,
            ListStep::Layout(Layout::MiddleOf(Id::TestsCanvas)),
            ListStep::Layout(Layout::DownFrom(Id::TestsTitle, 10)),
            ListStep::Layout(Layout::WOf(Id::TestsCanvas)),
            ListStep::Layout(Layout::H(500)),
        ],
    }
}

/// The scrollbar of the outermost canvas.
pub open spec fn canvas_scrollbar_view() -> WidgetView {
    WidgetView::ScrollbarY { of: Id::Canvas, steps: seq![ScrollbarStep::AutoHide(true)] }
}

/// The frame of an interface that lists `num_tests` tests.
pub open spec fn frame_view(num_tests: nat) -> Seq<InstanceView> {
    seq![
        InstanceView { widget: canvas_view(), id: Id::Canvas },
        InstanceView { widget: tests_canvas_view(), id: Id::TestsCanvas },
        InstanceView { widget: device_canvas_view(), id: Id::DeviceCanvas },
        InstanceView { widget: tests_title_view(), id: Id::TestsTitle },
        InstanceView { widget: tests_list_view(num_tests), id: Id::TestsList },
        InstanceView { widget: canvas_scrollbar_view(), id: Id::CanvasScrollbar },
    ]
}

/// The steps that build the button of a test with the given name.
pub open spec fn test_button_view(name: Seq<char>) -> Seq<ButtonStepView> {
    seq![
        ButtonStepView::Label(name),
        ButtonStepView::LabelColor(Color::White),
        ButtonStepView::Color(Color::LightBlue),
    ]
}

/// The frame is well formed, whatever the number of tests: each of its six
/// widgets has an identity of its own and is sized and placed by widgets that
/// the frame declares before it, and the items of its list have a height.
pub proof fn lemma_frame_well_formed(num_tests: nat)
    ensures
        well_formed(frame_view(num_tests)),
{
    let frame = frame_view(num_tests);
    assert forall|k: int, id: Id|
        0 <= k < frame.len() && #[trigger] frame[k].widget.refers_to(id) implies exists|j: int|
        0 <= j < k && (#[trigger] frame[j]).id == id by {
        if k == 1 || k == 5 {
            assert(id == Id::Canvas);
            assert(frame[0].id == id);
        } else if k == 2 {
            assert(id == Id::Canvas || id == Id::TestsCanvas);
            assert(frame[0].id == Id::Canvas);
            assert(frame[1].id == Id::TestsCanvas);
        } else if k == 3 {
            assert(id == Id::TestsCanvas);
            assert(frame[1].id == id);
        } else if k == 4 {
            assert(id == Id::TestsCanvas || id == Id::TestsTitle);
            assert(frame[1].id == Id::TestsCanvas);
            assert(frame[3].id == Id::TestsTitle);
        }
    }
}

fn canvas() -> (widget: Widget)
    ensures
        widget.deep_view() == canvas_view(),
{
    let steps = vec![CanvasStep::Pad(MARGIN)];
    assert(steps@ =~= seq![CanvasStep::Pad(MARGIN)]);
    Widget::Canvas(steps)
}

fn tests_canvas() -> (widget: Widget)
    ensures
        widget.deep_view() == tests_canvas_view(),
{
    Widget::Canvas(
        vec![
            CanvasStep::Layout(Layout::W(200)),
            CanvasStep::Layout(Layout::HOf(Id::Canvas)),
            CanvasStep::Layout(Layout::AlignLeft),
            CanvasStep::Color(Color::Purple),
        ],
    )
}

fn device_canvas() -> (widget: Widget)
    ensures
        widget.deep_view() == device_canvas_view(),
{
    Widget::Canvas(
        vec![
            CanvasStep::Layout(Layout::WRemaining { of: Id::Canvas, less: Id::TestsCanvas }),
            CanvasStep::Layout(Layout::HOf(Id::Canvas)),
            CanvasStep::Layout(Layout::RightFrom(Id::TestsCanvas, 1)),
            CanvasStep::Color(Color::Orange),
        ],
    )
}

fn tests_title_text() -> (widget: Widget)
    ensures
        widget.deep_view() == tests_title_view(),
{
    Widget::Text {
        text: "Test List".to_string(),
        steps: vec![
            TextStep::Layout(Layout::MiddleOf(Id::TestsCanvas)),
            TextStep::Layout(Layout::WOf(Id::TestsCanvas)),
            TextStep::Layout(Layout::AlignTopOf(Id::TestsCanvas)),
            TextStep::CenterJustify,
            TextStep::LineSpacing(5),
        ],
    }
}

fn tests_list(num_tests: usize) -> (widget: Widget)
    ensures
        widget.deep_view() == tests_list_view(num_tests as nat),
{
    Widget::List {
        num_items: num_tests,
        item_h: ITEM_HEIGHT,
        steps: vec![
            ListStep::ScrollbarOnTop,
            ListStep::Layout(Layout::MiddleOf(Id::TestsCanvas)),
            ListStep::Layout(Layout::DownFrom(Id::TestsTitle, 10)),
            ListStep::Layout(Layout::WOf(Id::TestsCanvas)),
            ListStep::Layout(Layout::H(500)),
        ],
    }
}

fn canvas_scrollbar() -> (widget: Widget)
    ensures
        widget.deep_view() == canvas_scrollbar_view(),
{
    let steps = vec![ScrollbarStep::AutoHide(true)];
    assert(steps@ =~= seq![ScrollbarStep::AutoHide(true)]);
    Widget::ScrollbarY { of: Id::Canvas, steps }
}

/// The widgets of one frame, in the order in which they are declared: the
/// outermost canvas, the canvas of the tests on its left and the main canvas
/// over the rest of its width, the title, the list with one item for each test
/// of `app`, and the scrollbar of the outermost canvas.
pub fn gui(app: &CFTIApp) -> (frame: Vec<Instance>)
    ensures
        frame.deep_view() == frame_view(app@.len()),
        well_formed(frame.deep_view()),
{
    proof {
        lemma_frame_well_formed(app@.len());
    }
    let frame = vec![
        Instance { widget: canvas(), id: Id::Canvas },
        Instance { widget: tests_canvas(), id: Id::TestsCanvas },
        Instance { widget: device_canvas(), id: Id::DeviceCanvas },
        Instance { widget: tests_title_text(), id: Id::TestsTitle },
        Instance { widget: tests_list(app.num_tests()), id: Id::TestsList },
        Instance { widget: canvas_scrollbar(), id: Id::CanvasScrollbar },
    ];
    assert(frame.deep_view() =~= frame_view(app@.len()));
    frame
}

/// The button that is item `i` of the list of tests, as the steps that build
/// it: a light blue button that bears the name of test `i` in white.
pub fn test_button(app: &CFTIApp, i: usize) -> (button: Vec<ButtonStep>)
    requires
        i < app@.len(),
    ensures
        button.deep_view() == test_button_view(app@[i as int]),
{
    let label = app.test_name(i).clone();
    let button = vec![
        ButtonStep::Label(label),
        ButtonStep::LabelColor(Color::White),
        ButtonStep::Color(Color::LightBlue),
    ];
    assert(button.deep_view() =~= test_button_view(app@[i as int]));
    button
}

} // verus!
