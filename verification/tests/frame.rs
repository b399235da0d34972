use cfti_ui::{
    gui, test_button, ButtonStep, CFTIApp, CanvasStep, Color, Id, Instance, Layout, ListStep,
    ScrollbarStep, TextStep, Widget, ITEM_HEIGHT, MARGIN, WIN_H, WIN_W,
};

fn names_of(names: &[&str]) -> Vec<String> {
    names.iter().map(|name| name.to_string()).collect()
}

fn expected_frame(num_tests: usize) -> Vec<Instance> {
    vec![
        Instance { widget: Widget::Canvas(vec![CanvasStep::Pad(30)]), id: Id::Canvas },
        Instance {
            widget: Widget::Canvas(vec![
                CanvasStep::Layout(Layout::W(200)),
                CanvasStep::Layout(Layout::HOf(Id::Canvas)),
                CanvasStep::Layout(Layout::AlignLeft),
                CanvasStep::Color(Color::Purple),
            ]),
            id: Id::TestsCanvas,
        },
        Instance {
            widget: Widget::Canvas(vec![
                CanvasStep::Layout(Layout::WRemaining { of: Id::Canvas, less: Id::TestsCanvas }),
                CanvasStep::Layout(Layout::HOf(Id::Canvas)),
                CanvasStep::Layout(Layout::RightFrom(Id::TestsCanvas, 1)),
                CanvasStep::Color(Color::Orange),
            ]),
            id: Id::DeviceCanvas,
        },
        Instance {
            widget: Widget::Text {
                text: "Test List".to_string(),
                steps: vec![
                    TextStep::Layout(Layout::MiddleOf(Id::TestsCanvas)),
                    TextStep::Layout(Layout::WOf(Id::TestsCanvas)),
                    TextStep::Layout(Layout::AlignTopOf(Id::TestsCanvas)),
                    TextStep::CenterJustify,
                    TextStep::LineSpacing(5),
                ],
            },
            id: Id::TestsTitle,
        },
        Instance {
            widget: Widget::List {
                num_items: num_tests,
                item_h: 50,
                steps: vec![
                    ListStep::ScrollbarOnTop,
                    ListStep::Layout(Layout::MiddleOf(Id::TestsCanvas)),
                    ListStep::Layout(Layout::DownFrom(Id::TestsTitle, 10)),
                    ListStep::Layout(Layout::WOf(Id::TestsCanvas)),
                    ListStep::Layout(Layout::H(500)),
                ],
            },
            id: Id::TestsList,
        },
        Instance {
            widget: Widget::ScrollbarY {
                of: Id::Canvas,
                steps: vec![ScrollbarStep::AutoHide(true)],
            },
            id: Id::CanvasScrollbar,
        },
    ]
}

fn layout_names(layout: &Layout) -> Vec<Id> {
    match *layout {
        Layout::W(_) | Layout::H(_) | Layout::AlignLeft => vec![],
        Layout::WRemaining { of, less } => vec![of, less],
        Layout::WOf(id)
        | Layout::HOf(id)
        | Layout::AlignTopOf(id)
        | Layout::MiddleOf(id)
        | Layout::RightFrom(id, _)
        | Layout::DownFrom(id, _) => vec![id],
    }
}

fn widget_names(widget: &Widget) -> Vec<Id> {
    let mut ids = Vec::new();
    match widget {
        Widget::Canvas(steps) => {
            for step in steps {
                if let CanvasStep::Layout(layout) = step {
                    ids.extend(layout_names(layout));
                }
            }
        }
        Widget::Text { steps, .. } => {
            for step in steps {
                if let TextStep::Layout(layout) = step {
                    ids.extend(layout_names(layout));
                }
            }
        }
        Widget::List { steps, .. } => {
            for step in steps {
                if let ListStep::Layout(layout) = step {
                    ids.extend(layout_names(layout));
                }
            }
        }
        Widget::ScrollbarY { of, steps } => {
            ids.push(*of);
            for step in steps {
                if let ScrollbarStep::Layout(layout) = step {
                    ids.extend(layout_names(layout));
                }
            }
        }
    }
    ids
}

#[test]
fn window_is_600_by_420() {
    assert_eq!(WIN_W, 600);
    assert_eq!(WIN_H, 420);
}

#[test]
fn margin_and_item_height() {
    assert_eq!(MARGIN, 30);
    assert_eq!(ITEM_HEIGHT, 50);
}

#[test]
fn frame_of_three_tests() {
    let names = names_of(&["power", "usb", "audio"]);
    let app = CFTIApp::new(&names);
    assert_eq!(gui(&app), expected_frame(3));
}

#[test]
fn frame_of_no_tests() {
    let names = names_of(&[]);
    let app = CFTIApp::new(&names);
    assert_eq!(gui(&app), expected_frame(0));
}

#[test]
fn frame_declares_six_widgets_in_order() {
    let names = names_of(&["only"]);
    let app = CFTIApp::new(&names);
    let ids: Vec<Id> = gui(&app).iter().map(|instance| instance.id).collect();
    assert_eq!(
        ids,
        vec![
            Id::Canvas,
            Id::TestsCanvas,
            Id::DeviceCanvas,
            Id::TestsTitle,
            Id::TestsList,
            Id::CanvasScrollbar,
        ]
    );
}

#[test]
fn frame_pads_the_canvas_by_the_margin() {
    let names = names_of(&["only"]);
    let app = CFTIApp::new(&names);
    let frame = gui(&app);
    assert_eq!(frame[0].widget, Widget::Canvas(vec![CanvasStep::Pad(MARGIN)]));
}

#[test]
fn list_has_one_item_for_each_test() {
    for count in [0usize, 1, 2, 7, 100] {
        let names: Vec<String> = (0..count).map(|i| format!("test {}", i)).collect();
        let app = CFTIApp::new(&names);
        let frame = gui(&app);
        match &frame[4].widget {
            Widget::List { num_items, item_h, .. } => {
                assert_eq!(*num_items, count);
                assert_eq!(*item_h, ITEM_HEIGHT);
            }
            other => panic!("the fifth widget is {:?}", other),
        }
    }
}

#[test]
fn frame_does_not_depend_on_the_names() {
    let some = names_of(&["a", "b"]);
    let others = names_of(&["something else", ""]);
    assert_eq!(gui(&CFTIApp::new(&some)), gui(&CFTIApp::new(&others)));
}

#[test]
fn frame_declares_no_identity_twice() {
    let names = names_of(&["a", "b", "c"]);
    let frame = gui(&CFTIApp::new(&names));
    for k in 0..frame.len() {
        for j in 0..k {
            assert_ne!(frame[j].id, frame[k].id);
        }
    }
}

#[test]
fn frame_names_only_widgets_declared_before() {
    let names = names_of(&["a", "b", "c"]);
    let frame = gui(&CFTIApp::new(&names));
    for k in 0..frame.len() {
        for id in widget_names(&frame[k].widget) {
            assert!(
                frame[..k].iter().any(|earlier| earlier.id == id),
                "{:?} names {:?} before it is declared",
                frame[k].id,
                id
            );
        }
    }
}

#[test]
fn list_items_have_a_height() {
    let names = names_of(&["a", "b", "c"]);
    for instance in gui(&CFTIApp::new(&names)) {
        if let Widget::List { item_h, .. } = instance.widget {
            assert!(item_h > 0);
        }
    }
}

#[test]
fn main_canvas_takes_the_width_that_the_tests_leave() {
    let names = names_of(&["a"]);
    let frame = gui(&CFTIApp::new(&names));
    assert_eq!(
        widget_names(&frame[2].widget),
        vec![Id::Canvas, Id::TestsCanvas, Id::Canvas, Id::TestsCanvas]
    );
    match &frame[2].widget {
        Widget::Canvas(steps) => assert_eq!(
            steps[0],
            CanvasStep::Layout(Layout::WRemaining { of: Id::Canvas, less: Id::TestsCanvas })
        ),
        other => panic!("the third widget is {:?}", other),
    }
}

#[test]
fn button_bears_the_name_of_its_test() {
    let names = names_of(&["power", "usb", "audio"]);
    let app = CFTIApp::new(&names);
    for (i, name) in ["power", "usb", "audio"].iter().enumerate() {
        assert_eq!(
            test_button(&app, i),
            vec![
                ButtonStep::Label(name.to_string()),
                ButtonStep::LabelColor(Color::White),
                ButtonStep::Color(Color::LightBlue),
            ]
        );
    }
}

#[test]
fn button_of_the_last_test() {
    let names = names_of(&["first", "last"]);
    let app = CFTIApp::new(&names);
    let last = app.num_tests() - 1;
    let button = test_button(&app, last);
    assert_eq!(button.len(), 3);
    assert_eq!(button[0], ButtonStep::Label("last".to_string()));
}

#[test]
fn button_leaves_the_state_as_it_was() {
    let names = names_of(&["first", "second"]);
    let app = CFTIApp::new(&names);
    let _ = test_button(&app, 0);
    assert_eq!(app.num_tests(), 2);
    assert_eq!(app.test_name(0), "first");
    assert_eq!(test_button(&app, 0), test_button(&app, 0));
}
