use std::sync::Arc;
use vex_term::app::App;
use vex_term::editor::{Editor, Mode};
use vex_term::dispatch::Inputs;
use vex_term::event::{Event, Key, KeyPress, MouseButton, MouseEvent, MouseEventKind};
use vex_term::layout::{Axis, Rect};
use vex_term::mouse::{Pointed, Popups, Wheel};
use vex_term::picking::Action;
use vex_term::selection::{Selection, Selections};

fn editor(document: u64) -> Editor {
    Editor {
        document,
        revision: 0,
        view: 0,
        selections: Arc::new(Selections {
            ranges: vec![Selection { anchor: 0, head: 1 }],
            primary: 0,
        }),
        mode: Mode::Normal,
        cursor: 0,
        length: 0,
        bytes: 0,
        lines: 1,
        language: None,
        server: None,
        file: None,
        dirty: false,
        document_stamp: 0,
        workspace_stamp: 0,
        search_prompt: None,
        search_register: None,
        search_status: None,
        search_waiting: false,
        search_pending: false,
        repeat_pending: false,
        repeat_ready: false,
        keys_pending: false,
    }
}

fn app(lines: usize, size: (u16, u16)) -> App {
    App::from_document(Editor { lines, ..editor(1) }, size)
}

#[test]
fn half_pages_follow_the_size_of_the_pane_and_move_the_view_with_the_cursor() {
    let mut app = app(101, (80, 12));
    assert_eq!(app.half_page_distance(1), 5);
    assert_eq!(app.half_page_distance(3), 15);
    app.viewport.top_line = 14;
    app.scroll_half_page(true, 20, 25);
    assert_eq!(app.viewport.top_line, 19);
    app.scroll_half_page(false, 25, 20);
    assert_eq!(app.viewport.top_line, 14);
    app.scroll_half_page(false, 20, 0);
    assert_eq!(app.viewport.top_line, 0);
    app.size = (80, 22);
    assert_eq!(app.half_page_distance(1), 10);
    app.size = (1, 1);
    assert_eq!(app.half_page_distance(1), 1);
    assert_eq!(app.half_page_distance(usize::MAX), usize::MAX);
}

const NO_POPUPS: Popups = Popups { signature: None, completion: false, hover: None };

fn pointer(kind: MouseEventKind, column: u16, row: u16) -> MouseEvent {
    MouseEvent { kind, column, row }
}

fn split() -> App {
    let mut app = app(201, (81, 22));
    app.split_window(Axis::Vertical, &mut Vec::new()).unwrap();
    app
}

#[test]
fn the_wheel_scrolls_the_pane_under_the_pointer_by_three_lines() {
    let mut app = split();
    let scroll = |app: &mut App, x: u16, y: u16, count: usize| {
        app.handle_mouse(pointer(MouseEventKind::ScrollDown, x, y), count, NO_POPUPS)
    };
    for (x, id, left) in [(3, 0, 0), (45, 1, 41)] {
        assert_eq!(
            scroll(&mut app, x, 5, 1),
            Pointed::Scroll {
                id,
                wheel: Wheel { down: true, lines: 3 },
                rect: Rect { x: left, y: 0, width: 40, height: 21 },
            }
        );
    }
    assert_eq!(scroll(&mut app, 45, 21, 1), Pointed::Nothing);
    assert!(matches!(
        scroll(&mut app, 45, 5, usize::MAX),
        Pointed::Scroll { wheel: Wheel { down: true, lines: usize::MAX }, .. }
    ));
    app.configure_mouse("off");
    assert_eq!(app.message.show(), "mouse off");
    assert_eq!(scroll(&mut app, 45, 5, 1), Pointed::Nothing);
    assert!(!app.mouse_enabled());
    app.configure_mouse("on");
    assert!(app.mouse_enabled());
    app.mouse_focus(false);
    assert_eq!(scroll(&mut app, 45, 5, 1), Pointed::Nothing);
}

#[test]
fn overlays_and_command_line_block_pointer_input_to_underlying_panes() {
    let mut app = split();
    let before = app.viewport;
    let area = Rect { x: 3, y: 10, width: 78, height: 11 };
    app.mouse.hints = Some(area);
    app.editor.keys_pending = true;
    let wheel = pointer(MouseEventKind::ScrollDown, area.x + 1, area.y + 1);
    assert_eq!(app.handle_mouse(wheel, 1, NO_POPUPS), Pointed::Nothing);
    let press = pointer(MouseEventKind::Down(MouseButton::Left), 40, area.y + 1);
    assert_eq!(app.handle_mouse(press, 1, NO_POPUPS), Pointed::Nothing);
    app.editor.keys_pending = false;
    assert_eq!(app.handle_mouse(press, 1, NO_POPUPS), Pointed::BeginResize);
    app.cancel_mouse_drag();
    app.prompt = Some(vex_term::app::ActivePrompt::command());
    let wheel = pointer(MouseEventKind::ScrollDown, 45, 2);
    assert_eq!(app.handle_mouse(wheel, 1, NO_POPUPS), Pointed::Nothing);
    let press = pointer(MouseEventKind::Down(MouseButton::Left), 40, 2);
    assert_eq!(app.handle_mouse(press, 1, NO_POPUPS), Pointed::Nothing);
    assert!(!app.mouse.drag);
    assert_eq!(app.viewport, before);
    app.prompt = None;
    let wheel = pointer(MouseEventKind::ScrollDown, 45, 21);
    assert_eq!(app.handle_mouse(wheel, 1, NO_POPUPS), Pointed::Nothing);
    assert_eq!(app.viewport, before);
}

#[test]
fn popups_take_the_wheel_before_their_pane() {
    let mut app = split();
    let popups = Popups {
        signature: Some(Rect { x: 2, y: 2, width: 10, height: 3 }),
        completion: false,
        hover: Some(Rect { x: 2, y: 8, width: 10, height: 3 }),
    };
    let wheel = Some(Wheel { down: false, lines: 6 });
    let turn = |app: &mut App, y: u16| {
        app.handle_mouse(pointer(MouseEventKind::ScrollUp, 44, y), 2, popups)
    };
    assert_eq!(turn(&mut app, 3), Pointed::Signature(wheel));
    assert_eq!(turn(&mut app, 9), Pointed::Hover(wheel));
    assert!(matches!(turn(&mut app, 12), Pointed::Scroll { id: 1, .. }));
}

#[test]
fn drags_last_until_the_button_is_let_go() {
    let mut app = split();
    app.resize_begun(true);
    let drag = pointer(MouseEventKind::Drag(MouseButton::Left), 55, 5);
    assert_eq!(app.handle_mouse(drag, 1, NO_POPUPS), Pointed::Resize);
    assert!(app.mouse.drag);
    let release = pointer(MouseEventKind::Up(MouseButton::Left), 55, 5);
    assert_eq!(app.handle_mouse(release, 1, NO_POPUPS), Pointed::Resize);
    assert!(!app.mouse.drag);
    assert_eq!(app.handle_mouse(drag, 1, NO_POPUPS), Pointed::Nothing);
}

#[test]
fn drags_end_with_the_focus_another_size_and_a_key() {
    for cancel in [
        Event::FocusLost,
        Event::Resize(81, 22),
        Event::Key(KeyPress { released: false, key: Some(Key::Escape) }),
    ] {
        let mut app = split();
        let focus = app.focused_window_id();
        let divider = app.windows.layout.visible(app.window_area()).1[0];
        let press = pointer(MouseEventKind::Down(MouseButton::Left), divider.x, 5);
        assert_eq!(app.handle_mouse(press, 1, NO_POPUPS), Pointed::BeginResize);
        app.resize_begun(true);
        let inputs = Inputs {
            now: 0,
            action: Action::Idle,
            room: true,
            counted: false,
            space: false,
            requested: false,
            popups: NO_POPUPS,
        };
        app.handle(cancel, inputs, &mut Vec::new());
        assert!(!app.mouse.drag);
        let drag = pointer(MouseEventKind::Drag(MouseButton::Left), 15, 5);
        assert_eq!(app.handle_mouse(drag, 1, NO_POPUPS), Pointed::Nothing);
        assert_eq!(app.focused_window_id(), focus);
        app.mouse_focus(true);
    }
}
