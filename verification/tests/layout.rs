use vex_term::error::Error;
use vex_term::layout::{Axis, Direction, Layout, Rect};
use vex_term::paint::{paint_dividers, Junction};

#[test]
fn nested_splits_focus_swap_close_and_resize_preserve_layout() {
    let mut layout = Layout::default();
    let right = layout.split(Axis::Vertical, (81, 21)).unwrap();
    layout.active = right;
    let bottom = layout.split(Axis::Horizontal, (81, 21)).unwrap();
    assert_eq!(
        layout.visible((81, 21)).0,
        vec![
            (
                0,
                Rect {
                    x: 0,
                    y: 0,
                    width: 40,
                    height: 21
                }
            ),
            (
                right,
                Rect {
                    x: 41,
                    y: 0,
                    width: 40,
                    height: 10
                }
            ),
            (
                bottom,
                Rect {
                    x: 41,
                    y: 10,
                    width: 40,
                    height: 11
                }
            ),
        ]
    );
    assert_eq!(layout.neighbor(Direction::Down, (81, 21)), Some(bottom));
    assert_eq!(layout.neighbor(Direction::Left, (81, 21)), Some(0));
    layout.swap(bottom);
    assert_eq!(layout.neighbor(Direction::Up, (81, 21)), Some(bottom));
    assert_eq!(layout.visible((3, 2)).0.len(), 1);
    assert_eq!(layout.visible((81, 21)).0.len(), 3);
    assert!(layout.split(Axis::Vertical, (3, 2)).is_err());
    layout.remove(bottom);
    assert_eq!(layout.visible((81, 21)).0[1].1.height, 21);
    layout.only();
    assert_eq!(layout.ids(), vec![right]);
}

#[test]
fn splits_stop_at_the_window_limit_and_at_tiny_terminals() {
    let mut layout = Layout::default();
    for id in 1..16 {
        layout.active = (id - 1) / 2;
        assert_eq!(layout.split(Axis::Vertical, (2000, 21)).unwrap(), id);
    }
    assert_eq!(layout.ids().len(), 16);
    assert!(matches!(
        layout.split(Axis::Vertical, (2000, 21)),
        Err(Error::TooManyWindows)
    ));
    let mut layout = Layout::default();
    assert!(matches!(
        layout.split(Axis::Horizontal, (80, 2)),
        Err(Error::TerminalTooSmall)
    ));
    assert_eq!(layout.ids(), vec![0]);
    assert_eq!(Error::TooManyWindows.message(), "at most 16 windows may be open");
}

#[test]
fn visible_panes_and_dividers_cover_every_cell_once() {
    let mut layout = Layout::default();
    layout.active = layout.split(Axis::Vertical, (81, 21)).unwrap();
    layout.active = layout.split(Axis::Horizontal, (81, 21)).unwrap();
    layout.split(Axis::Vertical, (81, 21)).unwrap();
    let (panes, dividers) = layout.visible((81, 21));
    for x in 0..81 {
        for y in 0..21 {
            let covers = panes.iter().filter(|(_, rect)| rect.contains(x, y)).count()
                + dividers.iter().filter(|rect| rect.contains(x, y)).count();
            assert_eq!(covers, 1, "{x} {y}");
        }
    }
    assert_eq!(panes.len(), 4);
    assert_eq!(dividers.len(), 2);
}

#[test]
fn a_removed_split_leaves_the_layout_before_it() {
    let mut layout = Layout::default();
    layout.active = layout.split(Axis::Vertical, (81, 21)).unwrap();
    let before = layout.visible((81, 21));
    let added = layout.split(Axis::Horizontal, (81, 21)).unwrap();
    layout.remove(added);
    assert_eq!(layout.visible((81, 21)), before);
}

#[test]
fn horizontal_panes_meet_without_a_divider_and_dividers_join_status_lines() {
    let mut layout = Layout::default();
    layout.active = layout.split(Axis::Horizontal, (80, 12)).unwrap();
    let (panes, dividers) = layout.visible((80, 12));
    assert!(dividers.is_empty());
    assert_eq!(panes[0].1.height, 6);
    assert_eq!(panes[1].1.y, 6);
    assert_eq!(panes[1].1.height, 6);
    layout.split(Axis::Vertical, (80, 12)).unwrap();
    let (panes, dividers) = layout.visible((80, 12));
    assert_eq!(dividers.len(), 1);
    let drawn = paint_dividers(&panes, &dividers, &vec![true]);
    let glyph = |y: u16| drawn.iter().find(|cell| cell.y == y).map(|cell| (cell.x, cell.glyph));
    assert_eq!(glyph(5), Some((39, '┬')));
    assert_eq!(glyph(8), Some((39, '│')));
    assert_eq!(glyph(11), Some((39, '┴')));
    let drawn: Vec<Junction> = paint_dividers(&panes, &dividers, &vec![false]);
    assert_eq!(drawn.len(), 6);
}

#[test]
fn windows_that_closed_do_not_lend_their_identity_to_later_ones() {
    let mut layout = Layout::default();
    let mut given = layout.ids();
    for round in 0..20 {
        let axis = if round % 2 == 0 { Axis::Vertical } else { Axis::Horizontal };
        let id = layout.split(axis, (200, 100)).unwrap();
        assert!(!given.contains(&id));
        given.push(id);
        if round % 3 == 0 {
            layout.active = id;
            layout.only();
        } else if round % 3 == 1 {
            layout.remove(id);
        } else {
            layout.swap(id);
        }
    }
}
