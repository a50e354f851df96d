//! Pane-sized view commands. Scrolling only changes selections when the
//! primary cursor reaches the edge of the visible area.

use crate::app::{App, Viewport};
use crate::menu::{least, most};
use vstd::prelude::*;

verus! {

#[derive(Clone, Copy, Debug, PartialEq, Eq, Structural)]
pub enum ViewAction {
    AlignTop,
    AlignCenter,
    AlignBottom,
    AlignMiddle,
    ScrollUp,
    ScrollDown,
    PageUp,
    PageDown,
    WindowTop,
    WindowCenter,
    WindowBottom,
}

/// Where the primary cursor is and how the pane is drawn around it.
#[derive(Clone, Copy, Debug, PartialEq, Eq, Structural)]
pub struct Sight {
    /// The cursor, and the first character of its line.
    pub cursor: usize,
    pub line_start: usize,
    /// The line of the cursor.
    pub row: usize,
    /// The column that the cursor is drawn at.
    pub column: usize,
    /// Lines kept visible above and below the cursor.
    pub margin: usize,
    /// Columns in front of the text.
    pub gutter: usize,
}

/// What a view command does to the cursor.
#[derive(Clone, Copy, Debug, PartialEq, Eq, Structural)]
pub enum Motion {
    Stay,
    /// Put the primary cursor on the first character of a line.
    Put { line: usize },
    /// Go to a line, counted from one.
    GoTo { line: usize },
}

impl ViewAction {
    /// Whether the command scrolls, and in which direction.
    pub open spec fn scrolls(self) -> Option<bool> {
        match self {
            ViewAction::ScrollUp | ViewAction::PageUp => Some(false),
            ViewAction::ScrollDown | ViewAction::PageDown => Some(true),
            _ => None,
        }
    }

    /// How far the command scrolls.
    pub open spec fn distance(self, count: usize, height: usize) -> usize {
        match self {
            ViewAction::PageUp | ViewAction::PageDown => height,
            _ => count,
        }
    }
}

/// The first line shown after scrolling.
pub open spec fn scrolled_top(top: usize, distance: usize, down: bool, last: int) -> int {
    if down { least(top + distance, last) } else { most(top - distance, 0) }
}

/// The line nearest to the cursor that it may be on after scrolling to `top`:
/// inside the margin of the edge it is pushed from, and inside the text.
pub open spec fn pushed_to(top: int, height: int, margin: int, down: bool, last: int) -> int {
    least(if down { top + margin } else { top + height - margin - 1 }, last)
}

/// Whether the cursor has to move: it is outside the lines that it may be on, or,
/// scrolling up, on the lowest of them and not at its start.
pub open spec fn is_pushed(sight: Sight, target: int, down: bool) -> bool {
    if down {
        target > sight.row
    } else {
        target < sight.row || target == sight.row && sight.line_start < sight.cursor
    }
}

/// The row of a window that a command goes to, from its first line on.
pub open spec fn window_row(
    action: ViewAction,
    count: usize,
    margin: int,
    last_visible: int,
) -> int {
    let steps = if count == 0 { 0 } else { count - 1 };
    let row = match action {
        ViewAction::WindowTop => margin + steps,
        ViewAction::WindowBottom => most(last_visible - (margin + steps), 0),
        _ => last_visible / 2,
    };
    most(margin, least(row, last_visible - margin))
}

/// The part of the document shown after a view command.
pub open spec fn view_after(
    view: Viewport,
    action: ViewAction,
    count: usize,
    sight: Sight,
    width: usize,
    height: usize,
    last: int,
) -> Viewport {
    match action {
        ViewAction::AlignTop => Viewport { top_line: sight.row, ..view },
        ViewAction::AlignCenter => Viewport {
            top_line: most(sight.row - (height - 1) / 2, 0) as usize,
            ..view
        },
        ViewAction::AlignBottom => Viewport {
            top_line: most(sight.row - (height - 1), 0) as usize,
            ..view
        },
        ViewAction::AlignMiddle => Viewport {
            left_column: most(sight.column - (width - sight.gutter) / 2, 0) as usize,
            ..view
        },
        ViewAction::WindowTop | ViewAction::WindowCenter | ViewAction::WindowBottom => view,
        _ => Viewport {
            top_line: scrolled_top(
                view.top_line,
                action.distance(count, height),
                action.scrolls()->0,
                last,
            ) as usize,
            ..view
        },
    }
}

/// What a view command does to the cursor.
pub open spec fn motion_after(
    view: Viewport,
    action: ViewAction,
    count: usize,
    sight: Sight,
    height: usize,
    last: int,
) -> Motion {
    match action {
        ViewAction::WindowTop | ViewAction::WindowCenter | ViewAction::WindowBottom => {
            let last_visible = least(most(last - view.top_line, 0), height - 1);
            let margin = least(sight.margin as int, last_visible / 2);
            Motion::GoTo {
                line: least(
                    least(
                        view.top_line + window_row(action, count, margin, last_visible),
                        usize::MAX as int,
                    ) + 1,
                    usize::MAX as int,
                ) as usize,
            }
        },
        _ => match action.scrolls() {
            Some(down) => {
                let top = scrolled_top(view.top_line, action.distance(count, height), down, last);
                let target = pushed_to(top, height as int, sight.margin as int, down, last);
                if is_pushed(sight, target, down) {
                    Motion::Put { line: target as usize }
                } else {
                    Motion::Stay
                }
            },
            None => Motion::Stay,
        },
    }
}

/// What a view command has done to the active pane and asks of the cursor:
/// nothing where no text is shown.
pub open spec fn view_moved(
    before: App,
    action: ViewAction,
    count: usize,
    sight: Sight,
    motion: Option<Motion>,
    now: App,
) -> bool {
    let rect = crate::layout::pane_of(
        before.windows.layout.shown(before.area()),
        before.window(),
    )->0;
    let height = most(rect.height - 1, 0) as usize;
    let last = before.editor.lines - 1;
    if height == 0 || rect.width == 0 {
        motion is None && now == before
    } else {
        &&& motion == Some(motion_after(before.viewport, action, count, sight, height, last))
        &&& now == (App {
            viewport: view_after(
                before.viewport,
                action,
                count,
                sight,
                rect.width as usize,
                height,
                last,
            ),
            ..before
        })
    }
}

/// Where half a page leads: the view has moved as far as the cursor has.
pub open spec fn half_page_scrolled(
    before: App,
    down: bool,
    from: usize,
    to: usize,
    now: App,
) -> bool {
    now == (App {
        viewport: (Viewport {
            top_line: (if down {
                least(before.viewport.top_line + most(to - from, 0), usize::MAX as int)
            } else {
                most(before.viewport.top_line - most(from - to, 0), 0)
            }) as usize,
            ..before.viewport
        }),
        ..before
    })
}

fn plus(a: usize, b: usize) -> (sum: usize)
    ensures
        sum == least(a + b, usize::MAX as int),
{
    if b <= usize::MAX - a { a + b } else { usize::MAX }
}

fn minus(a: usize, b: usize) -> (difference: usize)
    ensures
        difference == most(a - b, 0),
{
    if a >= b { a - b } else { 0 }
}

fn smaller(a: usize, b: usize) -> (least: usize)
    ensures
        least == crate::menu::least(a as int, b as int),
{
    if a <= b { a } else { b }
}

impl App {
    /// Carries out a view command in the active pane. Returns what it does to
    /// the cursor; the view has been moved.
    pub fn view_action(&mut self, action: ViewAction, count: usize, sight: Sight) -> (motion:
        Option<Motion>)
        requires
            old(self).screen().valid(),
            old(self).editor.lines >= 1,
            ({
                let rect = crate::layout::pane_of(
                    old(self).windows.layout.shown(old(self).area()),
                    old(self).window(),
                )->0;
                &&& sight.gutter <= rect.width
                &&& rect.height >= 2 ==> sight.margin < rect.height - 1
            }),
        ensures
            view_moved(*old(self), action, count, sight, motion, *final(self)),
    {
        let (width, height) = self.active_size();
        let width: usize = width as usize;
        let height: usize = minus(height as usize, 1);
        if height == 0 || width == 0 {
            return None;
        }
        let last: usize = self.editor.lines - 1;
        let (view, motion) = viewed(self.viewport, action, count, sight, width, height, last);
        self.viewport = view;
        Some(motion)
    }

    /// How many lines half a page is, a number of times.
    pub open spec fn half_pages(height: u16, count: usize) -> int {
        least(
            most(most(height - 1, 0) / 2, 1) * count,
            usize::MAX as int,
        )
    }

    /// How far the cursor moves for a number of half pages.
    pub fn half_page_distance(&self, count: usize) -> (distance: usize)
        requires
            self.screen().valid(),
        ensures
            ({
                let rect = crate::layout::pane_of(
                    self.windows.layout.shown(self.area()),
                    self.window(),
                )->0;
                distance == App::half_pages(rect.height, count)
            }),
    {
        let (_, height) = self.active_size();
        let rows: usize = minus(height as usize, 1);
        let half: usize = if rows / 2 == 0 { 1 } else { rows / 2 };
        match half.checked_mul(count) {
            Some(distance) => distance,
            None => usize::MAX,
        }
    }

    /// Moves the view with the cursor, which has gone from a line to another,
    /// so that it stays on its row of the screen away from the edges of the
    /// document.
    pub fn scroll_half_page(&mut self, down: bool, before: usize, after: usize)
        ensures
            half_page_scrolled(*old(self), down, before, after, *final(self)),
    {
        self.viewport.top_line = if down {
            plus(self.viewport.top_line, minus(after, before))
        } else {
            minus(self.viewport.top_line, minus(before, after))
        };
    }
}

fn viewed(
    view: Viewport,
    action: ViewAction,
    count: usize,
    sight: Sight,
    width: usize,
    height: usize,
    last: usize,
) -> (result: (Viewport, Motion))
    requires
        height >= 1,
        sight.gutter <= width,
        sight.margin < height,
        last < usize::MAX,
    ensures
        result.0 == view_after(view, action, count, sight, width, height, last as int),
        result.1 == motion_after(view, action, count, sight, height, last as int),
{
    match action {
        ViewAction::AlignTop => (Viewport { top_line: sight.row, ..view }, Motion::Stay),
        ViewAction::AlignCenter => (
            Viewport { top_line: minus(sight.row, (height - 1) / 2), ..view },
            Motion::Stay,
        ),
        ViewAction::AlignBottom => (
            Viewport { top_line: minus(sight.row, height - 1), ..view },
            Motion::Stay,
        ),
        ViewAction::AlignMiddle => (
            Viewport { left_column: minus(sight.column, (width - sight.gutter) / 2), ..view },
            Motion::Stay,
        ),
        ViewAction::ScrollUp => scroll(view, count, false, sight, height, last),
        ViewAction::ScrollDown => scroll(view, count, true, sight, height, last),
        ViewAction::PageUp => scroll(view, height, false, sight, height, last),
        ViewAction::PageDown => scroll(view, height, true, sight, height, last),
        ViewAction::WindowTop | ViewAction::WindowCenter | ViewAction::WindowBottom => {
            let last_visible = smaller(minus(last, view.top_line), height - 1);
            let margin = smaller(sight.margin, last_visible / 2);
            let steps: usize = minus(count, 1);
            let inset = plus(margin, steps);
            let row: usize = match action {
                ViewAction::WindowTop => inset,
                ViewAction::WindowBottom => minus(last_visible, inset),
                _ => last_visible / 2,
            };
            let high: usize = last_visible - margin;
            let row: usize = if row > high {
                high
            } else if row < margin {
                margin
            } else {
                row
            };
            (view, Motion::GoTo { line: plus(plus(view.top_line, row), 1) })
        },
    }
}

fn scroll(
    view: Viewport,
    distance: usize,
    down: bool,
    sight: Sight,
    height: usize,
    last: usize,
) -> (result: (Viewport, Motion))
    requires
        sight.margin < height,
        last < usize::MAX,
    ensures
        ({
            let top = scrolled_top(view.top_line, distance, down, last as int);
            let target = pushed_to(top, height as int, sight.margin as int, down, last as int);
            &&& result.0 == (Viewport { top_line: top as usize, ..view })
            &&& result.1 == if is_pushed(sight, target, down) {
                Motion::Put { line: target as usize }
            } else {
                Motion::Stay
            }
        }),
{
    let top: usize = if down {
        smaller(plus(view.top_line, distance), last)
    } else {
        minus(view.top_line, distance)
    };
    let edge: usize = if down {
        plus(top, sight.margin)
    } else {
        plus(top, height - sight.margin - 1)
    };
    let target = smaller(edge, last);
    let pushed = if down {
        target > sight.row
    } else {
        target < sight.row || (target == sight.row && sight.line_start < sight.cursor)
    };
    (
        Viewport { top_line: top, ..view },
        if pushed { Motion::Put { line: target } } else { Motion::Stay },
    )
}

/// Scrolling never shows a part behind the end of the document, and leaves the
/// cursor on a line of it.
pub proof fn law_scrolling_stays_in_the_document(
    view: Viewport,
    action: ViewAction,
    count: usize,
    sight: Sight,
    width: usize,
    height: usize,
    last: int,
)
    requires
        action.scrolls() is Some,
        0 <= view.top_line <= last < usize::MAX,
        sight.margin < height,
    ensures
        view_after(view, action, count, sight, width, height, last).top_line <= last,
        motion_after(view, action, count, sight, height, last) matches Motion::Put { line }
            ==> line <= last,
{
}

/// A cursor that scrolling pushes ends up on a line that is shown.
pub proof fn law_a_pushed_cursor_is_shown(
    view: Viewport,
    action: ViewAction,
    count: usize,
    sight: Sight,
    width: usize,
    height: usize,
    last: int,
)
    requires
        action.scrolls() is Some,
        0 <= view.top_line <= last < usize::MAX,
        sight.margin < height,
    ensures
        motion_after(view, action, count, sight, height, last) matches Motion::Put { line } ==> {
            let top = view_after(view, action, count, sight, width, height, last).top_line;
            top <= line < top + height
        },
{
}

} // verus!
