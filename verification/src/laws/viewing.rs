//! View commands by what is shown before and after them.

use crate::app::App;
use crate::layout::{pane_of, Rect};
use crate::view::{half_page_scrolled, view_moved, Motion, Sight, ViewAction};
use vstd::prelude::*;

verus! {

/// Whether text is shown in this part of the active window: its lowest row is
/// the status line.
pub open spec fn shows_text(app: App, pane: Rect) -> bool {
    &&& pane_of(app.windows.layout.shown(app.area()), app.window()) == Some(pane)
    &&& pane.height >= 2
    &&& pane.width >= 1
    &&& app.editor.lines >= 1
}

/// Aligning shows the cursor's line first, last or halfway down, and its column
/// halfway across the text, except where that would begin before the start of
/// the document. Neither the cursor nor the other direction moves.
pub proof fn law_aligning_puts_the_cursor_where_it_says(
    before: App,
    action: ViewAction,
    count: usize,
    sight: Sight,
    motion: Option<Motion>,
    after: App,
    pane: Rect,
)
    requires
        shows_text(before, pane),
        view_moved(before, action, count, sight, motion, after),
        sight.gutter <= pane.width,
    ensures
        action == ViewAction::AlignTop || action == ViewAction::AlignCenter || action
            == ViewAction::AlignBottom ==> {
            let above = sight.row - after.viewport.top_line;
            let below = after.viewport.top_line + pane.height - 2 - sight.row;
            &&& motion == Some(Motion::Stay)
            &&& above >= 0 && below >= 0
            &&& after.viewport.left_column == before.viewport.left_column
            &&& action == ViewAction::AlignTop ==> above == 0
            &&& action == ViewAction::AlignBottom && after.viewport.top_line > 0 ==> below == 0
            &&& action == ViewAction::AlignCenter ==> above <= below
            &&& action == ViewAction::AlignCenter && after.viewport.top_line > 0 ==> below - above
                <= 1
        },
        action == ViewAction::AlignMiddle ==> {
            let left = sight.column - after.viewport.left_column;
            let right = after.viewport.left_column + pane.width - sight.gutter - sight.column;
            &&& motion == Some(Motion::Stay)
            &&& after.viewport.top_line == before.viewport.top_line
            &&& 0 <= left <= right
            &&& after.viewport.left_column > 0 ==> right - left <= 1
        },
        after == (App { viewport: after.viewport, ..before }),
{
}

/// Scrolling down shows later lines and scrolling up earlier ones, as many lines
/// as asked for or, a page at a time, as many as are shown; it ends with the last
/// line at the top or with the first one.
pub proof fn law_scrolling_goes_the_way_it_says(
    before: App,
    action: ViewAction,
    count: usize,
    sight: Sight,
    motion: Option<Motion>,
    after: App,
    pane: Rect,
)
    requires
        shows_text(before, pane),
        view_moved(before, action, count, sight, motion, after),
        before.viewport.top_line < before.editor.lines,
    ensures
        after.viewport.top_line < before.editor.lines || action == ViewAction::AlignTop || action
            == ViewAction::AlignCenter || action == ViewAction::AlignBottom,
        action == ViewAction::ScrollDown || action == ViewAction::PageDown ==> {
            let lines = if action == ViewAction::PageDown { pane.height - 1 } else { count as int };
            &&& before.viewport.top_line <= after.viewport.top_line
            &&& after.viewport.top_line - before.viewport.top_line <= lines
            &&& after.viewport.top_line - before.viewport.top_line < lines
                ==> after.viewport.top_line + 1 == before.editor.lines
            &&& after.viewport.left_column == before.viewport.left_column
        },
        action == ViewAction::ScrollUp || action == ViewAction::PageUp ==> {
            let lines = if action == ViewAction::PageUp { pane.height - 1 } else { count as int };
            &&& after.viewport.top_line <= before.viewport.top_line
            &&& before.viewport.top_line - after.viewport.top_line <= lines
            &&& before.viewport.top_line - after.viewport.top_line < lines
                ==> after.viewport.top_line == 0
            &&& after.viewport.left_column == before.viewport.left_column
        },
        after == (App { viewport: after.viewport, ..before }),
{
}

/// Scrolling leaves the cursor alone while its line is inside the margins of
/// what is shown, and takes it to the nearest line that is where it is not. At
/// the lower margin it takes it to the start of that line.
pub proof fn law_scrolling_takes_the_cursor_along(
    before: App,
    action: ViewAction,
    count: usize,
    sight: Sight,
    motion: Option<Motion>,
    after: App,
    pane: Rect,
)
    requires
        shows_text(before, pane),
        view_moved(before, action, count, sight, motion, after),
        before.viewport.top_line < before.editor.lines,
        sight.row < before.editor.lines,
        sight.line_start <= sight.cursor,
        sight.margin < pane.height - 1,
        action == ViewAction::ScrollDown || action == ViewAction::PageDown || action
            == ViewAction::ScrollUp || action == ViewAction::PageUp,
    ensures
        ({
            let down = action == ViewAction::ScrollDown || action == ViewAction::PageDown;
            let first = after.viewport.top_line + sight.margin;
            let last = after.viewport.top_line + pane.height - 2 - sight.margin;
            match motion {
                Some(Motion::Stay) => if down {
                    sight.row >= first || sight.row + 1 == before.editor.lines
                } else {
                    sight.row <= last
                },
                Some(Motion::Put { line }) => {
                    &&& line < before.editor.lines
                    &&& down ==> sight.row < line && (line == first || line + 1
                        == before.editor.lines && line < first)
                    &&& !down ==> line <= sight.row && (line == last || line + 1
                        == before.editor.lines && line < last)
                    &&& line == sight.row ==> sight.line_start < sight.cursor
                },
                _ => false,
            }
        }),
{
}

/// The cursor goes to the first line inside the margin, the last one or the one
/// between, of those that are shown; a count goes further in from the edge. What
/// is shown stays.
pub proof fn law_window_lines_are_where_they_say(
    before: App,
    action: ViewAction,
    count: usize,
    sight: Sight,
    motion: Option<Motion>,
    after: App,
    pane: Rect,
)
    requires
        shows_text(before, pane),
        view_moved(before, action, count, sight, motion, after),
        before.viewport.top_line < before.editor.lines,
        before.editor.lines < usize::MAX,
        action == ViewAction::WindowTop || action == ViewAction::WindowCenter || action
            == ViewAction::WindowBottom,
    ensures
        after == before,
        motion matches Some(Motion::GoTo { line }) && {
            let top = before.viewport.top_line + 1;
            let bottom = if before.editor.lines < top + pane.height - 2 {
                before.editor.lines as int
            } else {
                top + pane.height - 2
            };
            let steps = if count == 0 { 0 } else { count - 1 };
            let above = line - top;
            let below = bottom - line;
            &&& above >= 0 && below >= 0
            &&& above >= sight.margin || above + 1 >= below
            &&& below >= sight.margin || below + 1 >= above
            &&& action == ViewAction::WindowCenter ==> above <= below <= above + 1
            &&& action == ViewAction::WindowTop && 2 * (sight.margin + steps) <= bottom - top
                ==> above == sight.margin + steps
            &&& action == ViewAction::WindowBottom && 2 * (sight.margin + steps) <= bottom - top
                ==> below == sight.margin + steps
        },
{
}

/// Half a page is half of the rows that show text, and no less than one line.
pub proof fn law_half_a_page_is_half_of_what_is_shown(height: u16, count: usize)
    requires
        height >= 2,
        count < 0x10000,
    ensures
        ({
            let distance = App::half_pages(height, count);
            let rows = height - 1;
            &&& rows == 1 ==> distance == count
            &&& rows > 1 && rows % 2 == 0 ==> 2 * distance == rows * count
            &&& rows > 1 && rows % 2 == 1 ==> 2 * distance == (rows - 1) * count
        }),
{
    let half = (height - 1) / 2;
    assert(0 <= half * count <= 0xffff * 0x10000) by (nonlinear_arith)
        requires
            0 <= half < 0x10000,
            0 <= count < 0x10000,
    ;
    assert(2 * (half * count) == (2 * half) * count) by (nonlinear_arith);
}

/// The view follows half a page the way the cursor went, line by line, as long
/// as there are lines.
pub proof fn law_half_pages_keep_the_cursor_on_its_row(
    before: App,
    down: bool,
    from: usize,
    to: usize,
    after: App,
)
    requires
        half_page_scrolled(before, down, from, to, after),
        before.viewport.top_line + to <= usize::MAX,
    ensures
        after == (App { viewport: after.viewport, ..before }),
        after.viewport.left_column == before.viewport.left_column,
        down && from <= to ==> to - after.viewport.top_line == from - before.viewport.top_line,
        !down && to <= from && (before.viewport.top_line >= from - to) ==> to
            - after.viewport.top_line == from - before.viewport.top_line,
        !down && to <= from && before.viewport.top_line < from - to ==> after.viewport.top_line
            == 0,
        down && to < from || !down && from < to ==> after == before,
{
}

} // verus!
