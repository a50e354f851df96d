//! Where menus and their documentation stand beside the cursor.

use crate::app::App;
use crate::completion::{CompletionItem, Session};
use crate::effect::Effect;
use crate::layout::Rect;
use vstd::prelude::*;
use vstd::string::StringExecFns;

verus! {

/// The pane a menu is drawn in and the cursor in it.
#[derive(Clone, Copy, Debug)]
pub struct Frame {
    pub width: u16,
    pub height: u16,
    pub cursor: Option<(u16, u16)>,
}

pub open spec fn least(a: int, b: int) -> int {
    if a <= b { a } else { b }
}

pub open spec fn most(a: int, b: int) -> int {
    if a >= b { a } else { b }
}

/// The rows of the body below a cursor row.
pub open spec fn rows_below(body: u16, row: u16) -> int {
    most(body - row - 1, 0)
}

/// Whether a menu of this height goes below the cursor: it fits there, or
/// there is no more room above.
pub open spec fn goes_below(desired: u16, body: u16, row: u16) -> bool {
    rows_below(body, row) >= desired || rows_below(body, row) >= row
}

/// The height that a menu gets.
pub open spec fn menu_height(desired: u16, body: u16, row: u16) -> int {
    least(
        desired as int,
        if goes_below(desired, body, row) { rows_below(body, row) } else { row as int },
    )
}

/// Where a menu stands: directly below or above the cursor, from the column
/// before it, or nowhere where there is too little room.
pub open spec fn placed(
    width: u16,
    desired: u16,
    frame_width: u16,
    body: u16,
    cursor: (u16, u16),
) -> Option<Rect> {
    let height = menu_height(desired, body, cursor.1);
    if height < 3 || width < 8 {
        None
    } else {
        Some(
            Rect {
                x: least(most(cursor.0 - 1, 0), frame_width - width) as u16,
                y: (if goes_below(desired, body, cursor.1) {
                    cursor.1 + 1
                } else {
                    cursor.1 - height
                }) as u16,
                width,
                height: height as u16,
            },
        )
    }
}

/// Where a menu stands.
pub fn place(
    width: u16,
    desired: u16,
    frame_width: u16,
    body: u16,
    cursor: (u16, u16),
) -> (rect: Option<Rect>)
    requires
        width <= frame_width,
    ensures
        rect == placed(width, desired, frame_width, body, cursor),
{
    let (column, row) = cursor;
    let below: u16 = if body > row { body - row - 1 } else { 0 };
    let under = below >= desired || below >= row;
    let room: u16 = if under { below } else { row };
    let height: u16 = if desired <= room { desired } else { room };
    if height < 3 || width < 8 {
        return None;
    }
    let left: u16 = if column == 0 { 0 } else { column - 1 };
    let last: u16 = frame_width - width;
    let x: u16 = if left <= last { left } else { last };
    let y: u16 = if under { row + 1 } else { row - height };
    Some(Rect { x, y, width, height })
}

/// A menu never leaves its pane and never covers the row of the cursor.
pub proof fn law_a_menu_stays_beside_the_cursor(
    width: u16,
    desired: u16,
    frame_width: u16,
    body: u16,
    cursor: (u16, u16),
)
    requires
        width <= frame_width,
        placed(width, desired, frame_width, body, cursor) is Some,
    ensures
        ({
            let rect = placed(width, desired, frame_width, body, cursor)->0;
            &&& rect.x + rect.width <= frame_width
            &&& rect.y > cursor.1 && rect.y + rect.height <= body || rect.y + rect.height
                <= cursor.1
            &&& forall|x: int| !rect.has_cell(x, cursor.1 as int)
            &&& 3 <= rect.height <= desired
        }),
{
}

/// The first row of a list that shows the selected one and moves no further
/// than that takes.
pub open spec fn scrolled(top: usize, selected: usize, rows: int) -> int {
    if selected < top {
        selected as int
    } else if selected - top >= rows {
        selected + 1 - rows
    } else {
        top as int
    }
}

/// The selected row is always shown.
pub proof fn law_the_selected_row_is_shown(top: usize, selected: usize, rows: int)
    requires
        rows >= 1,
    ensures
        scrolled(top, selected, rows) <= selected < scrolled(top, selected, rows) + rows,
        top <= selected < top + rows ==> scrolled(top, selected, rows) == top,
{
}

/// The part of a list that is drawn: how many rows from `top` on.
pub open spec fn drawn_rows(len: nat, top: usize, rows: int) -> int {
    if top < len { least(rows, len - top) } else { 0 }
}

/// Documentation beside the menu, before it is broken into rows.
#[derive(Debug)]
pub struct Documentation {
    pub x: u16,
    pub width: u16,
    pub text: String,
    /// Columns and rows that the text may take up.
    pub columns: u16,
    pub rows: u16,
}

/// The menu of suggestions as it is drawn.
#[derive(Debug)]
pub struct CompletionMenu {
    pub rect: Rect,
    pub limited: bool,
    /// Whether the suggestions have not come yet.
    pub loading: bool,
    /// The suggestion on the first row, and how many rows have one.
    pub first: usize,
    pub count: usize,
    pub selected: Option<usize>,
    pub documentation: Option<Documentation>,
}

/// The columns that the menu of a session asks for.
pub open spec fn completion_width(session: Session, frame_width: u16) -> int {
    let wanted = least(session.label_width + 4, usize::MAX as int);
    least(most(24, least(wanted, 48)), frame_width as int)
}

/// The rows that the menu of a session asks for.
pub open spec fn completion_rows(session: Session) -> int {
    most(1, least(session.items@.len() as int, 10)) + 2
}

/// Where the menu of a session stands.
pub open spec fn completion_rect(session: Session, frame: Frame, body: u16) -> Option<Rect> {
    match frame.cursor {
        Some(cursor) => if session.automatic && !session.loaded {
            None
        } else {
            placed(
                completion_width(session, frame.width) as u16,
                completion_rows(session) as u16,
                frame.width,
                body,
                cursor,
            )
        },
        None => None,
    }
}

/// The session as the menu leaves it: scrolled to the selected suggestion.
pub open spec fn session_scrolled(session: Session, rect: Rect) -> Session {
    match session.selected {
        Some(index) => if index < session.items@.len() {
            Session { top: scrolled(session.top, index, rect.height - 2) as usize, ..session }
        } else {
            session
        },
        None => session,
    }
}

/// What the documentation of an item says.
pub open spec fn documentation_text(item: CompletionItem) -> Seq<char> {
    item.detail@ + (if item.detail@.len() == 0 { Seq::empty() } else { "\n\n"@ }) + (if !item.resolved
        && item.documentation@.len() == 0 {
        "Loading documentation…"@
    } else {
        item.documentation@
    })
}

/// The columns to the right of a menu, behind a gap.
pub open spec fn columns_right(rect: Rect, frame_width: u16) -> int {
    most(frame_width - rect.x - rect.width - 1, 0)
}

/// Where documentation stands: to the right of the menu where there is room
/// for it, or else to the left.
pub open spec fn documentation_columns(rect: Rect, frame_width: u16) -> Option<(int, int)> {
    let right = columns_right(rect, frame_width);
    if right >= 24 {
        Some((rect.x + rect.width + 1, least(right, 60)))
    } else if rect.x >= 25 {
        let width = least(rect.x - 1, 60);
        Some((rect.x - width - 1, width))
    } else {
        None
    }
}

/// Whether this is the documentation drawn beside a menu.
pub open spec fn is_documentation(
    session: Session,
    rect: Rect,
    frame_width: u16,
    body: u16,
    drawn: Option<Documentation>,
) -> bool {
    match (session.selected_item(), documentation_columns(rect, frame_width)) {
        (Some(item), Some((x, width))) => if documentation_text(item).len() == 0 {
            drawn is None
        } else {
            match drawn {
                Some(drawn) => {
                    &&& drawn.text@ == documentation_text(item)
                    &&& drawn.x == x
                    &&& drawn.width == width
                    &&& drawn.columns == width - 4
                    &&& drawn.rows == least(most(body - 2, 0), 14)
                },
                None => false,
            }
        },
        _ => drawn is None,
    }
}

fn beside(
    session: &Session,
    rect: Rect,
    frame_width: u16,
    body: u16,
) -> (drawn: Option<Documentation>)
    requires
        rect.x + rect.width <= frame_width,
    ensures
        is_documentation(*session, rect, frame_width, body, drawn),
{
    let index = match session.selected {
        Some(index) => index,
        None => {
            return None;
        },
    };
    if index >= session.items.len() {
        return None;
    }
    let item = &session.items[index];
    let taken: u16 = rect.x + rect.width;
    let right: u16 = if frame_width > taken { frame_width - taken - 1 } else { 0 };
    let (x, width): (u16, u16) = if right >= 24 {
        (taken + 1, if right <= 60 { right } else { 60 })
    } else if rect.x >= 25 {
        let width: u16 = if rect.x - 1 <= 60 { rect.x - 1 } else { 60 };
        (rect.x - width - 1, width)
    } else {
        return None;
    };
    let mut text = item.detail.clone();
    if !item.detail.as_str().is_empty() {
        text.append("\n\n");
    } else {
        assert(text@ =~= item.detail@ + Seq::<char>::empty());
    }
    if !item.resolved && item.documentation.as_str().is_empty() {
        text.append("Loading documentation…");
    } else {
        text.append(item.documentation.as_str());
    }
    if text.as_str().is_empty() {
        return None;
    }
    let room: u16 = if body >= 2 { body - 2 } else { 0 };
    Some(
        Documentation {
            x,
            width,
            text,
            columns: width - 4,
            rows: if room <= 14 { room } else { 14 },
        },
    )
}

/// The box of documentation that fills `lines` rows beside a menu whose first
/// row is `y`: no lower than the menu, and inside the body as far as it can
/// be.
pub fn documentation_rect(
    documentation: &Documentation,
    y: u16,
    body: u16,
    lines: usize,
) -> (rect: Rect)
    requires
        lines <= 14,
    ensures
        rect.x == documentation.x,
        rect.width == documentation.width,
        rect.height == lines + 2,
        rect.y == least(y as int, most(body - (lines + 2), 0)),
{
    let height: u16 = lines as u16 + 2;
    let lowest: u16 = if body >= height { body - height } else { 0 };
    Rect {
        x: documentation.x,
        y: if y <= lowest { y } else { lowest },
        width: documentation.width,
        height,
    }
}

/// Whether this is how the menu of a session is drawn.
pub open spec fn is_menu(
    session: Session,
    frame: Frame,
    body: u16,
    menu: Option<CompletionMenu>,
) -> bool {
    match menu {
        None => completion_rect(session, frame, body) is None,
        Some(menu) => {
            let rect = menu.rect;
            let shown = session_scrolled(session, rect);
            &&& completion_rect(session, frame, body) == Some(rect)
            &&& menu.limited == session.limited
            &&& menu.loading == !session.loaded
            &&& menu.first == shown.top
            &&& menu.count == drawn_rows(session.items@.len(), shown.top, rect.height - 2)
            &&& menu.selected == session.selected
            &&& is_documentation(session, rect, frame.width, body, menu.documentation)
        },
    }
}

/// Where the menu of a session stands.
fn menu_rect(session: &Session, frame: Frame, body: u16) -> (rect: Option<Rect>)
    ensures
        rect == completion_rect(*session, frame, body),
{
    if session.automatic && !session.loaded {
        return None;
    }
    let cursor = match frame.cursor {
        Some(cursor) => cursor,
        None => {
            return None;
        },
    };
    let len = session.items.len();
    let rows: u16 = if len == 0 {
        1
    } else if len <= 10 {
        len as u16
    } else {
        10
    };
    let wanted: u16 = if session.label_width >= 44 {
        48
    } else if session.label_width <= 20 {
        24
    } else {
        session.label_width as u16 + 4
    };
    let width: u16 = if wanted <= frame.width { wanted } else { frame.width };
    assert(width == completion_width(*session, frame.width));
    assert(rows + 2 == completion_rows(*session));
    place(width, rows + 2, frame.width, body, cursor)
}

/// Scrolls a session to its selected suggestion.
fn scroll(session: &mut Session, rect: Rect)
    requires
        rect.height >= 3,
    ensures
        *final(session) == session_scrolled(*old(session), rect),
{
    let visible: usize = (rect.height - 2) as usize;
    match session.selected {
        Some(index) => {
            if index < session.items.len() {
                if index < session.top {
                    session.top = index;
                } else if index - session.top >= visible {
                    session.top = index + 1 - visible;
                }
            }
        },
        None => {},
    }
}

/// Decides how the menu of a session is drawn, and scrolls the session to its
/// selected suggestion.
fn draw(session: &mut Session, frame: Frame, body: u16) -> (menu: Option<CompletionMenu>)
    ensures
        *final(session) == match completion_rect(*old(session), frame, body) {
            Some(rect) => session_scrolled(*old(session), rect),
            None => *old(session),
        },
        is_menu(*old(session), frame, body, menu),
{
    let rect = match menu_rect(session, frame, body) {
        Some(rect) => rect,
        None => {
            return None;
        },
    };
    let documentation = beside(session, rect, frame.width, body);
    scroll(session, rect);
    let visible: usize = (rect.height - 2) as usize;
    let top = session.top;
    let len = session.items.len();
    let count: usize = if top < len {
        if visible <= len - top { visible } else { len - top }
    } else {
        0
    };
    Some(
        CompletionMenu {
            rect,
            limited: session.limited,
            loading: !session.loaded,
            first: top,
            count,
            selected: session.selected,
            documentation,
        },
    )
}

impl App {
    /// The application after the menu of suggestions was drawn.
    pub open spec fn completion_drawn(self, frame: Frame, body: u16) -> App {
        match self.completion.active {
            Some(session) => match completion_rect(session, frame, body) {
                Some(rect) => self.with_session(session_scrolled(session, rect)),
                None => self,
            },
            None => self,
        }
    }

    /// Decides how the menu of suggestions is drawn in the body of a pane.
    pub fn paint_completion(
        &mut self,
        frame: Frame,
        body: u16,
        out: &mut Vec<Effect>,
    ) -> (menu: Option<CompletionMenu>)
        requires
            old(self).completion.valid(),
        ensures
            ({
                let app = old(self).completion_checked();
                &&& *final(self) == app.completion_drawn(frame, body)
                &&& final(out)@ == old(out)@ + old(self).check_effects()
                &&& match app.completion.active {
                    Some(session) => is_menu(session, frame, body, menu),
                    None => menu is None,
                }
            }),
            final(self).completion.valid(),
    {
        self.invalidate_completion(out);
        match &mut self.completion.active {
            Some(session) => draw(session, frame, body),
            None => None,
        }
    }
}

} // verus!
