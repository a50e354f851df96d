//! What is drawn where: menus, hints, status lines and borders.

use crate::app::App;
use crate::chrome::Names;
use crate::completion::Session;
use crate::find::lemma_is_first;
use crate::hints::{grouped, hint_area, HintSource};
use crate::layout::{Rect, WindowId};
use crate::menu::{is_menu, placed, CompletionMenu, Frame};
use crate::paint::{first_row, glyph, line_left, line_right, rows_from, vertical, Content};
use crate::windows::{find_pane, Pane, Screen};
use vstd::prelude::*;

verus! {

/// A menu goes below the cursor where it fits there or there is no more room
/// above, and above the cursor otherwise, directly beside its row; it begins in
/// the column before the cursor unless that would take it out of the pane.
pub proof fn law_menus_go_where_there_is_room(
    width: u16,
    wanted: u16,
    frame_width: u16,
    body: u16,
    cursor: (u16, u16),
)
    requires
        width <= frame_width,
        cursor.1 < body,
    ensures
        ({
            let above = cursor.1 as int;
            let below = body - cursor.1 - 1;
            let most = if above > below && below < wanted { above } else { below };
            match placed(width, wanted, frame_width, body, cursor) {
                None => width < 8 || wanted < 3 || most < 3,
                Some(rect) => {
                    &&& rect.width == width
                    &&& width >= 8
                    &&& rect.height >= 3
                    &&& rect.height == wanted || rect.height == most && most < wanted
                    &&& wanted <= below || below >= above ==> rect.y == cursor.1 + 1
                    &&& wanted > below && below < above ==> rect.y + rect.height == cursor.1
                    &&& rect.x <= cursor.0
                    &&& rect.x + 1 == cursor.0 || rect.x == 0 || rect.x + rect.width == frame_width
                    &&& rect.x + rect.width <= frame_width
                },
            }
        }),
{
}

/// The menu of suggestions shows the selected one, on consecutive rows inside its
/// border, no more than ten; documentation stands right of it where there is room
/// for it, and left of it otherwise, without touching it.
pub proof fn law_the_menu_shows_the_selected_suggestion(
    session: Session,
    frame: Frame,
    body: u16,
    menu: CompletionMenu,
)
    requires
        is_menu(session, frame, body, Some(menu)),
        session.selected matches Some(index) ==> index < session.items@.len(),
        session.top <= session.items@.len(),
        session.items@.len() <= usize::MAX,
    ensures
        frame.cursor is Some,
        session.loaded || !session.automatic,
        menu.loading == !session.loaded,
        menu.limited == session.limited,
        menu.selected == session.selected,
        menu.count <= 10,
        menu.count <= menu.rect.height - 2,
        menu.first + menu.count <= session.items@.len(),
        menu.selected matches Some(index) ==> menu.first <= index < menu.first + menu.count,
        menu.documentation matches Some(beside) ==> {
            &&& beside.width >= 24 && beside.width <= 60
            &&& beside.columns == beside.width - 4
            &&& beside.rows <= 14
            &&& beside.x == menu.rect.x + menu.rect.width + 1 && beside.x + beside.width
                <= frame.width || beside.x + beside.width + 1 == menu.rect.x
            &&& frame.width - menu.rect.x - menu.rect.width - 1 >= 24 ==> beside.x > menu.rect.x
        },
{
}

/// The status line names a commit message by its repository, a file by its path
/// and anything else as scratch.
pub proof fn law_documents_are_named_by_what_they_are(app: App, names: Names)
    ensures
        ({
            let draft = exists|i: int|
                0 <= i < app.git_write.drafts@.len() && (
                #[trigger] app.git_write.drafts@[i]).document == app.editor.document;
            let shown = app.shown_name(names);
            &&& draft ==> shown == "Git commit · "@ + names.repository@
            &&& !draft && names.path is Some ==> shown == names.path->0@
            &&& !draft && names.path is None ==> shown == "[scratch]"@
        }),
{
    let drafts = app.git_write.drafts@;
    let document = app.editor.document;
    let own = |draft: crate::git_write::Draft| draft.document == document;
    crate::find::lemma_first_where(drafts, own);
    let at = crate::git_write::find_draft(drafts, document);
    if at < drafts.len() {
        assert(own(drafts[at]));
    } else {
        assert forall|i: int| 0 <= i < drafts.len() implies (#[trigger] drafts[i]).document
            != document by {
            assert(!own(drafts[i]));
        }
    }
}

/// Hints are those of the registers while one is awaited, none in front of a prompt
/// or a picker, and those of the keys typed so far otherwise.
pub proof fn law_hints_are_for_what_comes_next(app: App)
    ensures
        ({
            let prompted = app.prompt is Some && app.prompt->0.input.register_pending;
            let picking = app.picker.active is Some && app.picker.active->0.view.register_pending;
            &&& app.hinted() == HintSource::Registers <==> prompted || picking
            &&& app.hinted() == HintSource::Keymap <==> app.prompt is None && app.picker.active
                is None
        }),
{
}

/// Every key that does something is in the hint of what it does, and every hint is
/// of some key.
pub proof fn law_hints_hold_their_keys(hints: Seq<(Seq<char>, Seq<char>)>, i: int)
    requires
        0 <= i < hints.len(),
    ensures
        exists|j: int, from: int|
            0 <= j < grouped(hints).len() && (#[trigger] grouped(hints)[j]).1 == hints[i].1
                && #[trigger] holds_at(grouped(hints)[j].0, hints[i].0, from),
        grouped(hints).len() <= hints.len(),
    decreases hints.len(),
{
    let rest = hints.drop_last();
    let before = grouped(rest);
    let (keys, description) = hints.last();
    let test = crate::hints::describes(description);
    crate::find::lemma_first_where(before, test);
    let at = crate::find::first_where(before, test);
    let all = grouped(hints);
    if rest.len() > 0 {
        law_hints_hold_their_keys(rest, 0);
    } else {
        assert(before.len() == 0);
    }
    if i < rest.len() {
        law_hints_hold_their_keys(rest, i);
        assert(rest[i] == hints[i]);
        let (j, from) = choose|j: int, from: int|
            0 <= j < before.len() && (#[trigger] before[j]).1 == rest[i].1 && #[trigger] holds_at(
                before[j].0,
                rest[i].0,
                from,
            );
        assert(all[j].1 == hints[i].1);
        if at < before.len() && j == at {
            assert(test(before[at]));
            let text = all[j].0;
            assert(text.subrange(from, from + hints[i].0.len()) =~= before[j].0.subrange(
                from,
                from + hints[i].0.len(),
            ));
        }
        assert(holds_at(all[j].0, hints[i].0, from));
    } else if at < before.len() {
        assert(test(before[at]));
        let text = before[at].0 + "/"@ + keys;
        let from = (before[at].0 + "/"@).len() as int;
        assert(text.subrange(from, from + keys.len()) =~= keys);
        assert(all[at].1 == hints[i].1);
        assert(holds_at(all[at].0, hints[i].0, from));
    } else {
        let j = before.len() as int;
        assert(all[j] == (keys, description));
        assert(keys.subrange(0, keys.len() as int) =~= keys);
        assert(holds_at(all[j].0, hints[i].0, 0));
    }
}

/// Whether a text holds another at a place.
pub open spec fn holds_at(text: Seq<char>, part: Seq<char>, from: int) -> bool {
    &&& 0 <= from
    &&& from + part.len() <= text.len()
    &&& text.subrange(from, from + part.len()) == part
}

/// The box of hints is at the right of the screen, above the command line, with
/// room for all hints where there is any.
pub proof fn law_hints_have_room(size: (u16, u16), count: nat)
    requires
        count >= 1,
    ensures
        match hint_area(size, count) {
            Some(area) => {
                &&& area.x + area.width == size.0
                &&& area.y + area.height + 1 == size.1
                &&& area.width == if size.0 < 78 { size.0 } else { 78u16 }
                &&& area.height == count + 2 || area.height < count + 2 && area.y == 0
            },
            None => size.0 < 4 || size.1 < 4,
        },
{
}

/// Borders join the lines that meet in a cell: the same lines mirrored left and
/// right, or up and down, are joined by the mirrored character, and a line that
/// only passes is straight.
pub proof fn law_borders_join_what_meets(up: bool, down: bool, left: bool, right: bool)
    ensures
        ({
            let c = glyph(up, down, left, right);
            &&& !left && !right ==> c == '│'
            &&& !up && !down ==> c == '│'
            &&& c == '┤' <==> up && down && left && !right
            &&& c == '├' <==> up && down && !left && right
            &&& c == '┴' <==> up && !down && left && right
            &&& c == '┬' <==> !up && down && left && right
            &&& c == '┼' <==> up && down && left && right
            &&& c == '┘' <==> up && !down && left && !right
            &&& c == '└' <==> up && !down && !left && right
            &&& c == '┐' <==> !up && down && left && !right
            &&& c == '┌' <==> !up && down && !left && right
        }),
{
}

/// A divider is drawn over its whole height, one character on each row, and on the
/// row above it where the status line of a wider pane runs there.
pub proof fn law_dividers_are_drawn_whole(
    panes: Seq<(WindowId, Rect)>,
    dividers: Seq<Rect>,
    divider: Rect,
    above: bool,
    i: int,
)
    requires
        divider.y + divider.height <= u16::MAX,
    ensures
        ({
            let first = if above && divider.y > 0 { divider.y - 1 } else { divider.y as int };
            let rows = rows_from(panes, dividers, divider, first_row(divider, above));
            &&& rows.len() == divider.y + divider.height - first
            &&& 0 <= i < rows.len() ==> {
                let cell = rows[i];
                let up = first + i > 0 && vertical(dividers, divider.x as int, first + i - 1);
                let down = vertical(dividers, divider.x as int, first + i + 1);
                &&& cell.x == divider.x
                &&& cell.y == first + i
                &&& cell.glyph == glyph(
                    up,
                    down,
                    line_left(panes, divider.x as int, first + i),
                    line_right(panes, divider.x as int, first + i),
                )
            }
        }),
{
    lemma_rows(panes, dividers, divider, first_row(divider, above), i);
}

proof fn lemma_rows(
    panes: Seq<(WindowId, Rect)>,
    dividers: Seq<Rect>,
    divider: Rect,
    y: int,
    i: int,
)
    requires
        divider.y + divider.height <= u16::MAX,
        0 <= y <= divider.y + divider.height,
    ensures
        ({
            let rows = rows_from(panes, dividers, divider, y);
            &&& rows.len() == divider.y + divider.height - y
            &&& 0 <= i < rows.len() ==> rows[i].x == divider.x && rows[i].y == y + i && rows[i].glyph
                == crate::paint::junction(panes, dividers, divider.x as int, y + i)
        }),
    decreases divider.y + divider.height - y,
{
    if y < divider.y + divider.height {
        lemma_rows(panes, dividers, divider, y + 1, i - 1);
    }
}

/// The active window draws its document with the menus, and another one the
/// repository in front of its document, or else the document.
pub proof fn law_windows_draw_what_they_show(screen: Screen, id: WindowId, at: int)
    requires
        0 <= at < screen.panes.len(),
        screen.panes[at].id == id,
        forall|i: int| 0 <= i < at ==> (#[trigger] screen.panes[i]).id != id,
    ensures
        match screen.content(id) {
            Content::Active => id == screen.app.windows.layout.active,
            Content::Git(root) => id != screen.app.windows.layout.active && screen.panes[at].git
                == Some(root),
            Content::Document(document, view) => id != screen.app.windows.layout.active
                && screen.panes[at].git is None && document == screen.panes[at].document && view
                == screen.panes[at].view,
        },
{
    let test = |pane: Pane| pane.id == id;
    assert forall|i: int| 0 <= i < at implies !test(#[trigger] screen.panes[i]) by {}
    lemma_is_first(screen.panes, test, at);
    assert(find_pane(screen.panes, id) == at);
}

} // verus!
