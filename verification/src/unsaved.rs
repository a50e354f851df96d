//! Unsaved changes are lost only where the user says so.

use crate::jumps::{find_trail, has_trail, lemma_has_trail, mentions, trail_of};
use crate::layout::WindowId;
use crate::selection::DocumentId;
use crate::windows::{
    find_buffer, find_pane, has_pane, lemma_alone, lemma_focused_pane, lemma_has_buffer,
    lemma_has_pane, lemma_parted, lemma_refocused, lemma_remembered, lemma_replaced,
    lemma_successor, lemma_views_remove, lemma_views_same, pane_of, taken, views, Buffer, Prepared,
    Screen,
};
use vstd::prelude::*;

verus! {

/// Whether a document is open with unsaved changes.
pub open spec fn unsaved(screen: Screen, document: DocumentId) -> bool {
    (screen.app.editor.document == document && screen.app.editor.dirty) || unsaved_buffer(
        screen.buffers,
        document,
    )
}

/// Whether a document that is not the active one has unsaved changes.
pub open spec fn unsaved_buffer(buffers: Seq<Buffer>, document: DocumentId) -> bool {
    exists|i: int|
        0 <= i < buffers.len() && (#[trigger] buffers[i]).editor.document == document
            && buffers[i].editor.dirty
}

/// Taking one document out of the buffers keeps the others.
proof fn lemma_buffers_without(buffers: Seq<Buffer>, at: int, document: DocumentId)
    requires
        0 <= at < buffers.len(),
        unsaved_buffer(buffers, document),
    ensures
        unsaved_buffer(buffers.remove(at), document) || buffers[at].editor.document == document
            && buffers[at].editor.dirty,
{
    let i = choose|i: int|
        0 <= i < buffers.len() && (#[trigger] buffers[i]).editor.document == document
            && buffers[i].editor.dirty;
    if i < at {
        assert(buffers.remove(at)[i] == buffers[i]);
    } else if i > at {
        assert(buffers.remove(at)[i - 1] == buffers[i]);
    }
}

/// One more document keeps the others.
proof fn lemma_buffers_with(buffers: Seq<Buffer>, buffer: Buffer, document: DocumentId)
    requires
        unsaved_buffer(buffers, document) || buffer.editor.document == document
            && buffer.editor.dirty,
    ensures
        unsaved_buffer(buffers.push(buffer), document),
{
    if unsaved_buffer(buffers, document) {
        let i = choose|i: int|
            0 <= i < buffers.len() && (#[trigger] buffers[i]).editor.document == document
                && buffers[i].editor.dirty;
        assert(buffers.push(buffer)[i] == buffers[i]);
    } else {
        assert(buffers.push(buffer)[buffers.len() as int] == buffer);
    }
}

/// Moving the focus keeps every unsaved change.
pub proof fn law_focus_keeps_unsaved_changes(screen: Screen, id: WindowId, document: DocumentId)
    requires
        screen.valid(),
        has_pane(screen.panes, id),
        unsaved(screen, document),
    ensures
        unsaved(screen.refocused(id), document),
{
    reveal(Screen::refocused);
    let kept = screen.remembered();
    lemma_remembered(screen);
    lemma_has_pane(kept.panes, id);
    let shown = pane_of(kept.panes, id).document;
    if shown != screen.app.editor.document {
        let at = find_buffer(screen.buffers, shown);
        lemma_has_buffer(screen.buffers, shown);
        let rest = screen.buffers.remove(at);
        let old = Buffer {
            editor: screen.app.editor,
            automatic_language: screen.app.automatic_language,
        };
        if unsaved_buffer(screen.buffers, document) {
            lemma_buffers_without(screen.buffers, at, document);
        }
        if !(screen.buffers[at].editor.document == document && screen.buffers[at].editor.dirty) {
            lemma_buffers_with(rest, old, document);
        }
    }
}

/// Closing a window without force keeps every unsaved change: it is refused for
/// the last view of a document that has any, unless that is a commit message,
/// which stays open.
pub proof fn law_closing_keeps_unsaved_changes(screen: Screen, document: DocumentId)
    requires
        screen.valid(),
        !screen.would_lose(),
        screen.app.windows.layout.root.leaves().len() > 1,
        unsaved(screen, document),
    ensures
        unsaved(
            screen.refocused(screen.successor()).without_window(screen.app.window()),
            document,
        ),
{
    let id = screen.app.window();
    let next = screen.refocused(screen.successor());
    lemma_successor(screen);
    law_focus_keeps_unsaved_changes(screen, screen.successor(), document);
    lemma_refocused(screen, screen.successor());
    lemma_focused_pane(screen);
    reveal(Screen::refocused);
    reveal(Screen::without_window);
    let kept = screen.remembered();
    lemma_remembered(screen);
    lemma_has_pane(kept.panes, id);
    assert(next.panes == kept.panes);
    let at = find_pane(next.panes, id);
    let left = pane_of(next.panes, id).document;
    let panes = next.panes.remove(at);
    assert(left == screen.app.editor.document);
    if next.closes_with(id) {
        lemma_views_remove(next.panes, at, left);
        lemma_views_same(screen.panes, kept.panes, left);
        assert(views(screen.panes, left) <= 1);
        assert(!screen.app.editor.dirty);
        let gone = find_buffer(next.buffers, left);
        if unsaved_buffer(next.buffers, document) {
            lemma_closed_buffer(screen, next, left);
            lemma_buffers_without(next.buffers, gone, document);
        }
    }
}

/// The document that lost the focus stands among the buffers as it was.
proof fn lemma_closed_buffer(screen: Screen, next: Screen, left: DocumentId)
    requires
        screen.valid(),
        has_pane(screen.panes, screen.successor()),
        next == screen.refocused(screen.successor()),
        next.valid(),
        left == screen.app.editor.document,
        left != next.app.editor.document,
    ensures
        0 <= find_buffer(next.buffers, left) < next.buffers.len(),
        next.buffers[find_buffer(next.buffers, left)].editor == screen.app.editor,
{
    reveal(Screen::refocused);
    let last = next.buffers.len() - 1;
    assert(next.buffers[last].editor == screen.app.editor);
    assert(crate::windows::has_buffer(next.buffers, left));
    lemma_has_buffer(next.buffers, left);
    let found = find_buffer(next.buffers, left);
    if found != last {
        assert(next.buffers[found].editor.document != next.buffers[last].editor.document);
    }
}

/// Leaving one window alone without force keeps every unsaved change: it is
/// refused where another document has any, unless that is a commit message,
/// which stays open.
pub proof fn law_being_alone_keeps_unsaved_changes(screen: Screen, document: DocumentId)
    requires
        screen.valid(),
        !screen.others_at_stake(),
        unsaved(screen, document),
    ensures
        unsaved(screen.alone(), document),
{
    reveal(Screen::alone);
    if unsaved_buffer(screen.buffers, document) {
        let i = choose|i: int|
            0 <= i < screen.buffers.len() && (#[trigger] screen.buffers[i]).editor.document
                == document && screen.buffers[i].editor.dirty;
        assert(screen.retains(document));
        lemma_alone_retains(screen, i);
    }
}

/// Leaving one window alone keeps every commit message.
proof fn lemma_alone_retains(screen: Screen, i: int)
    requires
        screen.valid(),
        0 <= i < screen.buffers.len(),
        screen.retains(screen.buffers[i].editor.document),
    ensures
        exists|j: int|
            0 <= j < screen.alone().buffers.len() && #[trigger] screen.alone().buffers[j]
                == screen.buffers[i],
{
    reveal(Screen::alone);
    lemma_parted(seq![], screen.buffers, screen.app.git_write.drafts@);
    let kept = screen.alone().buffers;
    assert(kept.contains(screen.buffers[i]));
    let j = choose|j: int| 0 <= j < kept.len() && kept[j] == screen.buffers[i];
    assert(kept[j] == screen.buffers[i]);
}

/// A window that shows a commit message may always be closed while there is
/// another, and the message stays open as it was.
pub proof fn law_closing_a_commit_message_keeps_it(screen: Screen)
    requires
        screen.valid(),
        screen.retains(screen.app.editor.document),
        screen.app.windows.layout.root.leaves().len() > 1,
    ensures
        !screen.would_lose(),
        ({
            let after = screen.refocused(screen.successor()).without_window(screen.app.window());
            let document = screen.app.editor.document;
            let at = find_buffer(after.buffers, document);
            &&& document != after.app.editor.document ==> 0 <= at < after.buffers.len()
                && after.buffers[at].editor == screen.app.editor
            &&& document == after.app.editor.document ==> after.app.editor == screen.app.editor
        }),
{
    reveal(Screen::refocused);
    reveal(Screen::without_window);
    let id = screen.app.window();
    let next = screen.refocused(screen.successor());
    lemma_successor(screen);
    lemma_refocused(screen, screen.successor());
    lemma_remembered(screen);
    lemma_focused_pane(screen);
    assert(next.panes == screen.remembered().panes);
    assert(pane_of(next.panes, id).document == screen.app.editor.document);
    assert(!next.closes_with(id));
    if next.app.editor.document != screen.app.editor.document {
        lemma_closed_buffer(screen, next, screen.app.editor.document);
    }
}

/// A commit message that another window showed, or none, stays open as it was
/// when one window is left alone.
pub proof fn law_being_alone_keeps_commit_messages(screen: Screen, i: int)
    requires
        screen.valid(),
        0 <= i < screen.buffers.len(),
        screen.retains(screen.buffers[i].editor.document),
    ensures
        ({
            let after = screen.alone();
            let at = find_buffer(after.buffers, screen.buffers[i].editor.document);
            &&& 0 <= at < after.buffers.len()
            &&& after.buffers[at] == screen.buffers[i]
        }),
{
    let after = screen.alone();
    let document = screen.buffers[i].editor.document;
    lemma_alone(screen);
    lemma_alone_retains(screen, i);
    let j = choose|j: int|
        0 <= j < after.buffers.len() && #[trigger] after.buffers[j] == screen.buffers[i];
    assert(after.buffers[j].editor.document == document);
    assert(crate::windows::has_buffer(after.buffers, document));
    lemma_has_buffer(after.buffers, document);
    let at = find_buffer(after.buffers, document);
    if at < j {
        assert(after.buffers[at].editor.document != after.buffers[j].editor.document);
    } else if at > j {
        assert(after.buffers[j].editor.document != after.buffers[at].editor.document);
    }
}

/// Showing another document keeps every unsaved change.
pub proof fn law_opening_keeps_unsaved_changes(
    screen: Screen,
    prepared: Prepared,
    document: DocumentId,
)
    requires
        screen.valid(),
        screen.accepts(prepared),
        unsaved(screen, document),
    ensures
        unsaved(screen.replaced(prepared), document),
{
    reveal(Screen::replaced);
    reveal(Screen::keeps_document);
    if !screen.shows(prepared) {
        let (buffer, rest) = taken(screen.buffers, prepared);
        let old = Buffer {
            editor: screen.app.editor,
            automatic_language: screen.app.automatic_language,
        };
        match prepared {
            Prepared::Existing(id) => {
                lemma_has_buffer(screen.buffers, id);
                let at = find_buffer(screen.buffers, id);
                if unsaved_buffer(screen.buffers, document) {
                    lemma_buffers_without(screen.buffers, at, document);
                }
            },
            Prepared::New(_) => {},
        }
        let kept = buffer.editor.document == document && buffer.editor.dirty;
        if !kept && screen.keeps_document() {
            lemma_buffers_with(rest, old, document);
        }
    }
}

/// The unsaved document or commit message that was left for another stays open
/// as it was, though no window shows it.
pub proof fn law_the_unsaved_document_left_is_kept(screen: Screen, prepared: Prepared)
    requires
        screen.valid(),
        screen.accepts(prepared),
        !screen.shows(prepared),
        screen.app.editor.dirty || screen.retains(screen.app.editor.document),
    ensures
        ({
            let after = screen.replaced(prepared);
            let at = find_buffer(after.buffers, screen.app.editor.document);
            &&& 0 <= at < after.buffers.len()
            &&& after.buffers[at].editor == screen.app.editor
        }),
{
    reveal(Screen::replaced);
    reveal(Screen::keeps_document);
    lemma_replaced(screen, prepared);
    let after = screen.replaced(prepared);
    let last = after.buffers.len() - 1;
    assert(after.buffers[last].editor == screen.app.editor);
    assert(crate::windows::has_buffer(after.buffers, screen.app.editor.document));
    lemma_has_buffer(after.buffers, screen.app.editor.document);
    let at = find_buffer(after.buffers, screen.app.editor.document);
    if at != last {
        assert(after.buffers[at].editor.document != after.buffers[last].editor.document);
    }
}

/// Going back to the unsaved document that was left shows it as it was.
pub proof fn law_going_back_shows_the_unsaved_document(screen: Screen, prepared: Prepared)
    requires
        screen.valid(),
        screen.accepts(prepared),
        !screen.shows(prepared),
        screen.app.editor.dirty,
    ensures
        ({
            let left = screen.replaced(prepared);
            let back = Prepared::Existing(screen.app.editor.document);
            &&& left.accepts(back)
            &&& left.replaced(back).app.editor == screen.app.editor
        }),
{
    law_the_unsaved_document_left_is_kept(screen, prepared);
    lemma_replaced(screen, prepared);
    let left = screen.replaced(prepared);
    let at = find_buffer(left.buffers, screen.app.editor.document);
    assert(left.buffers[at].editor.document == screen.app.editor.document);
    assert(crate::windows::has_buffer(left.buffers, screen.app.editor.document));
    assert(left.app.editor.document != screen.app.editor.document);
    reveal(Screen::replaced);
    reveal(Screen::keeps_document);
}

/// A document that a checkpoint was recorded in stays open when it is left.
pub proof fn law_recorded_places_stay_open(screen: Screen, prepared: Prepared)
    requires
        screen.valid(),
        screen.accepts(prepared),
        !screen.shows(prepared),
    ensures
        ({
            let after = screen.recorded(screen.spot()).replaced(prepared);
            crate::windows::has_buffer(after.buffers, screen.app.editor.document)
        }),
{
    reveal(Screen::replaced);
    reveal(Screen::keeps_document);
    let id = screen.app.window();
    let recorded = screen.recorded(screen.spot());
    lemma_focused_pane(screen);
    assert(has_trail(screen.trails, id));
    lemma_has_trail(screen.trails, id);
    let at = find_trail(screen.trails, id);
    let trail = trail_of(screen.trails, id);
    let pushed = trail.pushed(screen.spot());
    assert(screen.trails[at].1.valid());
    assert(recorded.trails[at].1 == pushed);
    assert(pushed.entries.last().document == screen.app.editor.document);
    assert(pushed.mentions(screen.app.editor.document));
    assert(mentions(recorded.trails, screen.app.editor.document));
    let after = recorded.replaced(prepared);
    let last = after.buffers.len() - 1;
    assert(after.buffers[last].editor == screen.app.editor);
}

/// A jump back from the end of a history leaves the way forth open: the
/// document that it starts from stays open.
pub proof fn law_jumping_back_keeps_the_document_left(
    screen: Screen,
    count: nat,
    target: DocumentId,
)
    requires
        screen.valid(),
        trail_of(screen.trails, screen.app.window()).at_end(),
        trail_of(screen.trails, screen.app.window()).back(screen.spot(), count) is Some,
        crate::windows::has_buffer(screen.buffers, target),
        target != screen.app.editor.document,
    ensures
        ({
            let history = trail_of(screen.trails, screen.app.window()).after_back(
                screen.spot(),
                count,
            );
            let after = screen.reached(history, target);
            crate::windows::has_buffer(after.buffers, screen.app.editor.document)
        }),
{
    reveal(Screen::replaced);
    reveal(Screen::keeps_document);
    let id = screen.app.window();
    lemma_focused_pane(screen);
    assert(has_trail(screen.trails, id));
    lemma_has_trail(screen.trails, id);
    let at = find_trail(screen.trails, id);
    let trail = trail_of(screen.trails, id);
    let pushed = trail.pushed(screen.spot());
    let history = trail.after_back(screen.spot(), count);
    assert(screen.trails[at].1.valid());
    assert(history.entries == pushed.entries);
    assert(pushed.entries.last().document == screen.app.editor.document);
    assert(history.mentions(screen.app.editor.document));
    let moved = screen.heading(history);
    assert(moved.trails[at].1 == history);
    assert(mentions(moved.trails, screen.app.editor.document));
    let after = moved.replaced(Prepared::Existing(target));
    let last = after.buffers.len() - 1;
    assert(after.buffers[last].editor == screen.app.editor);
}

/// Quitting without force, or closing the last window, is refused while anything
/// is unsaved.
pub proof fn law_quitting_keeps_unsaved_changes(screen: Screen, document: DocumentId)
    requires
        unsaved(screen, document),
    ensures
        screen.app.editor.dirty || screen.others_dirty(),
{
}

} // verus!
