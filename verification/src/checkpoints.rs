//! Checkpoints lead to documents that are open: a document that is closed takes
//! its checkpoints along.

use crate::app::App;
use crate::editor::Editor;
use crate::jumps::{
    find_trail, has_trail, lemma_has_trail, lemma_trails_without, mentions, trail_of, without_trail,
    Spot, Trail, Trails,
};
use crate::layout::{Axis, WindowId};
use crate::selection::DocumentId;
use crate::startup::fresh;
use crate::windows::{
    find_buffer, find_pane, has_buffer, has_pane, lemma_focused_pane, lemma_has_buffer,
    lemma_has_pane, lemma_parted, lemma_refocused, lemma_remembered, lemma_successor, lemma_widened,
    pane_of, taken, Prepared, Screen,
};
use vstd::prelude::*;

verus! {

/// Whether every checkpoint leads to a document that is open.
pub open spec fn connected(screen: Screen) -> bool {
    forall|document: DocumentId| #[trigger]
        mentions(screen.trails, document) ==> screen.is_open(document)
}

/// Whether no checkpoint leads to a document that was closed on the way from one
/// screen to another, and checkpoints lead nowhere new.
pub open spec fn parted(before: Screen, after: Screen) -> bool {
    forall|document: DocumentId| #[trigger]
        mentions(after.trails, document) ==> mentions(before.trails, document) && (before.is_open(
            document,
        ) ==> after.is_open(document))
}

/// Moving the focus opens and closes nothing.
proof fn lemma_refocused_open(screen: Screen, id: WindowId, document: DocumentId)
    requires
        screen.valid(),
        has_pane(screen.panes, id),
    ensures
        screen.is_open(document) <==> screen.refocused(id).is_open(document),
        screen.refocused(id).trails == screen.trails,
{
    reveal(Screen::refocused);
    let kept = screen.remembered();
    lemma_remembered(screen);
    lemma_has_pane(kept.panes, id);
    let shown = pane_of(kept.panes, id).document;
    let after = screen.refocused(id);
    let old = screen.app.editor.document;
    if shown != old {
        let at = find_buffer(screen.buffers, shown);
        lemma_has_buffer(screen.buffers, shown);
        let last = after.buffers.len() - 1;
        assert(after.buffers[last].editor.document == old);
        if document != old && document != shown {
            if has_buffer(screen.buffers, document) {
                let k = choose|k: int|
                    0 <= k < screen.buffers.len() && (#[trigger] screen.buffers[k]).editor.document
                        == document;
                assert(after.buffers[if k < at { k } else { k - 1 }].editor.document == document);
            }
            if has_buffer(after.buffers, document) {
                let k = choose|k: int|
                    0 <= k < after.buffers.len() && (#[trigger] after.buffers[k]).editor.document
                        == document;
                assert(screen.buffers[if k < at { k } else { k + 1 }].editor.document == document);
            }
        }
    }
}

/// Taking away the history of a pane leads nowhere new.
proof fn lemma_without_trail(trails: Trails, id: WindowId, document: DocumentId)
    requires
        has_trail(trails, id),
        mentions(without_trail(trails, id), document),
    ensures
        mentions(trails, document),
{
    lemma_has_trail(trails, id);
    let at = find_trail(trails, id);
    let after = without_trail(trails, id);
    let i = choose|i: int| 0 <= i < after.len() && #[trigger] after[i].1.mentions(document);
    assert(trails[if i < at { i } else { i + 1 }].1.mentions(document));
}

/// A window that closes leaves no dangling checkpoint: where its document is
/// closed with it, no history leads there any more.
pub proof fn law_closing_leaves_no_dangling_checkpoint(screen: Screen)
    requires
        screen.valid(),
        screen.app.windows.layout.root.leaves().len() > 1,
    ensures
        ({
            let after = screen.refocused(screen.successor()).without_window(screen.app.window());
            parted(screen, after) && (connected(screen) ==> connected(after))
        }),
{
    let id = screen.app.window();
    let next = screen.refocused(screen.successor());
    let after = next.without_window(id);
    lemma_successor(screen);
    lemma_refocused(screen, screen.successor());
    lemma_focused_pane(screen);
    lemma_remembered(screen);
    assert(has_pane(next.panes, id)) by {
        reveal(Screen::refocused);
        assert(next.panes == screen.remembered().panes);
    }
    assert(has_trail(next.trails, id));
    let document = pane_of(next.panes, id).document;
    let closes = next.closes_with(id);
    let rest = without_trail(next.trails, id);
    lemma_has_pane(next.panes, id);
    assert(next.panes[find_pane(next.panes, id)].document == next.app.editor.document
        || has_buffer(next.buffers, document));
    reveal(Screen::without_window);
    if closes {
        assert(crate::jumps::trails_valid(rest)) by {
            lemma_has_trail(next.trails, id);
            let lost = find_trail(next.trails, id);
            assert forall|i: int| 0 <= i < rest.len() implies (#[trigger] rest[i]).1.valid() by {
                assert(rest[i] == next.trails[if i < lost { i } else { i + 1 }]);
            }
        }
        lemma_trails_without(rest, document);
    }
    assert forall|any: DocumentId| #[trigger] mentions(after.trails, any) implies mentions(
        screen.trails,
        any,
    ) && (screen.is_open(any) ==> after.is_open(any)) by {
        lemma_refocused_open(screen, screen.successor(), any);
        assert(mentions(rest, any));
        lemma_without_trail(next.trails, id, any);
        if screen.is_open(any) && closes {
            assert(any != document);
            let gone = find_buffer(next.buffers, document);
            lemma_has_buffer(next.buffers, document);
            if any != next.app.editor.document {
                let k = choose|k: int|
                    0 <= k < next.buffers.len() && (#[trigger] next.buffers[k]).editor.document
                        == any;
                assert(after.buffers[if k < gone { k } else { k - 1 }].editor.document == any);
            }
        }
    }
}

/// Leaving one window alone leaves no dangling checkpoint: no history leads to
/// a document that is closed.
pub proof fn law_being_alone_leaves_no_dangling_checkpoint(screen: Screen)
    requires
        screen.valid(),
    ensures
        parted(screen, screen.alone()),
        connected(screen) ==> connected(screen.alone()),
{
    reveal(Screen::alone);
    let after = screen.alone();
    let id = screen.app.window();
    let own = seq![(id, trail_of(screen.trails, id))];
    let drafts = screen.app.git_write.drafts@;
    lemma_focused_pane(screen);
    assert(has_trail(screen.trails, id));
    lemma_has_trail(screen.trails, id);
    let at = find_trail(screen.trails, id);
    assert(own[0].1 == screen.trails[at].1);
    lemma_parted(own, screen.buffers, drafts);
    assert forall|any: DocumentId| #[trigger] mentions(after.trails, any) implies mentions(
        screen.trails,
        any,
    ) && (screen.is_open(any) ==> after.is_open(any)) by {
        assert(mentions(own, any));
        assert(screen.trails[at].1.mentions(any));
        if screen.is_open(any) && any != screen.app.editor.document {
            let k = choose|k: int|
                0 <= k < screen.buffers.len() && (#[trigger] screen.buffers[k]).editor.document
                    == any;
            assert(after.buffers.contains(screen.buffers[k]));
            let j = choose|j: int|
                0 <= j < after.buffers.len() && after.buffers[j] == screen.buffers[k];
            assert(after.buffers[j].editor.document == any);
        }
    }
}

/// What is open once the active window shows another document: that one, and
/// all that was open before but for the document left, where there is no reason
/// to keep it.
proof fn lemma_replaced_open(screen: Screen, prepared: Prepared, document: DocumentId)
    requires
        screen.valid(),
        screen.accepts(prepared),
        screen.is_open(document),
        document != screen.app.editor.document || screen.keeps_document(),
    ensures
        screen.replaced(prepared).is_open(document),
{
    reveal(Screen::replaced);
    if !screen.shows(prepared) {
        let after = screen.replaced(prepared);
        let (buffer, rest) = taken(screen.buffers, prepared);
        if document == screen.app.editor.document {
            assert(after.buffers[after.buffers.len() - 1].editor.document == document);
        } else {
            let k = choose|k: int|
                0 <= k < screen.buffers.len() && (#[trigger] screen.buffers[k]).editor.document
                    == document;
            match prepared {
                Prepared::Existing(id) => {
                    lemma_has_buffer(screen.buffers, id);
                    let at = find_buffer(screen.buffers, id);
                    if id != document {
                        let m = if k < at { k } else { k - 1 };
                        assert(rest[m] == screen.buffers[k]);
                        assert(after.buffers[m].editor.document == document);
                    }
                },
                Prepared::New(_) => {
                    assert(after.buffers[k].editor.document == document);
                },
            }
        }
    }
}

/// Showing another document leaves no dangling checkpoint: one that a
/// checkpoint leads back to is not closed.
pub proof fn law_opening_leaves_no_dangling_checkpoint(screen: Screen, prepared: Prepared)
    requires
        screen.valid(),
        screen.accepts(prepared),
    ensures
        parted(screen, screen.replaced(prepared)),
        connected(screen) ==> connected(screen.replaced(prepared)),
{
    reveal(Screen::replaced);
    reveal(Screen::keeps_document);
    let after = screen.replaced(prepared);
    assert forall|any: DocumentId| #[trigger] mentions(after.trails, any) implies mentions(
        screen.trails,
        any,
    ) && (screen.is_open(any) ==> after.is_open(any)) by {
        if screen.is_open(any) {
            lemma_replaced_open(screen, prepared, any);
        }
    }
}

/// Another history of the active pane leads where that history or the others
/// lead.
proof fn lemma_heading_mentions(screen: Screen, trail: Trail, document: DocumentId)
    requires
        screen.valid(),
        mentions(screen.heading(trail).trails, document),
    ensures
        trail.mentions(document) || mentions(screen.trails, document),
{
    let id = screen.app.window();
    lemma_focused_pane(screen);
    assert(has_trail(screen.trails, id));
    lemma_has_trail(screen.trails, id);
    let after = screen.heading(trail).trails;
    let i = choose|i: int| 0 <= i < after.len() && #[trigger] after[i].1.mentions(document);
    if i != find_trail(screen.trails, id) {
        assert(screen.trails[i].1.mentions(document));
    }
}

/// A checkpoint that is recorded leads where the others led, or to its own
/// document.
proof fn lemma_pushed_mentions(trail: Trail, spot: Spot, document: DocumentId)
    requires
        trail.valid(),
        trail.pushed(spot).mentions(document),
    ensures
        trail.mentions(document) || document == spot.document,
{
    let after = trail.pushed(spot);
    let i = choose|i: int|
        0 <= i < after.entries.len() && (#[trigger] after.entries[i]).document == document;
    let evicted = if trail.follows(spot) { 0 } else { trail.evicted(spot) };
    if i + evicted < trail.cursor {
        assert(after.entries[i] == trail.entries[i + evicted]);
    }
}

/// A new session has no dangling checkpoint.
pub proof fn law_a_new_session_has_no_dangling_checkpoint(
    app: App,
    editor: Editor,
    size: (u16, u16),
)
    requires
        fresh(app, editor, size),
    ensures
        connected(app.screen()),
{
}

/// Going to another window leaves no dangling checkpoint.
pub proof fn law_focusing_leaves_no_dangling_checkpoint(screen: Screen, id: WindowId)
    requires
        screen.valid(),
        connected(screen),
        has_pane(screen.panes, id),
    ensures
        connected(screen.refocused(id)),
{
    let after = screen.refocused(id);
    assert forall|any: DocumentId| #[trigger] mentions(after.trails, any) implies after.is_open(
        any,
    ) by {
        lemma_refocused_open(screen, id, any);
        assert(mentions(screen.trails, any));
    }
}

/// Recording a place, such as the live one, leaves no dangling checkpoint where
/// its document is open.
pub proof fn law_recording_leaves_no_dangling_checkpoint(screen: Screen, spot: Spot)
    requires
        screen.valid(),
        connected(screen),
        screen.is_open(spot.document),
    ensures
        connected(screen.recorded(spot)),
        screen.is_open(screen.spot().document),
{
    let id = screen.app.window();
    let trail = trail_of(screen.trails, id);
    let after = screen.recorded(spot);
    lemma_focused_pane(screen);
    assert(has_trail(screen.trails, id));
    lemma_has_trail(screen.trails, id);
    assert(screen.trails[find_trail(screen.trails, id)].1.valid());
    assert(after.trails == screen.heading(trail.pushed(spot)).trails);
    assert forall|any: DocumentId| #[trigger] mentions(after.trails, any) implies after.is_open(
        any,
    ) by {
        lemma_heading_mentions(screen, trail.pushed(spot), any);
        if trail.pushed(spot).mentions(any) {
            lemma_pushed_mentions(trail, spot, any);
            if trail.mentions(any) {
                assert(screen.trails[find_trail(screen.trails, id)].1.mentions(any));
                assert(mentions(screen.trails, any));
            }
        }
    }
}

/// Going back or forth leaves no dangling checkpoint, whether the selections
/// were restored there or not: what the history before or after leads to stays
/// open.
pub proof fn law_jumping_leaves_no_dangling_checkpoint(
    screen: Screen,
    forward: bool,
    count: nat,
    target: DocumentId,
)
    requires
        screen.valid(),
        connected(screen),
        screen.is_open(target),
    ensures
        ({
            let trail = trail_of(screen.trails, screen.app.window());
            let history = if forward {
                trail.after_ahead(count)
            } else {
                trail.after_back(screen.spot(), count)
            };
            connected(screen.reached(history, target).jumped(history))
        }),
{
    let id = screen.app.window();
    let trail = trail_of(screen.trails, id);
    let history = if forward {
        trail.after_ahead(count)
    } else {
        trail.after_back(screen.spot(), count)
    };
    lemma_focused_pane(screen);
    assert(has_trail(screen.trails, id));
    lemma_has_trail(screen.trails, id);
    let at = find_trail(screen.trails, id);
    assert(screen.trails[at].1.valid());
    crate::jumps::law_history_stays_valid(trail, screen.spot(), count, target);
    let heading = screen.heading(history);
    crate::buffers::lemma_heading(screen, history);
    let prepared = Prepared::Existing(target);
    assert forall|any: DocumentId| #[trigger] mentions(heading.trails, any) implies heading.is_open(
        any,
    ) by {
        lemma_heading_mentions(screen, history, any);
        if history.mentions(any) {
            if !forward && trail.at_end() && count <= trail.cursor {
                assert(history.entries == trail.pushed(screen.spot()).entries);
                assert(trail.pushed(screen.spot()).mentions(any));
                lemma_pushed_mentions(trail, screen.spot(), any);
            } else {
                assert(history.entries == trail.entries);
                assert(trail.mentions(any));
            }
            if trail.mentions(any) {
                assert(screen.trails[at].1.mentions(any));
                assert(mentions(screen.trails, any));
            }
        }
    }
    assert(connected(heading));
    law_opening_leaves_no_dangling_checkpoint(heading, prepared);
    let after = screen.reached(history, target).jumped(history);
    reveal(Screen::replaced);
    assert(after.trails == heading.trails);
    assert forall|any: DocumentId| #[trigger] mentions(after.trails, any) implies after.is_open(
        any,
    ) by {
        assert(mentions(heading.replaced(prepared).trails, any));
        assert(heading.replaced(prepared).is_open(any));
    }
}

/// Splitting a window leaves no dangling checkpoint: the history of the new part
/// begins in the document that it shows.
pub proof fn law_splitting_leaves_no_dangling_checkpoint(screen: Screen, axis: Axis)
    requires
        screen.valid(),
        connected(screen),
        screen.split_error(axis) is None,
        screen.app.windows.layout.next < u64::MAX,
    ensures
        connected(screen.split(axis)),
{
    reveal(Screen::widened);
    let wide = screen.widened(axis);
    let id = screen.app.windows.layout.next;
    let after = screen.split(axis);
    lemma_widened(screen, axis);
    assert forall|any: DocumentId| #[trigger] mentions(after.trails, any) implies after.is_open(
        any,
    ) by {
        lemma_refocused_open(wide, id, any);
        let i = choose|i: int| 0 <= i < wide.trails.len() && #[trigger] wide.trails[i].1.mentions(any);
        if i < screen.trails.len() {
            assert(screen.trails[i].1.mentions(any));
            assert(mentions(screen.trails, any));
        }
        assert(wide.is_open(any));
    }
}

} // verus!
