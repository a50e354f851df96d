//! What is asked of the editor, by what the windows show once it is done.

use crate::app::App;
use crate::editor::{Mode, Time};
use crate::effect::Effect;
use crate::language::RequestKind;
use crate::layout::{Layout, Rect, WindowId};
use crate::selection::{DocumentId, ViewId};
use crate::windows::{
    has_pane, lemma_has_buffer, lemma_has_pane, lemma_remembered, pane_of, Prepared, Screen,
};
use vstd::prelude::*;

verus! {

/// The document that is active once these things were done, in order.
pub open spec fn document_after(start: DocumentId, effects: Seq<Effect>) -> DocumentId
    decreases effects.len(),
{
    if effects.len() == 0 {
        start
    } else {
        match effects.last() {
            Effect::SwitchBuffer(document) => document,
            Effect::InstallBuffer(document, _) => document,
            _ => document_after(start, effects.drop_last()),
        }
    }
}

/// The view that is active once these things were done, in order.
pub open spec fn view_after(start: ViewId, effects: Seq<Effect>) -> ViewId
    decreases effects.len(),
{
    if effects.len() == 0 {
        start
    } else {
        match effects.last() {
            Effect::FocusView(view) => view,
            Effect::InstallBuffer(_, view) => view,
            _ => view_after(start, effects.drop_last()),
        }
    }
}

proof fn lemma_quiet(start: DocumentId, view: ViewId, effects: Seq<Effect>)
    requires
        forall|i: int|
            0 <= i < effects.len() ==> !(#[trigger] effects[i] is SwitchBuffer)
                && !(effects[i] is InstallBuffer) && !(effects[i] is FocusView),
    ensures
        document_after(start, effects) == start,
        view_after(view, effects) == view,
    decreases effects.len(),
{
    if effects.len() > 0 {
        assert(effects.last() == effects[effects.len() - 1]);
        lemma_quiet(start, view, effects.drop_last());
    }
}

/// Moving the focus makes the document and the view of that window the active ones
/// in the editor.
pub proof fn law_the_editor_follows_the_focus(screen: Screen, id: WindowId, at: int)
    requires
        screen.valid(),
        0 <= at < screen.panes.len(),
        screen.panes[at].id == id,
        id != screen.app.window(),
    ensures
        ({
            let effects = screen.focus_effects(id);
            let after = screen.refocused(id);
            &&& document_after(screen.app.editor.document, effects) == screen.panes[at].document
            &&& forall|view: ViewId| #[trigger] view_after(view, effects) == screen.panes[at].view
            &&& after.app.editor.document == screen.panes[at].document
            &&& after.app.window() == id
        }),
{
    reveal(Screen::focus_effects);
    reveal(Screen::refocused);
    lemma_remembered(screen);
    let kept = screen.remembered();
    crate::windows::lemma_refocused(screen, id);
    assert(has_pane(screen.panes, id));
    lemma_has_pane(screen.panes, id);
    lemma_has_pane(kept.panes, id);
    crate::windows::lemma_find_pane(screen.panes, at);
    crate::windows::lemma_find_pane(kept.panes, at);
    let pane = pane_of(kept.panes, id);
    assert(pane.document == screen.panes[at].document && pane.view == screen.panes[at].view);
    let effects = screen.focus_effects(id);
    let n = effects.len() as int;
    assert(effects[n - 1] == Effect::CancelKeys);
    assert(effects[n - 2] == Effect::FocusView(pane.view));
    let one = effects.drop_last();
    let two = one.drop_last();
    assert(one.last() == effects[n - 2]);
    let own = screen.app.editor.document;
    assert(document_after(own, effects) == document_after(own, one));
    assert(document_after(own, one) == document_after(own, two));
    if pane.document == own {
        assert forall|i: int| 0 <= i < two.len() implies !(#[trigger] two[i] is SwitchBuffer)
            && !(two[i] is InstallBuffer) && !(two[i] is FocusView) by {}
        lemma_quiet(own, 0, two);
    } else {
        assert(two.last() == Effect::SwitchBuffer(pane.document));
    }
    assert forall|view: ViewId| #[trigger] view_after(view, effects) == pane.view by {
        assert(view_after(view, effects) == view_after(view, one));
    }
    if pane.document != own {
        lemma_has_buffer(screen.buffers, pane.document);
    }
}

/// Showing another document makes it the active one in the editor, under a view of
/// its own.
pub proof fn law_the_editor_follows_the_document(screen: Screen, prepared: Prepared)
    requires
        screen.valid(),
        screen.accepts(prepared),
        prepared != Prepared::Existing(screen.app.editor.document),
    ensures
        ({
            let effects = screen.replace_effects(prepared);
            let after = screen.replaced(prepared);
            let left = screen.app.editor.document;
            &&& document_after(left, effects) == after.app.editor.document
            &&& view_after(0, effects) == screen.app.windows.next_view
            &&& after.app.editor.document == match prepared {
                Prepared::Existing(document) => document,
                Prepared::New(buffer) => buffer.editor.document,
            }
            &&& effects.contains(Effect::DropBuffer(left)) ==> !screen.app.editor.dirty
        }),
{
    reveal(Screen::replaced);
    reveal(Screen::replace_effects);
    reveal(Screen::keeps_document);
    let effects = screen.replace_effects(prepared);
    let left = screen.app.editor.document;
    let n = effects.len() as int;
    let one = effects.drop_last();
    let two = one.drop_last();
    assert(effects.last() == Effect::CancelKeys);
    assert(one.last() == effects[n - 2]);
    assert(document_after(left, effects) == document_after(left, one));
    assert(document_after(left, one) == document_after(left, two));
    assert(view_after(0, effects) == view_after(0, one));
    assert(view_after(0, one) == view_after(0, two));
    match prepared {
        Prepared::New(buffer) => {
            assert(two.last() == effects[n - 3]);
        },
        Prepared::Existing(document) => {
            lemma_has_buffer(screen.buffers, document);
            let three = two.drop_last();
            let four = three.drop_last();
            assert(two.last() == effects[n - 3]);
            assert(three.last() == effects[n - 4]);
            assert(four.last() == effects[n - 5]);
            assert(document_after(left, two) == document_after(left, three));
            assert(document_after(left, three) == document_after(left, four));
        },
    }
}

/// All windows are drawn where each has room, and otherwise the active one alone, over
/// the whole screen.
pub proof fn law_windows_are_drawn_together_or_alone(layout: Layout, size: (u16, u16))
    ensures
        ({
            let panes = layout.root.panes(Rect { x: 0, y: 0, width: size.0, height: size.1 });
            let room = forall|i: int|
                0 <= i < panes.len() ==> (#[trigger] panes[i]).1.width >= 12 && panes[i].1.height
                    >= 3;
            let shown = layout.shown(size);
            &&& room ==> shown == panes
            &&& !room ==> shown == seq![
                (layout.active, Rect { x: 0, y: 0, width: size.0, height: size.1 }),
            ]
        }),
{
}

/// A request for completions that was scheduled is made once it is due, as it was
/// scheduled, and not before.
pub proof fn law_scheduled_completions_are_asked_for(app: App, time: Time)
    requires
        app.completion_checked() == app,
    ensures
        ({
            let after = app.completion_polled(time);
            match app.completion.scheduled {
                Some(scheduled) => if scheduled.due <= time {
                    &&& after.completion.scheduled is None
                    &&& after.completion.outgoing matches Some(request) && request.kind
                        == RequestKind::Completion(scheduled.trigger) && request.automatic
                        == scheduled.automatic
                    &&& after.completion.active == app.completion.active
                } else {
                    after == app
                },
                None => after == app,
            }
        }),
{
}

/// A transfer is waited for while the editor is at the place that it was begun from,
/// and is given up once it is not.
pub proof fn law_transfers_belong_to_their_place(app: App)
    requires
        app.clipboard.pending is Some,
    ensures
        ({
            let pending = app.clipboard.pending->0;
            let there = pending.document == app.editor.document && pending.revision
                == app.editor.revision && pending.view == app.editor.view && app.editor.mode
                == Mode::Normal && pending.selections@ == app.editor.selections@;
            let after = app.clipboard_checked();
            &&& app.transfer_waits() <==> there
            &&& there ==> after == app
            &&& !there ==> after.clipboard.pending is None && after.editor == app.editor
            &&& !there && (app.message is ReadingClipboard || app.message is CopyingClipboard)
                ==> after.message is Empty
        }),
{
}

/// A symbol picker is closed once the editor has left its place, and its symbols are
/// ranked by what is typed when they come.
pub proof fn law_symbols_are_those_of_the_place(app: App, catalog: u64)
    requires
        app.symbol_source() is Some,
    ensures
        ({
            let source = app.symbol_source()->0;
            let there = source.document == app.editor.document && source.revision
                == app.editor.revision && source.language == app.editor.language && source.file
                == app.editor.file && source.selections@ == app.editor.selections@ && source.mode
                == app.editor.mode;
            let after = app.symbols_received(catalog);
            &&& there ==> app.symbols_checked() == app
            &&& !there ==> app.symbols_checked().picker.active is None
            &&& !source.loading ==> after == app
            &&& source.loading ==> {
                &&& after.picker.symbol_job matches Some(job) && job.query == Some(
                    app.picker.active->0.view.query,
                ) && job.session == app.picker.active->0.session && job.revision
                    == app.picker.active->0.revision
                &&& after.symbol_source() matches Some(now) && now.catalog == Some(catalog)
                    && !now.loading
                &&& after.message is Empty
            }
        }),
{
}

} // verus!
