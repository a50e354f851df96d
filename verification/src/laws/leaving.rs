//! Quitting and closing, with or without force, and pickers that outlive an edit.

use crate::app::App;
use crate::editor::Time;
use crate::effect::Effect;
use crate::error::Error;
use crate::find::lemma_first_where;
use crate::git_write::{find_draft, Draft};
use crate::picker::{Source, Target};
use crate::refresh::{buffer_refreshed, hit_remembered};
use crate::selection::DocumentId;
use crate::windows::{quit_decided, window_closed, window_left_alone, Screen};
use vstd::prelude::*;

verus! {

/// Whether a document other than the active one has unsaved changes.
pub open spec fn another_unsaved(app: App) -> bool {
    exists|i: int|
        0 <= i < app.windows.buffers@.len() && (#[trigger] app.windows.buffers@[i]).editor.dirty
}

/// Quitting is refused while a repository is being written to, and while anything is
/// unsaved unless it is forced.
pub proof fn law_quitting_spares_unsaved_changes(
    before: App,
    force: bool,
    after: App,
    result: Result<(), Error>,
)
    requires
        quit_decided(before, force, after, result),
    ensures
        ({
            let busy = before.git_write.pending@.len() > 0;
            let unsaved = before.editor.dirty || another_unsaved(before);
            &&& result is Ok <==> !busy && (force || !unsaved)
            &&& result is Ok ==> after == (App { quit: true, ..before })
            &&& result matches Err(error) ==> after == before && if busy {
                error is GitBusyQuitting
            } else {
                error is UnsavedAll
            }
        }),
{
    assert(before.screen().buffers == before.windows.buffers@);
}

/// Closing the last window quits, and is refused for the same reasons; closing one of
/// several never quits, and with force is never refused.
pub proof fn law_closing_the_last_window_quits(
    before: App,
    force: bool,
    after: App,
    asked: Seq<Effect>,
    asks: Seq<Effect>,
    result: Result<(), Error>,
)
    requires
        window_closed(before, force, after, asked, asks, result),
        before.screen().valid(),
    ensures
        ({
            let last = before.windows.layout.root.leaves().len() == 1;
            let busy = before.git_write.pending@.len() > 0;
            &&& result is Err ==> after == before && asks == asked
            &&& last && force ==> (result is Ok <==> !busy)
            &&& last && result is Ok ==> after == (App { quit: true, ..before })
            &&& last && !force && another_unsaved(before) ==> result is Err
            &&& last && !force && before.editor.dirty && crate::windows::views(
                before.windows.panes@,
                before.editor.document,
            ) <= 1 ==> (result matches Err(error) && error is UnsavedWindow)
            &&& last && !busy && !before.editor.dirty && !another_unsaved(before) ==> result is Ok
            &&& !last && force ==> result is Ok
            &&& !last && !before.editor.dirty ==> result is Ok
            &&& !last ==> after.quit == before.quit
        }),
{
    reveal(Screen::refocused);
    reveal(Screen::without_window);
    assert(before.screen().buffers == before.windows.buffers@);
    assert(after.screen().app.quit == after.quit);
}

/// Leaving one window alone closes the other documents. It is refused while one of
/// them has unsaved changes, unless it is forced; commit messages are kept anyway.
pub proof fn law_being_alone_spares_unsaved_changes(
    before: App,
    force: bool,
    after: App,
    asked: Seq<Effect>,
    asks: Seq<Effect>,
    result: Result<(), Error>,
)
    requires
        window_left_alone(before, force, after, asked, asks, result),
        before.git_write.drafts@.len() == 0,
    ensures
        result is Ok <==> force || !another_unsaved(before),
        result matches Err(error) ==> error is UnsavedOther && after == before && asks == asked,
        result is Ok ==> {
            &&& after.windows.layout.root.leaves() == seq![before.window()]
            &&& after.window() == before.window()
            &&& after.editor == before.editor
            &&& after.quit == before.quit
            &&& asks.len() > 0 && asks.last() is RetainActiveView
        },
{
    reveal(Screen::alone);
    reveal(Screen::alone_effects);
    assert(before.screen().buffers == before.windows.buffers@);
    assert(after.screen().app.editor == after.editor);
    assert(after.screen().app.quit == after.quit);
    assert(after.screen().app.windows.layout == after.windows.layout);
    assert forall|document: DocumentId| !#[trigger] before.screen().retains(document) by {
        lemma_first_where(
            before.git_write.drafts@,
            |draft: Draft| draft.document == document,
        );
        assert(find_draft(before.git_write.drafts@, document) == 0);
    }
}

/// A picker keeps up with an edit: checkpoints are listed anew where some of them lie
/// in the document, a search runs again, and a preview of the document is shown anew.
/// The rest stays as it is, and acceptance that waits goes on waiting.
pub proof fn law_pickers_keep_up_with_edits(
    before: App,
    document: DocumentId,
    listed: bool,
    room: bool,
    time: Time,
    after: App,
)
    requires
        buffer_refreshed(before, document, listed, room, time, after),
        before.picker.active matches Some(active) && active.revision < u64::MAX
            && active.preview_request < u64::MAX,
        before.picker.captures < u64::MAX,
        time + 150_000_000 <= u64::MAX,
    ensures
        ({
            let active = before.picker.active->0;
            let anew = active.source is Jumps && listed || active.source is Search;
            &&& after.picker.active matches Some(now) && {
                &&& now.view.query == active.view.query
                &&& now.accept_pending == active.accept_pending
                &&& anew ==> now.revision == active.revision + 1 && after.picker.captures
                    == before.picker.captures + 1
                &&& !anew ==> now.revision == active.revision && after.picker.captures
                    == before.picker.captures
                &&& active.source is Jumps && listed ==> (now.source matches Source::Jumps {
                    captured: Some(catalog),
                } && catalog == before.picker.captures + 1 && now.view.pending)
                &&& active.source is Search ==> (now.source matches Source::Search {
                    documents: Some(catalog),
                    ..
                } && catalog == before.picker.captures + 1)
                &&& !anew && active.preview_target == Some(Target::Buffer(document)) && room
                    && active.view.selected == active.preview_target ==> now.preview_request
                    == active.preview_request + 1 && now.preview_target == active.preview_target
                &&& !anew && active.preview_target is None ==> now == active
            }
            &&& after.editor == before.editor
        }),
{
    reveal(App::query_submitted);
    reveal(App::preview_requested);
}

/// The query of a search whose line was opened becomes the last search of its
/// register.
pub proof fn law_opened_lines_remember_their_search(
    before: App,
    after: App,
    asked: Seq<Effect>,
    asks: Seq<Effect>,
)
    requires
        hit_remembered(before, after, asked, asks),
        before.picker.active matches Some(active) && active.source is Search,
    ensures
        before.picker.active->0.source matches Source::Search { register, .. } && asks
            == asked.push(Effect::RememberSearch(register, before.picker.active->0.view.query)),
{
}

} // verus!
