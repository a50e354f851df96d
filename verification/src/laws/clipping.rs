//! Clipboard transfers from the action to its end.

use crate::app::App;
use crate::clipboard::{handed_out, transfer_ended, ClipboardAction, Job, Outcome};
use crate::editor::Mode;
use crate::effect::Effect;
use crate::error::Error;
use crate::message::Message;
use vstd::prelude::*;

verus! {

/// A paste is handed out with the placement that was asked for, as often as the
/// count says and at least once, for as many places as there are selections. A
/// yank copies the present selections: all of them, or the primary one alone
/// where that was asked for. The job is handed out once.
pub proof fn law_the_job_is_what_was_asked_for(
    app: App,
    action: ClipboardAction,
    count: usize,
    after: App,
    job: Option<Job>,
    later: App,
    again: Option<Job>,
)
    requires
        app.editor.mode == Mode::Normal,
        app.clipboard.next_id < u64::MAX,
        handed_out(app.clipboard_begun(action, count), after, job),
        handed_out(after, later, again),
    ensures
        job is Some,
        again is None,
        match action {
            ClipboardAction::Paste(placement) => {
                &&& job->0.operation is Paste
                &&& job->0.operation->placement == placement
                &&& job->0.operation->count == if count > 1 { count } else { 1 }
                &&& job->0.operation->targets == app.editor.selections@.ranges.len()
            },
            ClipboardAction::Yank => {
                &&& job->0.operation is Copy
                &&& job->0.operation->selections == app.editor.selections
                &&& !job->0.operation->main
            },
            ClipboardAction::YankMain => {
                &&& job->0.operation is Copy
                &&& job->0.operation->selections == app.editor.selections
                &&& job->0.operation->main
            },
        },
        after.clipboard.pending matches Some(pending) && {
            &&& pending.id == job->0.id
            &&& pending.document == app.editor.document
            &&& pending.revision == app.editor.revision
            &&& pending.view == app.editor.view
        },
        after.editor == app.editor,
{
    assert(app.editor.selections@.ranges.len() == app.editor.selections.ranges.len());
}

/// Two transfers never bear the same number, and beginning one gives up the one
/// before: its end is not taken any more.
pub proof fn law_a_new_transfer_replaces_the_old_one(
    app: App,
    first: ClipboardAction,
    second: ClipboardAction,
    count: usize,
    outcome: Result<Outcome, Error>,
    after: App,
    asked: Seq<Effect>,
    asks: Seq<Effect>,
    redraw: bool,
)
    requires
        app.clipboard.next_id < u64::MAX - 1,
        transfer_ended(
            app.clipboard_begun(first, count).clipboard_begun(second, count),
            app.clipboard_begun(first, count).clipboard.pending->0.id,
            outcome,
            after,
            asked,
            asks,
            redraw,
        ),
    ensures
        !redraw,
        asks == asked,
        after == app.clipboard_begun(first, count).clipboard_begun(second, count),
{
}

/// A text that is ready is pasted, once and by the number of its job, where the
/// editor still is where it was asked for; a copy only says how much was copied,
/// and a failure is reported. Nothing is pasted after the editor has moved on.
pub proof fn law_ready_texts_are_pasted_in_place(
    before: App,
    id: u64,
    outcome: Result<Outcome, Error>,
    after: App,
    asked: Seq<Effect>,
    asks: Seq<Effect>,
    redraw: bool,
)
    requires
        before.clipboard.pending matches Some(pending) && pending.id == id,
        transfer_ended(before, id, outcome, after, asked, asks, redraw),
    ensures
        after.clipboard.pending is None,
        ({
            let pending = before.clipboard.pending->0;
            let in_place = pending.document == before.editor.document && pending.revision
                == before.editor.revision && pending.view == before.editor.view
                && pending.selections@ == before.editor.selections@ && before.editor.mode
                == Mode::Normal;
            if in_place {
                &&& redraw
                &&& match outcome {
                    Ok(Outcome::Ready) => asks == asked.push(Effect::ApplyPaste(id))
                        && !after.error,
                    Ok(Outcome::Copied(count)) => asks == asked && after.message
                        == (Message::Yanked { count }) && !after.error,
                    Err(error) => asks == asked && after.error && after.message
                        == (Message::Failed { error }),
                }
            } else {
                &&& !redraw
                &&& forall|i: int|
                    asked.len() <= i < asks.len() ==> !(#[trigger] asks[i] is ApplyPaste)
            }
        }),
{
    assert(asked + Seq::<Effect>::empty() =~= asked);
    assert(asked + seq![Effect::ApplyPaste(id)] =~= asked.push(Effect::ApplyPaste(id)));
}

} // verus!
