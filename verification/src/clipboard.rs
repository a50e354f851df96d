//! Clipboard requests preserve input ordering and reject stale destinations.

use crate::app::App;
use crate::editor::Mode;
use crate::effect::{Effect, Job as Background};
use crate::error::Error;
use crate::message::Message;
use crate::selection::{DocumentId, Revision, Selections, ViewId};
use crate::shared::share;
use std::sync::Arc;
use vstd::prelude::*;

verus! {

/// Where pasted text goes.
#[derive(Clone, Copy, Debug, PartialEq, Eq, Structural)]
pub enum Placement {
    Before,
    After,
    Replace,
}

#[derive(Clone, Copy, Debug, PartialEq, Eq, Structural)]
pub enum ClipboardAction {
    /// Copy every selection.
    Yank,
    /// Copy the primary selection alone.
    YankMain,
    Paste(Placement),
}

/// What a worker does with the clipboard.
#[derive(Debug)]
pub enum Operation {
    /// Copy these selections, or the primary one of them alone.
    Copy { selections: Arc<Selections>, main: bool },
    /// Paste a number of times, at least once, over a number of selections.
    Paste { placement: Placement, count: usize, targets: usize },
}

#[derive(Debug)]
pub struct Job {
    pub id: u64,
    pub operation: Operation,
}

/// A transfer on its way, with the place it was asked from.
#[derive(Debug)]
pub struct Pending {
    pub id: u64,
    pub document: DocumentId,
    pub revision: Revision,
    pub view: ViewId,
    pub selections: Arc<Selections>,
    pub job: Option<Job>,
}

#[derive(Debug)]
pub struct State {
    pub next_id: u64,
    pub pending: Option<Pending>,
}

/// How a transfer ended.
#[derive(Debug)]
pub enum Outcome {
    /// So many selections were copied.
    Copied(u64),
    /// The text to paste is ready.
    Ready,
}

impl State {
    /// What giving up the transfer asks for.
    pub open spec fn cancel_effects(self) -> Seq<Effect> {
        match self.pending {
            Some(pending) => seq![Effect::Cancel(Background::Clipboard(pending.id))],
            None => seq![],
        }
    }
}

impl App {
    /// The application without a transfer.
    pub open spec fn clipboard_cancelled(self) -> App {
        App { clipboard: State { pending: None, ..self.clipboard }, ..self }
    }

    pub fn cancel_clipboard(&mut self, out: &mut Vec<Effect>)
        ensures
            *final(self) == old(self).clipboard_cancelled(),
            final(out)@ == old(out)@ + old(self).clipboard.cancel_effects(),
    {
        match self.clipboard.pending.take() {
            Some(pending) => {
                out.push(Effect::Cancel(Background::Clipboard(pending.id)));
            },
            None => {},
        }
        assert(out@ =~= old(out)@ + old(self).clipboard.cancel_effects());
    }

    /// What a worker does for an action at the present place.
    pub open spec fn clipboard_operation(self, action: ClipboardAction, count: usize) -> Operation {
        match action {
            ClipboardAction::Yank => Operation::Copy {
                selections: self.editor.selections,
                main: false,
            },
            ClipboardAction::YankMain => Operation::Copy {
                selections: self.editor.selections,
                main: true,
            },
            ClipboardAction::Paste(placement) => Operation::Paste {
                placement,
                count: if count == 0 { 1 } else { count },
                targets: self.editor.selections@.ranges.len() as usize,
            },
        }
    }

    /// The application that has begun a transfer.
    pub open spec fn clipboard_begun(self, action: ClipboardAction, count: usize) -> App {
        let id = (self.clipboard.next_id + 1) as u64;
        App {
            clipboard: State {
                next_id: id,
                pending: Some(
                    Pending {
                        id,
                        document: self.editor.document,
                        revision: self.editor.revision,
                        view: self.editor.view,
                        selections: self.editor.selections,
                        job: Some(Job { id, operation: self.clipboard_operation(action, count) }),
                    },
                ),
            },
            ..self
        }.says(
            if action is Paste { Message::ReadingClipboard } else { Message::CopyingClipboard },
        )
    }

    /// Begins a transfer; the one before is given up.
    pub fn begin_clipboard(&mut self, action: ClipboardAction, count: usize, out: &mut Vec<Effect>)
        requires
            old(self).clipboard.next_id < u64::MAX,
        ensures
            *final(self) == old(self).clipboard_begun(action, count),
            final(out)@ == old(out)@ + old(self).clipboard.cancel_effects(),
    {
        self.cancel_clipboard(out);
        let id = self.clipboard.next_id + 1;
        self.clipboard.next_id = id;
        let (operation, message) = match action {
            ClipboardAction::Yank => (
                Operation::Copy { selections: share(&self.editor.selections), main: false },
                Message::CopyingClipboard,
            ),
            ClipboardAction::YankMain => (
                Operation::Copy { selections: share(&self.editor.selections), main: true },
                Message::CopyingClipboard,
            ),
            ClipboardAction::Paste(placement) => (
                Operation::Paste {
                    placement,
                    count: if count == 0 { 1 } else { count },
                    targets: self.editor.selections.ranges.len(),
                },
                Message::ReadingClipboard,
            ),
        };
        self.message = message;
        self.clipboard.pending = Some(
            Pending {
                id,
                document: self.editor.document,
                revision: self.editor.revision,
                view: self.editor.view,
                selections: share(&self.editor.selections),
                job: Some(Job { id, operation }),
            },
        );
    }

    /// Whether a transfer is on its way for the present place.
    pub open spec fn transfer_waits(self) -> bool {
        match self.clipboard.pending {
            Some(pending) => {
                &&& pending.document == self.editor.document
                &&& pending.revision == self.editor.revision
                &&& pending.view == self.editor.view
                &&& self.editor.mode == Mode::Normal
                &&& pending.selections@ == self.editor.selections@
            },
            None => false,
        }
    }

    pub fn clipboard_waiting(&self) -> (waiting: bool)
        ensures
            waiting == self.transfer_waits(),
    {
        match &self.clipboard.pending {
            Some(pending) => pending.document == self.editor.document && pending.revision
                == self.editor.revision && pending.view == self.editor.view && self.editor.mode
                == Mode::Normal && pending.selections.same(&self.editor.selections),
            None => false,
        }
    }

    /// Whether a transfer belongs to a place that the editor has left.
    pub open spec fn transfer_stale(self) -> bool {
        self.clipboard.pending is Some && !self.transfer_waits()
    }

    /// The application without a transfer for a place that the editor has left,
    /// nor its message.
    pub open spec fn clipboard_checked(self) -> App {
        if self.transfer_stale() {
            let app = self.clipboard_cancelled();
            if self.message is ReadingClipboard || self.message is CopyingClipboard {
                app.cleared()
            } else {
                app
            }
        } else {
            self
        }
    }

    /// What checking the transfer asks for.
    pub open spec fn clipboard_check_effects(self) -> Seq<Effect> {
        if self.transfer_stale() { self.clipboard.cancel_effects() } else { seq![] }
    }

    pub fn invalidate_clipboard(&mut self, out: &mut Vec<Effect>)
        ensures
            *final(self) == old(self).clipboard_checked(),
            final(out)@ == old(out)@ + old(self).clipboard_check_effects(),
    {
        if self.clipboard.pending.is_some() && !self.clipboard_waiting() {
            self.cancel_clipboard(out);
            match &self.message {
                Message::ReadingClipboard | Message::CopyingClipboard => {
                    self.clear_message();
                },
                _ => {},
            }
        }
        assert(out@ =~= old(out)@ + old(self).clipboard_check_effects());
    }

    /// Hands out the transfer, once.
    pub fn take_clipboard_job(&mut self, out: &mut Vec<Effect>) -> (job: Option<Job>)
        ensures
            handed_out(*old(self), *final(self), job),
            final(out)@ == old(out)@ + old(self).clipboard_check_effects(),
    {
        self.invalidate_clipboard(out);
        match &mut self.clipboard.pending {
            Some(pending) => pending.job.take(),
            None => None,
        }
    }

    /// Takes the end of a transfer. Returns whether to redraw. One for a place
    /// that the editor has left pastes nothing.
    pub fn handle_clipboard_result(
        &mut self,
        id: u64,
        outcome: Result<Outcome, Error>,
        out: &mut Vec<Effect>,
    ) -> (redraw: bool)
        ensures
            transfer_ended(
                *old(self),
                id,
                outcome,
                *final(self),
                old(out)@,
                final(out)@,
                redraw,
            ),
    {
        let expected = match &self.clipboard.pending {
            Some(pending) => pending.id == id,
            None => false,
        };
        if !expected {
            return false;
        }
        if !self.clipboard_waiting() {
            self.invalidate_clipboard(out);
            return false;
        }
        self.clipboard.pending = None;
        self.clear_message();
        assert(old(out)@ + Seq::<Effect>::empty() =~= old(out)@);
        match outcome {
            Ok(Outcome::Copied(count)) => {
                self.message = Message::Yanked { count };
            },
            Ok(Outcome::Ready) => {
                out.push(Effect::ApplyPaste(id));
                assert(out@ =~= old(out)@ + seq![Effect::ApplyPaste(id)]);
            },
            Err(error) => {
                self.fail(error);
            },
        }
        true
    }
}

/// Whether a transfer was handed out as it should be: the one that waits for the
/// present place, and no other.
pub open spec fn handed_out(before: App, after: App, job: Option<Job>) -> bool {
    let app = before.clipboard_checked();
    match app.clipboard.pending {
        Some(pending) => {
            &&& job == pending.job
            &&& after == (App {
                clipboard: State {
                    pending: Some(Pending { job: None, ..pending }),
                    ..app.clipboard
                },
                ..app
            })
        },
        None => job is None && after == app,
    }
}

/// Whether the end of a transfer was taken as it should be.
pub open spec fn transfer_ended(
    before: App,
    id: u64,
    outcome: Result<Outcome, Error>,
    after: App,
    asked: Seq<Effect>,
    asks: Seq<Effect>,
    redraw: bool,
) -> bool {
    if before.clipboard.pending is None || before.clipboard.pending->0.id != id {
        !redraw && after == before && asks == asked
    } else if !before.transfer_waits() {
        &&& !redraw
        &&& after == before.clipboard_checked()
        &&& asks == asked + before.clipboard_check_effects()
    } else {
        let app = before.clipboard_cancelled().cleared();
        &&& redraw
        &&& after == match outcome {
            Ok(Outcome::Copied(count)) => app.says(Message::Yanked { count }),
            Ok(Outcome::Ready) => app,
            Err(error) => app.failed(error),
        }
        &&& asks == asked + match outcome {
            Ok(Outcome::Ready) => seq![Effect::ApplyPaste(id)],
            _ => seq![],
        }
    }
}

/// Text is only ever pasted where it was asked for: the document, its text,
/// the view and the selections are the same.
pub proof fn law_pastes_reach_only_their_own_place(app: App)
    requires
        app.clipboard.pending is Some,
        app.transfer_waits(),
    ensures
        app.clipboard.pending->0.document == app.editor.document,
        app.clipboard.pending->0.revision == app.editor.revision,
        app.clipboard.pending->0.selections@ == app.editor.selections@,
        app.editor.mode == Mode::Normal,
{
}

} // verus!
