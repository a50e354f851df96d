//! What becomes of the events of the language service.

use crate::actions::{Action, Ready};
use crate::app::App;
use crate::completion::{completions_taken, resolution_taken, CompletionItem, Completions};
use crate::diagnostics::{ordered, problems, rearranged, sort_diagnostics};
use crate::editor::{Context, Time};
use crate::effect::Effect;
use crate::error::Error;
use crate::language::{CompletionOptions, Diagnostic, State, Status};
use crate::message::Message;
use crate::picker::Rows;
use crate::refresh::{locations_taken, Found};
use crate::selection::Revision;
use crate::symbols::QUERY_DELAY;
use crate::text::{ends_with, has_suffix};
use std::sync::Arc;
use vstd::prelude::*;

verus! {

/// The answer to a request.
#[derive(Debug)]
pub enum Answer {
    Hover(String),
    /// Locations, with what was looked for and the rows to offer them in.
    Locations { title: String, found: Found, view: Rows },
    /// Whether the word at the cursor occurs elsewhere, ready to be selected.
    Highlights(bool),
    Completion(Completions),
    /// Symbols, by the identity of their list.
    Symbols(u64),
    Resolved(CompletionItem),
    RenamePrepared(String),
    Formatted { unchanged: bool },
    CodeActions { items: Vec<Action>, limited: bool },
    CodeActionReady { edit: bool, command: Option<u64> },
    CommandExecuted,
    WorkspaceEdit,
}

/// An event of the language service.
#[derive(Debug)]
pub enum ServerEvent {
    /// The problems of the whole workspace; `changed` says whether they are
    /// others.
    Catalog { generation: u64, changed: bool },
    Capabilities { epoch: u64, completion: Option<CompletionOptions> },
    Progress { epoch: u64, message: String, failed: bool },
    Diagnostics { epoch: u64, revision: Revision, diagnostics: Vec<Diagnostic> },
    /// `cancelled` says whether the request was given up meanwhile.
    Answer {
        epoch: u64,
        revision: Revision,
        id: u64,
        cancelled: bool,
        result: Result<Answer, Error>,
    },
}

/// What is left to do after an event.
#[derive(Clone, Copy, Debug, PartialEq, Eq, Structural)]
pub enum Next {
    Nothing,
    /// Select the occurrences that were found.
    Highlights,
    /// Apply an edit at this place.
    Edit(Context),
    /// Run a server command.
    Command(u64),
}

impl App {
    /// Whether an answer is the one that is waited for, at the place that it
    /// was asked from.
    pub open spec fn awaits_answer(
        self,
        epoch: u64,
        revision: Revision,
        id: u64,
        cancelled: bool,
    ) -> bool {
        &&& self.is_current(epoch, revision)
        &&& !cancelled
        &&& self.language.pending matches Some(pending) && {
            &&& pending.id == id
            &&& pending.selections@ == self.editor.selections@
            &&& pending.document == self.editor.document
            &&& pending.mode == self.editor.mode
            &&& pending.window == self.window()
        }
    }

    /// Whether something that the server reports concerns the present
    /// document.
    pub open spec fn concerns(self, epoch: u64) -> bool {
        epoch == self.language.epoch && self.language.document is Some
    }

    /// The state of a server that reports its progress.
    pub open spec fn reported_status(message: Seq<char>, failed: bool) -> Status {
        if failed {
            Status::Unavailable
        } else if has_suffix(message, "ready"@) {
            Status::Ready
        } else {
            Status::Starting
        }
    }

    /// The application after its server reported its progress.
    pub open spec fn progressed(self, message: String, failed: bool) -> App {
        let status = App::reported_status(message@, failed);
        if failed {
            App {
                language: State {
                    completion: None,
                    status,
                    ..self.language
                }.cancelled(),
                ..self
            }.request_failed(Arc::new(Error::Other(message)))
        } else {
            App { language: State { status, ..self.language }, ..self }
        }
    }

    /// What a failed server asks for.
    pub open spec fn progress_effects(self, message: String, failed: bool) -> Seq<Effect> {
        if failed {
            let app = App {
                language: State {
                    completion: None,
                    status: Status::Unavailable,
                    ..self.language
                }.cancelled(),
                ..self
            };
            seq![Effect::CancelServerEdit] + self.language.cancel_effects()
                + app.request_fail_effects(Arc::new(Error::Other(message)))
        } else {
            seq![]
        }
    }

    fn receive_progress(&mut self, message: String, failed: bool, out: &mut Vec<Effect>)
        requires
            old(self).completion.valid(),
            old(self).actions.valid(),
        ensures
            *final(self) == old(self).progressed(message, failed),
            final(out)@ == old(out)@ + old(self).progress_effects(message, failed),
            final(self).completion.valid(),
            final(self).actions.valid(),
    {
        assert(out@ =~= old(out)@ + Seq::<Effect>::empty());
        self.language.status = if failed {
            Status::Unavailable
        } else if ends_with(message.as_str(), "ready") {
            Status::Ready
        } else {
            Status::Starting
        };
        if failed {
            out.push(Effect::CancelServerEdit);
            self.language.completion = None;
            self.language.cancel(out);
            self.fail_language_request(Error::Other(message), out);
            assert(out@ =~= old(out)@ + old(self).progress_effects(message, failed));
        }
    }

    /// The application without the request that was answered.
    pub open spec fn answered(self) -> App {
        App { language: State { pending: None, ..self.language }, ..self }
    }

    fn receive_answer(&mut self, answer: Answer, out: &mut Vec<Effect>) -> (next: Next)
        requires
            old(self).completion.valid(),
            old(self).actions.valid(),
            old(self).navigation.next < u64::MAX,
            old(self).picker.next_session < u64::MAX,
            old(self).picker.captures < u64::MAX,
        ensures
            answer_taken(*old(self), answer, *final(self), old(out)@, final(out)@, next),
            final(self).completion.valid(),
            final(self).actions.valid(),
    {
        match answer {
            Answer::Hover(text) => {
                if text.as_str().is_empty() {
                    self.message = Message::NoHover;
                } else {
                    self.message = Message::Hover;
                    self.language.popup = Some(text);
                }
                Next::Nothing
            },
            Answer::Locations { title, found, view } => {
                self.receive_locations(title.as_str(), found, view, out);
                Next::Nothing
            },
            Answer::Highlights(found) => {
                if found {
                    Next::Highlights
                } else {
                    self.message = Message::NoReferences;
                    Next::Nothing
                }
            },
            Answer::Completion(items) => {
                self.receive_completions(items, out);
                Next::Nothing
            },
            Answer::Symbols(catalog) => {
                self.receive_symbols(catalog);
                Next::Nothing
            },
            Answer::Resolved(item) => {
                self.receive_resolved_completion(item, out);
                Next::Nothing
            },
            Answer::RenamePrepared(name) => {
                self.receive_rename_preparation(name);
                Next::Nothing
            },
            Answer::Formatted { unchanged } => match self.receive_formatting(unchanged) {
                Some(context) => Next::Edit(context),
                None => Next::Nothing,
            },
            Answer::CodeActions { items, limited } => {
                self.receive_code_actions(items, limited);
                Next::Nothing
            },
            Answer::CodeActionReady { edit, command } => match self.receive_code_action_ready(
                edit,
                command,
            ) {
                Ready::Done => Next::Nothing,
                Ready::Edit(context) => Next::Edit(context),
                Ready::Command(command) => Next::Command(command),
            },
            Answer::CommandExecuted => {
                self.message = Message::CommandCompleted;
                Next::Nothing
            },
            Answer::WorkspaceEdit => match self.receive_rename_edit() {
                Some(context) => Next::Edit(context),
                None => Next::Nothing,
            },
        }
    }

    /// Whether an event is the answer that is waited for.
    pub open spec fn awaits_event(self, event: ServerEvent) -> bool {
        match event {
            ServerEvent::Answer { epoch, revision, id, cancelled, result } => self.awaits_answer(
                epoch,
                revision,
                id,
                cancelled,
            ),
            _ => false,
        }
    }

    /// Whether the numbers of pickers, captures and loads, and the clock, are not
    /// at their ends.
    pub open spec fn can_count(self, now: Time) -> bool {
        &&& self.navigation.next < u64::MAX
        &&& self.picker.next_session < u64::MAX
        &&& self.picker.captures < u64::MAX
        &&& self.picker.active is Some ==> self.picker.active->0.revision < u64::MAX
        &&& now + QUERY_DELAY <= u64::MAX
    }

    /// Takes an event of the language service. Returns whether to redraw, and
    /// what is left to do. Whatever belongs to another document, revision,
    /// place or request changes nothing.
    pub fn handle_lsp_event(&mut self, event: ServerEvent, now: Time, out: &mut Vec<Effect>) -> (
        handled: (bool, Next))
        requires
            old(self).completion.valid(),
            old(self).actions.valid(),
            event is Catalog || old(self).awaits_event(event) ==> old(self).can_count(now),
        ensures
            event_taken(*old(self), event, now, *final(self), old(out)@, final(out)@, handled),
            final(self).actions.valid(),
            final(self).completion.valid(),
    {
        match event {
            ServerEvent::Catalog { generation, changed } => {
                self.language.catalog_generation = generation;
                self.refresh_diagnostic_picker(changed, now, out);
                (true, Next::Nothing)
            },
            ServerEvent::Capabilities { epoch, completion } => {
                if epoch != self.language.epoch || self.language.document.is_none() {
                    return (false, Next::Nothing);
                }
                self.language.completion = completion;
                (true, Next::Nothing)
            },
            ServerEvent::Progress { epoch, message, failed } => {
                if epoch != self.language.epoch || self.language.document.is_none() {
                    return (false, Next::Nothing);
                }
                self.receive_progress(message, failed, out);
                (true, Next::Nothing)
            },
            ServerEvent::Diagnostics { epoch, revision, diagnostics } => {
                if !self.current_language_revision(epoch, revision) {
                    return (false, Next::Nothing);
                }
                self.language.diagnostics = Some(sort_diagnostics(diagnostics));
                self.language.diagnostic_revision = Some((self.editor.document, revision));
                (true, Next::Nothing)
            },
            ServerEvent::Answer { epoch, revision, id, cancelled, result } => {
                let awaited = match &self.language.pending {
                    Some(pending) => pending.id == id && !cancelled && pending.selections.same(
                        &self.editor.selections,
                    ) && pending.document == self.editor.document && pending.mode
                        == self.editor.mode && pending.window == self.focused_window_id(),
                    None => false,
                };
                if !awaited || !self.current_language_revision(epoch, revision) {
                    return (false, Next::Nothing);
                }
                self.language.pending = None;
                match result {
                    Ok(answer) => {
                        let next = self.receive_answer(answer, out);
                        (true, next)
                    },
                    Err(error) => {
                        self.fail_language_request(error, out);
                        (true, Next::Nothing)
                    },
                }
            },
        }
    }
}

/// Whether an answer was taken as it should be.
pub open spec fn answer_taken(
    before: App,
    answer: Answer,
    after: App,
    asked: Seq<Effect>,
    asks: Seq<Effect>,
    next: Next,
) -> bool {
    match answer {
        Answer::Hover(text) => {
            &&& next == Next::Nothing
            &&& asks == asked
            &&& after == if text@.len() == 0 {
                before.says(Message::NoHover)
            } else {
                App {
                    language: State { popup: Some(text), ..before.language },
                    ..before
                }.says(Message::Hover)
            }
        },
        Answer::Locations { title, found, view } => {
            &&& next == Next::Nothing
            &&& locations_taken(before, after, asked, asks, title@, found, view)
        },
        Answer::Highlights(found) => {
            &&& next == if found { Next::Highlights } else { Next::Nothing }
            &&& asks == asked
            &&& after == if found { before } else { before.says(Message::NoReferences) }
        },
        Answer::Completion(items) => {
            &&& next == Next::Nothing
            &&& completions_taken(before, items, after, asked, asks)
        },
        Answer::Symbols(catalog) => {
            &&& next == Next::Nothing
            &&& asks == asked
            &&& after == before.symbols_received(catalog)
        },
        Answer::Resolved(item) => {
            &&& next == Next::Nothing
            &&& resolution_taken(before, item, after, asked, asks)
        },
        Answer::RenamePrepared(name) => {
            &&& next == Next::Nothing
            &&& asks == asked
            &&& after == before.rename_prompted(name)
        },
        Answer::Formatted { unchanged } => {
            let app = App { formatting: (crate::formatting::State { context: None }), ..before };
            &&& asks == asked
            &&& match before.formatting.context {
                None => next == Next::Nothing && after == before,
                Some(place) => if !place.holds(before.editor) {
                    &&& next == Next::Nothing
                    &&& after == app.failed(Error::FormattingOriginChanged)
                } else if unchanged {
                    next == Next::Nothing && after == app.says(Message::NoFormatting)
                } else {
                    next == Next::Edit(place) && after == app
                },
            }
        },
        Answer::CodeActions { items, limited } => {
            &&& next == Next::Nothing
            &&& asks == asked
            &&& after == before.actions_offered(items, limited)
        },
        Answer::CodeActionReady { edit, command } => {
            &&& asks == asked
            &&& after == before.action_taken(edit, command)
            &&& next == match before.action_ready(edit, command) {
                Ready::Done => Next::Nothing,
                Ready::Edit(context) => Next::Edit(context),
                Ready::Command(command) => Next::Command(command),
            }
        },
        Answer::CommandExecuted => {
            &&& next == Next::Nothing
            &&& asks == asked
            &&& after == before.says(Message::CommandCompleted)
        },
        Answer::WorkspaceEdit => {
            &&& asks == asked
            &&& after == (App {
                rename: crate::rename::State { context: None, ..before.rename },
                ..before
            })
            &&& next == match before.rename.context {
                Some(context) => Next::Edit(context),
                None => Next::Nothing,
            }
        },
    }
}

/// Whether an event of the language service was taken as it should be.
pub open spec fn event_taken(
    before: App,
    event: ServerEvent,
    now: Time,
    after: App,
    asked: Seq<Effect>,
    asks: Seq<Effect>,
    handled: (bool, Next),
) -> bool {
    let dropped = handled == (false, Next::Nothing) && after == before && asks == asked;
    match event {
        ServerEvent::Catalog { generation, changed } => {
            let app = App {
                language: State { catalog_generation: generation, ..before.language },
                ..before
            };
            &&& handled == (true, Next::Nothing)
            &&& after == app.problems_refreshed(changed, now)
            &&& asks == asked + app.problem_refresh_effects(changed)
        },
        ServerEvent::Capabilities { epoch, completion } => if before.concerns(epoch) {
            &&& handled == (true, Next::Nothing)
            &&& asks == asked
            &&& after == (App { language: State { completion, ..before.language }, ..before })
        } else {
            dropped
        },
        ServerEvent::Progress { epoch, message, failed } => if before.concerns(epoch) {
            &&& handled == (true, Next::Nothing)
            &&& after == before.progressed(message, failed)
            &&& asks == asked + before.progress_effects(message, failed)
        } else {
            dropped
        },
        ServerEvent::Diagnostics { epoch, revision, diagnostics } => if before.is_current(
            epoch,
            revision,
        ) {
            &&& handled == (true, Next::Nothing)
            &&& asks == asked
            &&& ordered(problems(after.language))
            &&& rearranged(problems(after.language), diagnostics@)
            &&& after == (App {
                language: State {
                    diagnostics: after.language.diagnostics,
                    diagnostic_revision: Some((before.editor.document, revision)),
                    ..before.language
                },
                ..before
            })
        } else {
            dropped
        },
        ServerEvent::Answer { epoch, revision, id, cancelled, result } => if before.awaits_answer(
            epoch,
            revision,
            id,
            cancelled,
        ) {
            &&& handled.0
            &&& match result {
                Ok(answer) => answer_taken(
                    before.answered(),
                    answer,
                    after,
                    asked,
                    asks,
                    handled.1,
                ),
                Err(error) => {
                    &&& handled.1 == Next::Nothing
                    &&& after == before.answered().request_failed(Arc::new(error))
                    &&& asks == asked + before.answered().request_fail_effects(Arc::new(error))
                },
            }
        } else {
            dropped
        },
    }
}

/// Whether an answer belongs to an earlier request, one that was given up, or a
/// place that the editor has left.
pub open spec fn outdated(
    app: App,
    epoch: u64,
    revision: Revision,
    id: u64,
    cancelled: bool,
) -> bool {
    ||| cancelled
    ||| epoch != app.language.epoch
    ||| revision != app.editor.revision
    ||| app.language.pending is None
    ||| app.language.pending->0.id != id
    ||| app.language.pending->0.document != app.editor.document
    ||| app.language.pending->0.mode != app.editor.mode
    ||| app.language.pending->0.selections@ != app.editor.selections@
    ||| app.language.pending->0.window != app.window()
}

/// An answer to an earlier request, to one that was given up, or for a place
/// that the editor has left, changes nothing.
pub proof fn law_stale_answers_change_nothing(
    before: App,
    event: ServerEvent,
    now: Time,
    after: App,
    asked: Seq<Effect>,
    asks: Seq<Effect>,
    handled: (bool, Next),
)
    requires
        event_taken(before, event, now, after, asked, asks, handled),
        event is Answer,
        outdated(
            before,
            event->Answer_epoch,
            event->Answer_revision,
            event->Answer_id,
            event->Answer_cancelled,
        ),
    ensures
        after == before,
        asks == asked,
        !handled.0,
{
}

} // verus!
