//! The exchange with the language server: what it is told and asked, and what
//! becomes of its answers.

use crate::app::App;
use crate::diagnostics::Visit;
use crate::editor::{Context, FileId, Scope, Snapshot};
use crate::effect::Effect;
use crate::error::Error;
use crate::event::{Event, Key};
use crate::language::{same_id, Navigation, Pending, RequestKind, ServerDocument, State};
use crate::message::Message;
use crate::selection::Revision;
use crate::shared::share;
use std::sync::Arc;
use vstd::prelude::*;

verus! {

/// What the keymap wants of the language server.
#[derive(Clone, Copy, Debug, PartialEq, Eq, Structural)]
pub enum LanguageAction {
    Hover,
    Definition,
    TypeDefinition,
    Implementation,
    References,
    DocumentHighlights,
    Rename,
    FormatSelections,
    FormatDocument,
    CodeAction,
    Completion,
    NextDiagnostic,
    PreviousDiagnostic,
    FirstDiagnostic,
    LastDiagnostic,
}

impl LanguageAction {
    /// The problem that an action goes to, where it goes to one.
    pub open spec fn visit(self) -> Option<Visit> {
        match self {
            LanguageAction::NextDiagnostic => Some(Visit::Next),
            LanguageAction::PreviousDiagnostic => Some(Visit::Previous),
            LanguageAction::FirstDiagnostic => Some(Visit::First),
            LanguageAction::LastDiagnostic => Some(Visit::Last),
            _ => None,
        }
    }

    pub fn visits(self) -> (visit: Option<Visit>)
        ensures
            visit == self.visit(),
    {
        match self {
            LanguageAction::NextDiagnostic => Some(Visit::Next),
            LanguageAction::PreviousDiagnostic => Some(Visit::Previous),
            LanguageAction::FirstDiagnostic => Some(Visit::First),
            LanguageAction::LastDiagnostic => Some(Visit::Last),
            _ => None,
        }
    }
}

/// A request as the server gets it.
#[derive(Debug)]
pub struct ServerRequest {
    pub id: u64,
    pub kind: RequestKind,
    pub position: usize,
}

/// What the language service is told.
#[derive(Debug)]
pub struct Update {
    pub document: Option<ServerDocument>,
    pub request: Option<ServerRequest>,
}

impl RequestKind {
    /// Whether keys wait for the answer.
    pub open spec fn waits(self) -> bool {
        match self {
            RequestKind::Navigation(_)
            | RequestKind::DocumentHighlights
            | RequestKind::PrepareRename { .. }
            | RequestKind::Rename { .. }
            | RequestKind::Format { .. }
            | RequestKind::CodeActions { .. }
            | RequestKind::ApplyCodeAction { .. }
            | RequestKind::ExecuteCommand { .. } => true,
            _ => false,
        }
    }

    pub fn is_waiting(&self) -> (waits: bool)
        ensures
            waits == self.waits(),
    {
        match self {
            RequestKind::Navigation(_)
            | RequestKind::DocumentHighlights
            | RequestKind::PrepareRename { .. }
            | RequestKind::Rename { .. }
            | RequestKind::Format { .. }
            | RequestKind::CodeActions { .. }
            | RequestKind::ApplyCodeAction { .. }
            | RequestKind::ExecuteCommand { .. } => true,
            _ => false,
        }
    }
}

impl App {
    /// Whether the editor is still where a request was made.
    pub open spec fn at_request(self, pending: Pending) -> bool {
        &&& pending.document == self.editor.document
        &&& pending.revision == self.editor.revision
        &&& pending.selections@ == self.editor.selections@
        &&& pending.mode == self.editor.mode
        &&& pending.window == self.window()
    }

    pub(crate) fn still_at(&self, pending: &Pending) -> (yes: bool)
        ensures
            yes == self.at_request(*pending),
    {
        pending.document == self.editor.document && pending.revision == self.editor.revision
            && pending.selections.same(&self.editor.selections) && pending.mode == self.editor.mode
            && pending.window == self.focused_window_id()
    }

    /// Turns the language services on.
    pub fn enable_lsp(&mut self)
        ensures
            *final(self) == (App {
                language: State { enabled: true, force: true, ..old(self).language },
                ..*old(self)
            }),
    {
        self.language.enabled = true;
        self.language.force = true;
    }

    /// Asks for a server command to be run. `outside` says whether another
    /// component waits for something.
    pub fn execute_lsp_command(
        &mut self,
        command: u64,
        outside: bool,
        out: &mut Vec<Effect>,
    ) -> (result: Result<(), Error>)
        ensures
            command_asked(
                *old(self),
                command,
                outside,
                *final(self),
                old(out)@,
                final(out)@,
                result,
            ),
    {
        if self.input_waiting(outside) {
            return Err(Error::OperationPending);
        }
        if !self.language.enabled {
            return Err(Error::ServicesDisabled);
        }
        self.close_picker(out);
        self.dismiss_language_help(out);
        self.language.command = Some((self.editor.workspace_context(), command));
        Ok(())
    }

    /// The application after the command to run was taken.
    pub open spec fn command_taken(self) -> App {
        let app = App { language: State { command: None, ..self.language }, ..self };
        match self.language.command {
            Some((context, command)) => if context.holds(self.editor) {
                app
            } else {
                app.failed(Error::CommandOriginChanged)
            },
            None => app,
        }
    }

    /// The command to run, where its place still holds.
    pub open spec fn command_request(self) -> Option<RequestKind> {
        match self.language.command {
            Some((context, command)) => if context.holds(self.editor) {
                Some(RequestKind::ExecuteCommand { command, context })
            } else {
                None
            },
            None => None,
        }
    }

    pub(crate) fn take_command_request(&mut self) -> (request: Option<RequestKind>)
        ensures
            request == old(self).command_request(),
            *final(self) == old(self).command_taken(),
    {
        match self.language.command.take() {
            Some((context, command)) => {
                if !context.current(&self.editor) {
                    self.fail(Error::CommandOriginChanged);
                    return None;
                }
                Some(RequestKind::ExecuteCommand { command, context })
            },
            None => None,
        }
    }

    /// Whether a server command is still running for the place it was asked
    /// from. `cancelled` says whether it was given up meanwhile.
    pub fn command_current(&self, epoch: u64, request: u64, cancelled: bool) -> (current: bool)
        ensures
            current == {
                &&& self.language.epoch == epoch
                &&& self.language.pending matches Some(pending) && pending.id == request
                    && pending.executing && !cancelled && self.at_request(pending)
            },
    {
        match &self.language.pending {
            Some(pending) => self.language.epoch == epoch && pending.id == request
                && pending.executing && !cancelled && self.still_at(pending),
            None => false,
        }
    }

    /// Lets keys wait, or not, for the running request.
    pub fn command_waiting(&mut self, waiting: bool)
        ensures
            *final(self) == match old(self).language.pending {
                Some(pending) => App {
                    language: State {
                        pending: Some(Pending { waiting, ..pending }),
                        ..old(self).language
                    },
                    ..*old(self)
                },
                None => *old(self),
            },
    {
        match &mut self.language.pending {
            Some(pending) => {
                pending.waiting = waiting;
            },
            None => {},
        }
    }

    /// The savepoint of the active document, where it has one.
    pub open spec fn own_savepoint(self) -> Option<Snapshot> {
        match self.language.saved_snapshot {
            Some(snapshot) => if snapshot.document == self.editor.document {
                Some(snapshot)
            } else {
                None
            },
            None => None,
        }
    }

    pub(crate) fn savepoint(&self) -> (snapshot: Option<Snapshot>)
        ensures
            snapshot == self.own_savepoint(),
    {
        match self.language.saved_snapshot {
            Some(snapshot) => if snapshot.document == self.editor.document {
                Some(snapshot)
            } else {
                None
            },
            None => None,
        }
    }

    /// Moves a running command to the edit that it made, and returns the
    /// document as the server is to know it and the generation of the
    /// workspace.
    pub fn acknowledge_command_edit(&mut self) -> (applied: (ServerDocument, u64))
        requires
            old(self).language.pending is Some,
            old(self).language.document is Some,
            old(self).language.workspace_generation < u64::MAX,
        ensures
            ({
                let pending = old(self).language.pending->0;
                let generation = (old(self).language.workspace_generation + 1) as u64;
                &&& applied.0 == (ServerDocument {
                    snapshot: (Snapshot {
                        document: old(self).editor.document,
                        revision: old(self).editor.revision,
                    }),
                    saved: old(self).language.saved,
                    saved_snapshot: old(self).own_savepoint(),
                    ..old(self).language.document->0
                })
                &&& applied.1 == generation
                &&& *final(self) == (App {
                    language: State {
                        pending: Some(
                            Pending {
                                revision: old(self).editor.revision,
                                selections: old(self).editor.selections,
                                ..pending
                            },
                        ),
                        workspace_generation: generation,
                        ..old(self).language
                    },
                    ..*old(self)
                })
            }),
    {
        let saved_snapshot = self.savepoint();
        match &mut self.language.pending {
            Some(pending) => {
                pending.revision = self.editor.revision;
                pending.selections = share(&self.editor.selections);
            },
            None => {},
        }
        self.language.workspace_generation = self.language.workspace_generation + 1;
        let snapshot = Snapshot {
            document: self.editor.document,
            revision: self.editor.revision,
        };
        let saved = self.language.saved;
        let document = match self.language.document {
            Some(document) => ServerDocument { snapshot, saved, saved_snapshot, ..document },
            None => ServerDocument {
                epoch: 0,
                language: 0,
                file: 0,
                snapshot,
                saved,
                saved_snapshot,
            },
        };
        (document, self.language.workspace_generation)
    }

    /// The epoch and generation of a workspace to be told to the server after
    /// its documents changed, as `synchronize` says. Only workspace edits do
    /// so; normal keystrokes keep their constant-size update path.
    pub fn take_lsp_workspace_update(&mut self, synchronize: bool) -> (update: Option<(u64, u64)>)
        requires
            old(self).language.workspace_generation < u64::MAX,
        ensures
            match old(self).language.document {
                Some(document) => if synchronize && old(self).language.enabled {
                    let generation = (old(self).language.workspace_generation + 1) as u64;
                    &&& update == Some((document.epoch, generation))
                    &&& *final(self) == (App {
                        language: State {
                            workspace_generation: generation,
                            ..old(self).language
                        },
                        ..*old(self)
                    })
                } else {
                    update is None && *final(self) == *old(self)
                },
                None => update is None && *final(self) == *old(self),
            },
    {
        if !synchronize || !self.language.enabled {
            return None;
        }
        let epoch = match &self.language.document {
            Some(document) => document.epoch,
            None => {
                return None;
            },
        };
        self.language.workspace_generation = self.language.workspace_generation + 1;
        Some((epoch, self.language.workspace_generation))
    }

    /// Gives a key to the hover popup. Returns whether to redraw, where the
    /// event needs no further handling.
    pub fn handle_hover_input(&mut self, event: &Event, out: &mut Vec<Effect>) -> (redraw: Option<
        bool,
    >)
        ensures
            hover_event_taken(
                *old(self),
                *event,
                *final(self),
                old(out)@,
                final(out)@,
                redraw,
            ),
    {
        if self.language.popup.is_none() {
            return None;
        }
        match event {
            Event::Key(_) => {},
            _ => {
                return None;
            },
        }
        if event.released() {
            return Some(false);
        }
        match event.key() {
            Some(Key::Ctrl('u')) | Some(Key::PageUp) => {
                out.push(Effect::ScrollHover { down: false });
                Some(true)
            },
            Some(Key::Ctrl('d')) | Some(Key::PageDown) => {
                out.push(Effect::ScrollHover { down: true });
                Some(true)
            },
            Some(Key::Escape) | Some(Key::Ctrl('c')) => {
                self.dismiss_language_help(out);
                self.clear_message();
                Some(true)
            },
            _ => None,
        }
    }

    /// Starts the language server anew.
    pub fn restart_language_server(&mut self, out: &mut Vec<Effect>)
        requires
            old(self).language.epoch < u64::MAX,
        ensures
            ({
                let app = old(self).dismissed();
                *final(self) == App {
                    language: State {
                        epoch: (app.language.epoch + 1) as u64,
                        document: None,
                        completion: None,
                        force: true,
                        diagnostics: None,
                        ..app.language
                    },
                    ..app
                }.says(Message::RestartingServer)
            }),
            final(out)@ == old(out)@ + old(self).language.cancel_effects(),
    {
        self.dismiss_language_help(out);
        self.language.epoch = self.language.epoch + 1;
        self.language.document = None;
        self.language.completion = None;
        self.language.force = true;
        self.language.diagnostics = None;
        self.message = Message::RestartingServer;
    }

    /// The application after a request of the language services failed: the
    /// symbol picker shows the error where one is open, and otherwise
    /// completion does.
    #[verifier::opaque]
    pub open spec fn request_failed(self, error: Arc<Error>) -> App {
        let app = App {
            rename: crate::rename::State::idle(),
            actions: crate::actions::State::idle(),
            formatting: (crate::formatting::State { context: None }),
            ..self
        };
        if app.symbol_source() is Some {
            app.symbols_failed(error).request_cancelled().cleared()
        } else {
            app.completion_failed(*error)
        }
    }

    /// What a failed request asks for.
    #[verifier::opaque]
    pub open spec fn request_fail_effects(self, error: Arc<Error>) -> Seq<Effect> {
        if self.symbol_source() is Some {
            self.symbols_fail_effects() + self.language.cancel_effects()
        } else {
            self.completion_fail_effects(*error)
        }
    }

    pub fn fail_language_request(&mut self, error: Error, out: &mut Vec<Effect>)
        ensures
            *final(self) == old(self).request_failed(Arc::new(error)),
            final(out)@ == old(out)@ + old(self).request_fail_effects(Arc::new(error)),
            final(self).actions == crate::actions::State::idle(),
            final(self).editor == old(self).editor,
            old(self).completion.valid() ==> final(self).completion.valid(),
    {
        proof {
            reveal(App::request_failed);
            reveal(App::request_fail_effects);
        }
        self.rename.clear();
        self.actions.clear();
        self.formatting.clear();
        if self.symbol_picker_active() {
            let shared = Arc::new(error);
            self.fail_symbol_picker(&shared, out);
            self.cancel_language_request(out);
            self.clear_message();
            assert(out@ =~= old(out)@ + old(self).request_fail_effects(shared));
        } else {
            self.fail_completion(error, out);
        }
    }

    /// Whether something belongs to the present revision of a document that
    /// the server knows.
    pub open spec fn is_current(self, epoch: u64, revision: Revision) -> bool {
        &&& epoch == self.language.epoch
        &&& revision == self.editor.revision
        &&& match self.language.document {
            Some(document) => document.snapshot.document == self.editor.document
                && self.editor.language == Some(document.language),
            None => false,
        }
    }

    pub fn current_language_revision(&self, epoch: u64, revision: Revision) -> (current: bool)
        ensures
            current == self.is_current(epoch, revision),
    {
        let known = match &self.language.document {
            Some(document) => document.snapshot.document == self.editor.document && same_id(
                Some(document.language),
                self.editor.language,
            ),
            None => false,
        };
        epoch == self.language.epoch && revision == self.editor.revision && known
    }

    /// Where in the active document, or in which other one, a symbol is to be
    /// shown. `offset` is its place in the active document, where it has it,
    /// and `is_file` says what stands at the path of another.
    pub fn open_location(
        &self,
        file: FileId,
        offset: Option<usize>,
        is_file: Result<bool, Error>,
    ) -> (place: Result<Option<usize>, Error>)
        ensures
            place == if self.editor.file == Some(file) {
                match offset {
                    Some(offset) => Ok::<Option<usize>, Error>(Some(offset)),
                    None => Err::<Option<usize>, Error>(Error::InvalidSymbolPosition),
                }
            } else if self.screen().document_of(Some(file)) is Some {
                Ok::<Option<usize>, Error>(None)
            } else {
                match is_file {
                    Ok(true) => Ok::<Option<usize>, Error>(None),
                    Ok(false) => Err::<Option<usize>, Error>(Error::SymbolNotAFile),
                    Err(error) => Err::<Option<usize>, Error>(error),
                }
            },
    {
        if same_id(self.editor.file, Some(file)) {
            return match offset {
                Some(offset) => Ok(Some(offset)),
                None => Err(Error::InvalidSymbolPosition),
            };
        }
        if self.document_with_file(Some(file)).is_some() {
            return Ok(None);
        }
        match is_file {
            Ok(true) => Ok(None),
            Ok(false) => Err(Error::SymbolNotAFile),
            Err(error) => Err(error),
        }
    }
}

/// Whether the hover popup took an event as it should.
pub open spec fn hover_event_taken(
    before: App,
    event: Event,
    after: App,
    asked: Seq<Effect>,
    asks: Seq<Effect>,
    redraw: Option<bool>,
) -> bool {
    let key = event.pressed();
    let up = key == Some(Key::Ctrl('u')) || key == Some(Key::PageUp);
    let down = key == Some(Key::Ctrl('d')) || key == Some(Key::PageDown);
    if before.language.popup is None || !(event is Key) {
        redraw is None && after == before && asks == asked
    } else if event.is_release() {
        redraw == Some(false) && after == before && asks == asked
    } else if up || down {
        &&& redraw == Some(true)
        &&& after == before
        &&& asks == asked.push(Effect::ScrollHover { down })
    } else if key == Some(Key::Escape) || key == Some(Key::Ctrl('c')) {
        &&& redraw == Some(true)
        &&& after == before.dismissed().cleared()
        &&& asks == asked + before.language.cancel_effects()
    } else {
        redraw is None && after == before && asks == asked
    }
}

/// Whether a server command was asked for as it should be.
pub open spec fn command_asked(
    before: App,
    command: u64,
    outside: bool,
    now: App,
    asked: Seq<Effect>,
    asks: Seq<Effect>,
    result: Result<(), Error>,
) -> bool {
    let waiting = {
        ||| outside
        ||| before.editor.search_waiting
        ||| before.navigation.pending is Some
        ||| before.language_waits()
        ||| before.transfer_waits()
        ||| before.editor.repeat_pending
        ||| before.completion.active is Some
            && before.completion.active->0.accepting
        ||| before.picker.active is Some && before.picker.active->0.accept_pending
    };
    if waiting || !before.language.enabled {
        &&& result == Err::<(), Error>(
            if waiting { Error::OperationPending } else { Error::ServicesDisabled },
        )
        &&& now == before
        &&& asks == asked
    } else {
        let app = before.picker_closed().dismissed();
        &&& result is Ok
        &&& now == (App {
            language: State {
                command: Some(
                    (
                        Context {
                            scope: Scope::Workspace,
                            stamp: before.editor.workspace_stamp,
                        },
                        command,
                    ),
                ),
                ..app.language
            },
            ..app
        })
        &&& asks == asked + before.close_effects()
            + before.picker_closed().language.cancel_effects()
    }
}

} // verus!
