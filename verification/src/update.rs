//! What the language service is told after every round of input and drawing.

use crate::app::App;
use crate::completion::{CompletionItem, Request};
use crate::editor::{Context, FileId, Scope, Snapshot, Time};
use crate::effect::Effect;
use crate::error::Error;
use crate::language::{
    same_id, Navigation, Pending, RequestKind, ServerDocument, State, Status, MAX_DOCUMENT_BYTES,
};
use crate::message::Message;
use crate::server::{LanguageAction, ServerRequest, Update};
use crate::shared::share;
use std::sync::Arc;
use vstd::prelude::*;

verus! {

/// Whether a request for completions begins with an empty list.
pub open spec fn begins_empty(request: Request, items: Vec<CompletionItem>) -> bool {
    request.kind is Completion ==> items@.len() == 0
}

impl App {
    /// The application without menus and pickers for places that the editor has
    /// left, and with completions asked for that are due.
    #[verifier::opaque]
    pub open spec fn update_checked(self, now: Time) -> App {
        self.actions_checked().symbols_checked().locations_checked().completion_polled(now)
    }

    /// What these checks ask for.
    #[verifier::opaque]
    pub open spec fn update_check_effects(self) -> Seq<Effect> {
        let a = self.actions_checked();
        let b = a.symbols_checked();
        let c = b.locations_checked();
        a.symbols_check_effects() + b.locations_check_effects() + c.check_effects()
    }

    fn check_places(&mut self, now: Time, out: &mut Vec<Effect>)
        requires
            old(self).completion.valid(),
            old(self).actions.valid(),
        ensures
            *final(self) == old(self).update_checked(now),
            final(out)@ == old(out)@ + old(self).update_check_effects(),
            final(self).completion.valid(),
            final(self).actions.valid(),
            final(self).editor == old(self).editor,
            final(self).windows == old(self).windows,
            final(self).language.enabled == old(self).language.enabled,
            final(self).language.epoch == old(self).language.epoch,
            final(self).language.next_request == old(self).language.next_request,
    {
        proof {
            reveal(App::update_checked);
            reveal(App::update_check_effects);
        }
        self.invalidate_code_actions();
        self.invalidate_symbol_picker(out);
        self.invalidate_location_picker(out);
        self.poll_completion(now, out);
        assert(out@ =~= old(out)@ + old(self).update_check_effects());
    }

    /// The application without a request for a place that the editor has left.
    pub open spec fn pending_checked(self) -> App {
        match self.language.pending {
            Some(pending) => if self.at_request(pending) { self } else { self.request_cancelled() },
            None => self,
        }
    }

    /// What giving up such a request asks for.
    pub open spec fn pending_check_effects(self) -> Seq<Effect> {
        match self.language.pending {
            Some(pending) => if self.at_request(pending) {
                seq![]
            } else {
                self.language.cancel_effects()
            },
            None => seq![],
        }
    }

    /// The file that the server is told of: that of a document whose language
    /// has a server.
    pub open spec fn server_file(self) -> Option<FileId> {
        if self.editor.server is Some { self.editor.file } else { None }
    }

    /// Whether the server knows another document, or none, or one too many.
    pub open spec fn identity_changes(self) -> bool {
        match (self.language.document, self.server_file()) {
            (Some(old), Some(file)) => {
                ||| old.file != file
                ||| old.snapshot.document != self.editor.document
                ||| self.editor.language != Some(old.language)
            },
            (None, None) => false,
            _ => true,
        }
    }

    /// The application that starts over with another document.
    #[verifier::opaque]
    pub open spec fn identity_settled(self) -> App {
        if self.identity_changes() {
            App {
                language: State {
                    completion: None,
                    epoch: (self.language.epoch + 1) as u64,
                    diagnostics: None,
                    popup: None,
                    status: if self.server_file() is Some {
                        Status::Starting
                    } else {
                        Status::Absent
                    },
                    ..self.language.cancelled()
                },
                rename: crate::rename::State::idle(),
                actions: crate::actions::State::idle(),
                formatting: (crate::formatting::State { context: None }),
                completion: self.completion.cleared(),
                ..self
            }
        } else {
            self
        }
    }

    /// What starting over asks for.
    pub open spec fn identity_effects(self) -> Seq<Effect> {
        if self.identity_changes() { self.language.cancel_effects() } else { seq![] }
    }

    fn settle_identity(&mut self, out: &mut Vec<Effect>) -> (changed: bool)
        requires
            old(self).language.epoch < u64::MAX,
            old(self).completion.valid(),
            old(self).actions.valid(),
        ensures
            ({
                let ready = old(self).diagnostics_refreshed().pending_checked();
                &&& changed == ready.identity_changes()
                &&& *final(self) == ready.identity_settled()
                &&& final(out)@ == old(out)@
                    + old(self).diagnostics_refreshed().pending_check_effects()
                    + ready.identity_effects()
            }),
            final(self).completion.valid(),
            final(self).actions.valid(),
            final(self).editor == old(self).editor,
            final(self).windows == old(self).windows,
            final(self).language.next_request == old(self).language.next_request,
    {
        proof {
            reveal(App::identity_settled);
        }
        self.refresh_diagnostics();
        let ghost fresh = *self;
        let stale = match &self.language.pending {
            Some(pending) => !self.still_at(pending),
            None => false,
        };
        if stale {
            self.cancel_language_request(out);
        }
        let ghost ready = *self;
        assert(out@ =~= old(out)@ + fresh.pending_check_effects());
        assert(ready == fresh.pending_checked());
        let file = if self.editor.server.is_some() { self.editor.file } else { None };
        let changed = match (&self.language.document, file) {
            (Some(old), Some(file)) => old.file != file || old.snapshot.document
                != self.editor.document || !same_id(Some(old.language), self.editor.language),
            (None, None) => false,
            _ => true,
        };
        if changed {
            self.language.cancel(out);
            self.rename.clear();
            self.actions.clear();
            self.formatting.clear();
            self.completion.clear();
            self.language.completion = None;
            self.language.epoch = self.language.epoch + 1;
            self.language.diagnostics = None;
            self.language.popup = None;
            self.language.status = if file.is_some() { Status::Starting } else { Status::Absent };
        }
        assert(out@ =~= old(out)@ + fresh.pending_check_effects() + ready.identity_effects());
        changed
    }

    /// The document as the server is told of it.
    pub open spec fn next_document(self) -> Option<ServerDocument> {
        match self.server_file() {
            Some(file) => Some(
                ServerDocument {
                    epoch: self.language.epoch,
                    language: self.editor.language->0,
                    file,
                    snapshot: Snapshot {
                        document: self.editor.document,
                        revision: self.editor.revision,
                    },
                    saved: self.language.saved,
                    saved_snapshot: self.own_savepoint(),
                },
            ),
            None => None,
        }
    }

    fn document_for_server(&self) -> (document: Option<ServerDocument>)
        requires
            self.editor.valid(),
        ensures
            document == self.next_document(),
    {
        let file = if self.editor.server.is_some() { self.editor.file } else { None };
        match (file, self.editor.language) {
            (Some(file), Some(language)) => Some(
                ServerDocument {
                    epoch: self.language.epoch,
                    language,
                    file,
                    snapshot: Snapshot {
                        document: self.editor.document,
                        revision: self.editor.revision,
                    },
                    saved: self.language.saved,
                    saved_snapshot: self.savepoint(),
                },
            ),
            _ => None,
        }
    }

    /// Whether the server does not know the text yet, or is to hear of it
    /// again.
    pub open spec fn update_due(self, changed: bool) -> bool {
        ||| changed
        ||| self.language.force
        ||| self.language.document matches Some(old) && (old.snapshot.revision
            != self.editor.revision || old.saved != self.language.saved)
    }

    /// The application and the request that waits to be made, the most pressing
    /// first: a server command, a code action, a rename, symbols, completions.
    #[verifier::opaque]
    pub open spec fn waiting_request(self, now: Time) -> (App, Option<Request>) {
        let a = self.command_taken();
        let checked = a.actions_checked();
        let b = App {
            actions: crate::actions::State { request: None, ..checked.actions },
            ..a
        };
        let c = b.rename_taken();
        let d = c.symbols_asked(now);
        if self.command_request() is Some {
            (a, Some(Request { kind: self.command_request()->0, automatic: false }))
        } else if checked.actions.request is Some {
            (b, Some(Request { kind: checked.actions.request->0, automatic: false }))
        } else if b.rename_request() is Some {
            (c, Some(Request { kind: b.rename_request()->0, automatic: false }))
        } else if c.symbol_request(now) is Some {
            (d, Some(Request { kind: c.symbol_request(now)->0, automatic: false }))
        } else {
            (
                App {
                    completion: crate::completion::State { outgoing: None, ..d.completion },
                    ..d
                },
                d.completion.outgoing,
            )
        }
    }

    fn take_waiting_request(&mut self, now: Time) -> (request: Option<Request>)
        requires
            old(self).completion.valid(),
            old(self).actions.valid(),
        ensures
            (*final(self), request) == old(self).waiting_request(now),
            final(self).completion.valid(),
            final(self).actions.valid(),
            final(self).editor == old(self).editor,
            final(self).windows == old(self).windows,
            final(self).language.next_request == old(self).language.next_request,
    {
        proof {
            reveal(App::waiting_request);
        }
        match self.take_command_request() {
            Some(kind) => {
                return Some(Request { kind, automatic: false });
            },
            None => {},
        }
        match self.take_code_action_request() {
            Some(kind) => {
                return Some(Request { kind, automatic: false });
            },
            None => {},
        }
        match self.take_rename_request() {
            Some(kind) => {
                return Some(Request { kind, automatic: false });
            },
            None => {},
        }
        match self.take_symbol_request(now) {
            Some(kind) => {
                return Some(Request { kind, automatic: false });
            },
            None => {},
        }
        self.take_completion_request()
    }

    /// The application and the request to make: what the keymap asks for, or
    /// else what waits.
    #[verifier::opaque]
    pub open spec fn selected_request(
        self,
        action: Option<LanguageAction>,
        now: Time,
    ) -> (App, Option<Request>) {
        let ask = |kind: RequestKind| Some(Request { kind, automatic: false });
        let place = Context { scope: Scope::Workspace, stamp: self.editor.workspace_stamp };
        let primary = self.editor.spec_primary();
        match action {
            Some(LanguageAction::Hover) => (self, ask(RequestKind::Hover)),
            Some(LanguageAction::Definition) => (
                self,
                ask(RequestKind::Navigation(Navigation::Definition)),
            ),
            Some(LanguageAction::TypeDefinition) => (
                self,
                ask(RequestKind::Navigation(Navigation::TypeDefinition)),
            ),
            Some(LanguageAction::Implementation) => (
                self,
                ask(RequestKind::Navigation(Navigation::Implementation)),
            ),
            Some(LanguageAction::References) => (
                self,
                ask(RequestKind::Navigation(Navigation::References)),
            ),
            Some(LanguageAction::DocumentHighlights) => (
                self,
                ask(RequestKind::DocumentHighlights),
            ),
            Some(LanguageAction::Rename) => (
                App {
                    rename: crate::rename::State { context: Some(place), ..self.rename },
                    ..self
                },
                ask(RequestKind::PrepareRename { selection: primary, context: place }),
            ),
            Some(LanguageAction::FormatSelections) => (
                self.formatting_prepared(),
                ask(RequestKind::Format { range: Some(primary) }),
            ),
            Some(LanguageAction::FormatDocument) => (
                self.formatting_prepared(),
                ask(RequestKind::Format { range: None }),
            ),
            Some(LanguageAction::CodeAction) => (
                self.actions_prepared(),
                ask(RequestKind::CodeActions { selection: primary, context: place }),
            ),
            Some(LanguageAction::Completion) => (
                self,
                ask(
                    RequestKind::Completion(crate::completion::CompletionTrigger::Invoked),
                ),
            ),
            _ => self.waiting_request(now),
        }
    }

    /// What choosing the request asks for.
    pub open spec fn selection_effects(self, action: Option<LanguageAction>) -> Seq<Effect> {
        match action {
            Some(LanguageAction::FormatSelections)
            | Some(LanguageAction::FormatDocument)
            | Some(LanguageAction::CodeAction) => self.close_effects(),
            _ => seq![],
        }
    }

    fn select_request(
        &mut self,
        action: Option<LanguageAction>,
        now: Time,
        out: &mut Vec<Effect>,
    ) -> (request: Option<Request>)
        requires
            old(self).editor.valid(),
            old(self).completion.valid(),
            old(self).actions.valid(),
        ensures
            (*final(self), request) == old(self).selected_request(action, now),
            final(out)@ == old(out)@ + old(self).selection_effects(action),
            final(self).completion.valid(),
            final(self).actions.valid(),
            final(self).editor == old(self).editor,
            final(self).windows == old(self).windows,
            final(self).language.next_request == old(self).language.next_request,
    {
        proof {
            reveal(App::selected_request);
        }
        assert(out@ =~= old(out)@ + Seq::<Effect>::empty());
        let kind = match action {
            Some(LanguageAction::Hover) => RequestKind::Hover,
            Some(LanguageAction::Definition) => RequestKind::Navigation(Navigation::Definition),
            Some(LanguageAction::TypeDefinition) => RequestKind::Navigation(
                Navigation::TypeDefinition,
            ),
            Some(LanguageAction::Implementation) => RequestKind::Navigation(
                Navigation::Implementation,
            ),
            Some(LanguageAction::References) => RequestKind::Navigation(Navigation::References),
            Some(LanguageAction::DocumentHighlights) => RequestKind::DocumentHighlights,
            Some(LanguageAction::Rename) => self.prepare_rename_request(),
            Some(LanguageAction::FormatSelections) => self.prepare_formatting_request(false, out),
            Some(LanguageAction::FormatDocument) => self.prepare_formatting_request(true, out),
            Some(LanguageAction::CodeAction) => self.prepare_code_actions_request(out),
            Some(LanguageAction::Completion) => RequestKind::Completion(
                crate::completion::CompletionTrigger::Invoked,
            ),
            _ => {
                return self.take_waiting_request(now);
            },
        };
        Some(Request { kind, automatic: false })
    }

    /// Why a request is not made, where it is not.
    pub open spec fn refusal(self, document: Option<ServerDocument>) -> Option<Error> {
        if document is None {
            Some(Error::ServerRequired)
        } else if self.language.status == Status::Unavailable {
            Some(Error::ServerUnavailable)
        } else if self.editor.bytes > MAX_DOCUMENT_BYTES {
            Some(Error::DocumentTooLarge)
        } else {
            None
        }
    }

    /// Whether a request that was not asked for is dropped: the server does not
    /// offer completions now.
    pub open spec fn drops(self, request: Request) -> bool {
        request.automatic && self.offered_completion() is None
    }

    /// The request that is made, with the place it is made at.
    pub open spec fn new_pending(self, kind: RequestKind) -> Pending {
        Pending {
            id: (self.language.next_request + 1) as u64,
            revision: self.editor.revision,
            document: self.editor.document,
            selections: self.editor.selections,
            mode: self.editor.mode,
            executing: kind is ExecuteCommand,
            window: self.window(),
            waiting: kind.waits(),
        }
    }

    /// The application after a request was made. `items` is the empty list that
    /// a request for completions begins with.
    #[verifier::opaque]
    pub open spec fn request_made(self, request: Request, items: Vec<CompletionItem>) -> App {
        let cancelled = App { language: self.language.cancelled(), ..self };
        let begun = if request.kind is Completion {
            App {
                completion: cancelled.completion.cleared(),
                ..cancelled
            }.with_session(cancelled.fresh_session(request.automatic, items))
        } else {
            cancelled
        };
        let app = App {
            language: State {
                next_request: (begun.language.next_request + 1) as u64,
                pending: Some(begun.new_pending(request.kind)),
                ..begun.language
            },
            ..begun
        };
        if request.automatic {
            app
        } else {
            app.says(Message::WaitingFor { server: self.editor.server->0.command })
        }
    }

    /// The application after a request was made or refused.
    pub open spec fn request_settled(
        self,
        request: Option<Request>,
        document: Option<ServerDocument>,
        items: Vec<CompletionItem>,
    ) -> App {
        match request {
            Some(request) => if self.drops(request) {
                self.dismissed()
            } else {
                match self.refusal(document) {
                    Some(error) => self.request_failed(Arc::new(error)),
                    None => self.request_made(request, items),
                }
            },
            None => self,
        }
    }

    /// What making or refusing a request asks for.
    pub open spec fn request_effects(
        self,
        request: Option<Request>,
        document: Option<ServerDocument>,
    ) -> Seq<Effect> {
        match request {
            Some(request) => if self.drops(request) {
                self.language.cancel_effects()
            } else {
                match self.refusal(document) {
                    Some(error) => self.request_fail_effects(Arc::new(error)),
                    None => self.language.cancel_effects(),
                }
            },
            None => seq![],
        }
    }

    /// The request as the server gets it, where it is made.
    pub open spec fn sent_request(
        self,
        request: Option<Request>,
        document: Option<ServerDocument>,
    ) -> Option<ServerRequest> {
        match request {
            Some(request) => if self.drops(request) || self.refusal(document) is Some {
                None
            } else {
                Some(
                    ServerRequest {
                        id: (self.language.next_request + 1) as u64,
                        kind: request.kind,
                        position: self.editor.cursor,
                    },
                )
            },
            None => None,
        }
    }

    fn make_request(&mut self, request: Request, out: &mut Vec<Effect>) -> (sent: ServerRequest)
        requires
            old(self).language.next_request < u64::MAX,
            old(self).editor.server is Some,
            old(self).completion.valid(),
        ensures
            exists|items: Vec<CompletionItem>| #[trigger]
                begins_empty(request, items) && *final(self) == old(self).request_made(
                    request,
                    items,
                ),
            final(out)@ == old(out)@ + old(self).language.cancel_effects(),
            sent == (ServerRequest {
                id: (old(self).language.next_request + 1) as u64,
                kind: request.kind,
                position: old(self).editor.cursor,
            }),
            final(self).completion.valid(),
            final(self).actions == old(self).actions,
            final(self).editor == old(self).editor,
    {
        proof {
            reveal(App::request_made);
        }
        self.language.cancel(out);
        let ghost cancelled = *self;
        let completes = match &request.kind {
            RequestKind::Completion(_) => true,
            _ => false,
        };
        let ghost mut items: Vec<CompletionItem> = arbitrary();
        if completes {
            self.begin_completion(request.automatic);
            proof {
                items = choose|items: Vec<CompletionItem>| #[trigger]
                    items@.len() == 0 && *self == (App {
                        completion: cancelled.completion.cleared(),
                        ..cancelled
                    }).with_session(cancelled.fresh_session(request.automatic, items));
            }
        }
        let id = self.language.next_request + 1;
        let executing = match &request.kind {
            RequestKind::ExecuteCommand { .. } => true,
            _ => false,
        };
        let pending = Pending {
            id,
            revision: self.editor.revision,
            document: self.editor.document,
            selections: share(&self.editor.selections),
            mode: self.editor.mode,
            waiting: request.kind.is_waiting(),
            executing,
            window: self.focused_window_id(),
        };
        self.language.next_request = id;
        self.language.pending = Some(pending);
        if !request.automatic {
            match &self.editor.server {
                Some(server) => {
                    self.message = Message::WaitingFor { server: server.command.clone() };
                },
                None => {},
            }
        }
        assert(begins_empty(request, items));
        assert(*self == old(self).request_made(request, items));
        ServerRequest { id, kind: request.kind, position: self.editor.cursor }
    }
}

/// Whether the list that a request begins with, where one is made, is empty.
pub open spec fn starts_empty(
    app: App,
    request: Option<Request>,
    document: Option<ServerDocument>,
    items: Vec<CompletionItem>,
) -> bool {
    app.sent_request(request, document) is Some ==> begins_empty(request->0, items)
}

impl App {
    fn settle_request(
        &mut self,
        request: Option<Request>,
        document: Option<ServerDocument>,
        out: &mut Vec<Effect>,
    ) -> (sent: Option<ServerRequest>)
        requires
            old(self).language.next_request < u64::MAX,
            document is Some ==> old(self).editor.server is Some,
            old(self).completion.valid(),
            old(self).actions.valid(),
        ensures
            exists|items: Vec<CompletionItem>| #[trigger]
                starts_empty(*old(self), request, document, items) && *final(self) == old(
                    self,
                ).request_settled(request, document, items),
            final(out)@ == old(out)@ + old(self).request_effects(request, document),
            sent == old(self).sent_request(request, document),
            final(self).completion.valid(),
            final(self).actions.valid(),
            final(self).editor == old(self).editor,
    {
        let ghost asked = request;
        let ghost any: Vec<CompletionItem> = arbitrary();
        let request = match request {
            Some(request) => request,
            None => {
                assert(out@ =~= old(out)@ + Seq::<Effect>::empty());
                assert(starts_empty(*old(self), asked, document, any));
                return None;
            },
        };
        if request.automatic && self.completion_options().is_none() {
            self.dismiss_language_help(out);
            assert(starts_empty(*old(self), asked, document, any));
            return None;
        }
        let error = if document.is_none() {
            Some(Error::ServerRequired)
        } else if self.language.status == Status::Unavailable {
            Some(Error::ServerUnavailable)
        } else if self.editor.bytes > MAX_DOCUMENT_BYTES {
            Some(Error::DocumentTooLarge)
        } else {
            None
        };
        match error {
            Some(error) => {
                self.fail_language_request(error, out);
                assert(starts_empty(*old(self), asked, document, any));
                None
            },
            None => {
                let sent = self.make_request(request, out);
                proof {
                    let items = choose|items: Vec<CompletionItem>| #[trigger]
                        begins_empty(request, items) && *self == old(self).request_made(
                            request,
                            items,
                        );
                    assert(starts_empty(*old(self), asked, document, items));
                }
                Some(sent)
            },
        }
    }

    /// The application once the service was told everything.
    pub open spec fn told(self, document: Option<ServerDocument>) -> App {
        App { language: State { force: false, document, ..self.language }, ..self }
    }

    /// What the application is when language services are off: the symbol
    /// picker and an action of the keymap fail.
    pub open spec fn services_off(self, action: Option<LanguageAction>) -> App {
        let app = self.symbols_failed(Arc::new(Error::ServicesDisabledHere));
        if action is Some { app.failed(Error::ServicesDisabledHere) } else { app }
    }

    /// Decides what the language service is told after dispatch and drawing:
    /// the document where it changed, and at most one request. Called with what
    /// the keymap asked for, if anything. Only shared snapshots and small
    /// metadata cross this boundary.
    pub fn take_lsp_update(
        &mut self,
        action: Option<LanguageAction>,
        now: Time,
        out: &mut Vec<Effect>,
    ) -> (update: Option<Update>)
        requires
            old(self).editor.valid(),
            old(self).completion.valid(),
            old(self).actions.valid(),
            old(self).language.epoch < u64::MAX,
            old(self).language.next_request < u64::MAX,
        ensures
            update_taken(
                *old(self),
                action,
                now,
                *final(self),
                old(out)@,
                final(out)@,
                update,
            ),
            final(self).completion.valid(),
            final(self).actions.valid(),
    {
        self.check_places(now, out);
        let ghost checked = *self;
        if !self.language.enabled {
            let error = Arc::new(Error::ServicesDisabledHere);
            self.fail_symbol_picker(&error, out);
            if action.is_some() {
                self.fail(Error::ServicesDisabledHere);
            }
            return None;
        }
        let changed = self.settle_identity(out);
        let ghost settled = *self;
        let known = match &self.language.document {
            Some(old) => old.snapshot.revision != self.editor.revision || old.saved
                != self.language.saved,
            None => false,
        };
        let due = changed || self.language.force || known;
        let document = self.document_for_server();
        let request = self.select_request(action, now, out);
        let ghost chosen = *self;
        let ghost asked_for = request;
        let sent = self.settle_request(request, document, out);
        let ghost items = choose|items: Vec<CompletionItem>| #[trigger]
            starts_empty(chosen, asked_for, document, items) && *self == chosen.request_settled(
                asked_for,
                document,
                items,
            );
        let ghost done = out@;
        match action {
            Some(action) => match action.visits() {
                Some(visit) => {
                    self.navigate_diagnostic(visit, out);
                    proof {
                        lemma_visits_unchanged(chosen, asked_for, document, items, visit);
                    }
                },
                None => {},
            },
            None => {},
        }
        assert(out@ =~= done + visit_effects_after(chosen, action));
        self.language.force = false;
        self.language.document = document;
        assert(*self == chosen.request_settled(asked_for, document, items).told(document));
        if due || sent.is_some() {
            Some(Update { document, request: sent })
        } else {
            None
        }
    }
}

/// Whether the language service was told what it should be: the document where
/// it changed, and the request that the keymap asks for or that waits, where it
/// can be made.
pub open spec fn update_taken(
    before: App,
    action: Option<LanguageAction>,
    now: Time,
    after: App,
    told: Seq<Effect>,
    asks: Seq<Effect>,
    update: Option<Update>,
) -> bool {
    let checked = before.update_checked(now);
    let asked = told + before.update_check_effects();
    if !checked.language.enabled {
        &&& update is None
        &&& after == checked.services_off(action)
        &&& asks == asked + checked.symbols_fail_effects()
    } else {
        let ready = checked.diagnostics_refreshed().pending_checked();
        let settled = ready.identity_settled();
        let document = settled.next_document();
        let (chosen, request) = settled.selected_request(action, now);
        let sent = chosen.sent_request(request, document);
        &&& exists|items: Vec<CompletionItem>| #[trigger]
            starts_empty(chosen, request, document, items) && after
                == chosen.request_settled(request, document, items).told(document)
        &&& asks == asked
            + checked.diagnostics_refreshed().pending_check_effects()
            + ready.identity_effects() + settled.selection_effects(action)
            + chosen.request_effects(request, document) + visit_effects_after(
            chosen,
            action,
        )
        &&& update == if settled.update_due(ready.identity_changes()) || sent
            is Some {
            Some(Update { document, request: sent })
        } else {
            None
        }
    }
}

/// What going to a problem, where the keymap asked for that, asks for.
pub open spec fn visit_effects_after(
    app: App,
    action: Option<LanguageAction>,
) -> Seq<Effect> {
    match action {
        Some(action) => match action.visit() {
            Some(visit) => app.visit_effects(visit),
            None => seq![],
        },
        None => seq![],
    }
}

/// Making or refusing a request leaves the problems and the cursor alone.
proof fn lemma_visits_unchanged(
    app: App,
    request: Option<Request>,
    document: Option<ServerDocument>,
    items: Vec<CompletionItem>,
    visit: crate::diagnostics::Visit,
)
    ensures
        app.request_settled(request, document, items).visit_effects(visit) == app.visit_effects(
            visit,
        ),
{
    reveal(App::request_made);
    reveal(App::request_failed);
}

/// A request for a place that the editor has left is never kept, and never
/// answered: after an update, whatever waits for an answer was asked for at
/// the present place.
pub proof fn law_pending_requests_belong_to_the_present_place(app: App)
    ensures
        app.pending_checked().language.pending matches Some(pending)
            ==> app.pending_checked().at_request(pending),
{
}

/// An update never carries a request of a document that is too large, has no
/// server, or whose server has failed.
pub proof fn law_requests_need_a_working_server(
    app: App,
    request: Option<Request>,
    document: Option<ServerDocument>,
)
    requires
        app.sent_request(request, document) is Some,
    ensures
        document is Some,
        app.language.status != Status::Unavailable,
        app.editor.bytes <= MAX_DOCUMENT_BYTES,
{
}

/// Request numbers only grow, so that an answer to an earlier request is never
/// taken for that to a later one.
pub proof fn law_request_numbers_grow(app: App, request: Request, items: Vec<CompletionItem>)
    requires
        app.language.next_request < u64::MAX,
    ensures
        app.request_made(request, items).language.pending matches Some(pending) && pending.id
            > app.language.next_request && pending.id == app.request_made(
            request,
            items,
        ).language.next_request,
{
    reveal(App::request_made);
}

} // verus!
