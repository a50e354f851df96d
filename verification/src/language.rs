//! Language-service state, navigation, and presentation.

use crate::app::App;
use crate::completion::CompletionTrigger;
use crate::editor::{Context, FileId, LanguageId, Mode, Snapshot};
use crate::effect::{Effect, Job};
use crate::selection::{DocumentId, Revision, Selection, Selections};
use std::sync::Arc;
use vstd::prelude::*;

verus! {

/// Documents larger than this are not given to language servers.
pub const MAX_DOCUMENT_BYTES: usize = 8388608;

#[derive(Clone, Copy, Debug, PartialEq, Eq, Structural)]
pub enum Navigation {
    Definition,
    TypeDefinition,
    Implementation,
    References,
}

/// What is asked of a language server.
#[derive(Debug)]
pub enum RequestKind {
    Hover,
    SignatureHelp,
    Navigation(Navigation),
    DocumentHighlights,
    PrepareRename { selection: Selection, context: Context },
    Rename { name: String, context: Context },
    Format { range: Option<Selection> },
    CodeActions { selection: Selection, context: Context },
    ApplyCodeAction { action: u64, context: Context },
    ExecuteCommand { command: u64, context: Context },
    Completion(CompletionTrigger),
    /// Ask for the rest of a completion item.
    ResolveCompletion(u64),
    DocumentSymbols,
    WorkspaceSymbols(String),
}

/// How the server of the document is doing.
#[derive(Clone, Copy, Debug, PartialEq, Eq, Structural)]
pub enum Status {
    Absent,
    Starting,
    Ready,
    Unavailable,
}

/// A document as a language server knows it.
#[derive(Clone, Copy, Debug, PartialEq, Eq, Structural)]
pub struct ServerDocument {
    pub epoch: u64,
    pub language: LanguageId,
    pub file: FileId,
    pub snapshot: Snapshot,
    pub saved: u64,
    pub saved_snapshot: Option<Snapshot>,
}

/// A request without an answer yet, with the place it was made at.
#[derive(Debug)]
pub struct Pending {
    pub id: u64,
    pub revision: Revision,
    pub document: DocumentId,
    pub selections: Arc<Selections>,
    pub mode: Mode,
    /// Whether keys wait for the answer.
    pub waiting: bool,
    /// Whether the request runs a server command.
    pub executing: bool,
    pub window: u64,
}

/// A problem that the server found in the document.
#[derive(Debug)]
pub struct Diagnostic {
    pub start: usize,
    pub end: usize,
    pub line: usize,
    pub severity: u8,
    pub message: Arc<String>,
}

/// What the server offers for completion.
#[derive(Debug)]
pub struct CompletionOptions {
    pub trigger_characters: Vec<char>,
}

#[derive(Debug)]
pub struct State {
    pub enabled: bool,
    pub epoch: u64,
    pub document: Option<ServerDocument>,
    pub force: bool,
    pub next_request: u64,
    pub pending: Option<Pending>,
    pub command: Option<(Context, u64)>,
    pub workspace_generation: u64,
    pub catalog_generation: u64,
    pub diagnostics: Option<Vec<Diagnostic>>,
    pub diagnostic_revision: Option<(DocumentId, Revision)>,
    pub popup: Option<String>,
    pub status: Status,
    pub completion: Option<CompletionOptions>,
    pub saved: u64,
    pub saved_snapshot: Option<Snapshot>,
}

/// Whether two identities, where there are any, are the same.
pub fn same_id(a: Option<u64>, b: Option<u64>) -> (same: bool)
    ensures
        same == (a == b),
{
    match (a, b) {
        (Some(a), Some(b)) => a == b,
        (None, None) => true,
        _ => false,
    }
}

impl State {
    /// The state without a pending request. What the server was told last is
    /// told again after one was given up.
    pub open spec fn cancelled(self) -> State {
        State { pending: None, force: self.force || self.pending is Some, ..self }
    }

    /// What giving up the pending request asks for.
    pub open spec fn cancel_effects(self) -> Seq<Effect> {
        match self.pending {
            Some(pending) => seq![Effect::Cancel(Job::Language(pending.id))],
            None => seq![],
        }
    }

    /// Gives up the pending request.
    pub fn cancel(&mut self, out: &mut Vec<Effect>)
        ensures
            *final(self) == old(self).cancelled(),
            final(out)@ == old(out)@ + old(self).cancel_effects(),
    {
        match self.pending.take() {
            Some(pending) => {
                out.push(Effect::Cancel(Job::Language(pending.id)));
                self.force = true;
            },
            None => {},
        }
        assert(out@ =~= old(out)@ + old(self).cancel_effects());
    }
}

impl App {
    /// Whether the server of the active document answers, and knows it under
    /// its present name and language.
    pub open spec fn server_ready(self) -> bool {
        &&& self.language.enabled
        &&& self.language.status == Status::Ready
        &&& self.editor.server is Some
        &&& self.editor.bytes <= MAX_DOCUMENT_BYTES
        &&& match self.language.document {
            Some(document) => {
                &&& document.snapshot.document == self.editor.document
                &&& self.editor.language == Some(document.language)
                &&& self.editor.file == Some(document.file)
            },
            None => false,
        }
    }

    /// What the server of the active document offers for completion.
    pub open spec fn offered_completion(self) -> Option<CompletionOptions> {
        if self.server_ready() { self.language.completion } else { None }
    }

    /// What the server of the active document offers for completion.
    pub fn completion_options(&self) -> (options: Option<&CompletionOptions>)
        ensures
            match options {
                Some(options) => self.offered_completion() == Some(*options),
                None => self.offered_completion() is None,
            },
    {
        let known = match &self.language.document {
            Some(document) => document.snapshot.document == self.editor.document
                && same_id(Some(document.language), self.editor.language) && same_id(
                self.editor.file,
                Some(document.file),
            ),
            None => false,
        };
        if !self.language.enabled || self.language.status != Status::Ready
            || self.editor.server.is_none() || self.editor.bytes > MAX_DOCUMENT_BYTES || !known {
            return None;
        }
        self.language.completion.as_ref()
    }

    /// Whether keys wait for the language server.
    pub open spec fn language_waits(self) -> bool {
        ||| self.language.command is Some
        ||| self.actions.request is Some
        ||| self.language.pending is Some && self.language.pending->0.waiting
    }

    pub fn language_waiting(&self) -> (waiting: bool)
        ensures
            waiting == self.language_waits(),
    {
        let pending = match &self.language.pending {
            Some(pending) => pending.waiting,
            None => false,
        };
        self.language.command.is_some() || self.actions.waiting() || pending
    }

    /// The application without a language request, or anything that a request
    /// is being prepared for.
    pub open spec fn request_cancelled(self) -> App {
        App {
            language: State { command: None, ..self.language.cancelled() },
            rename: crate::rename::State::idle(),
            actions: crate::actions::State::idle(),
            formatting: (crate::formatting::State { context: None }),
            ..self
        }
    }

    /// The application without language requests, popups and menus.
    pub open spec fn dismissed(self) -> App {
        let rest = self.request_cancelled();
        App {
            language: State { popup: None, ..rest.language },
            completion: self.completion.cleared(),
            ..rest
        }
    }

    pub fn cancel_language_request(&mut self, out: &mut Vec<Effect>)
        ensures
            *final(self) == old(self).request_cancelled(),
            final(out)@ == old(out)@ + old(self).language.cancel_effects(),
    {
        self.language.cancel(out);
        self.rename.clear();
        self.actions.clear();
        self.formatting.clear();
        self.language.command = None;
    }

    pub fn dismiss_language_help(&mut self, out: &mut Vec<Effect>)
        ensures
            *final(self) == old(self).dismissed(),
            final(out)@ == old(out)@ + old(self).language.cancel_effects(),
    {
        self.cancel_language_request(out);
        self.language.popup = None;
        self.completion.clear();
    }
}

} // verus!
