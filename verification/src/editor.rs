//! What the application knows of the active document and its view.

use crate::selection::{DocumentId, Revision, Selection, Selections, ViewId};
use std::sync::Arc;
use vstd::prelude::*;

verus! {

/// A moment, in nanoseconds since the application started.
pub type Time = u64;

/// Nanoseconds in a millisecond.
pub const MILLISECOND: u64 = 1_000_000;

/// Identity of a resolved path: equal exactly when the paths are.
pub type FileId = u64;

/// Identity of a supported language.
pub type LanguageId = u64;

#[derive(Clone, Copy, Debug, PartialEq, Eq, Structural)]
pub enum Mode {
    Normal,
    Insert,
    Select,
}

/// The version of a document that a snapshot holds.
#[derive(Clone, Copy, Debug, PartialEq, Eq, Structural)]
pub struct Snapshot {
    pub document: DocumentId,
    pub revision: Revision,
}

/// The language server configured for a language.
#[derive(Debug)]
pub struct Server {
    pub label: String,
    pub command: String,
}

/// What a captured place may be compared with later.
#[derive(Clone, Copy, Debug, PartialEq, Eq, Structural)]
pub enum Scope {
    /// The active document, its selections and settings.
    Document,
    /// These, and every open document of the workspace.
    Workspace,
}

/// A place that a request was made from. The stamp is that of the editor at
/// the time: it stays the same as long as nothing in the scope changes.
#[derive(Clone, Copy, Debug, PartialEq, Eq, Structural)]
pub struct Context {
    pub scope: Scope,
    pub stamp: u64,
}

/// How a search prompt is doing.
#[derive(Clone, Copy, Debug, PartialEq, Eq, Structural)]
pub enum SearchStatus {
    Empty,
    NoMatch,
    Match,
    Pending,
    /// The pattern is no pattern.
    Invalid,
}

/// The active document and view, as they are between two operations on them.
#[derive(Debug)]
pub struct Editor {
    pub document: DocumentId,
    pub revision: Revision,
    pub view: ViewId,
    pub selections: Arc<Selections>,
    pub mode: Mode,
    /// Where the cursor is drawn: the primary head, or the character it
    /// stands on outside insert mode.
    pub cursor: usize,
    /// Characters in the text.
    pub length: usize,
    /// Bytes in the text.
    pub bytes: usize,
    /// Lines in the text.
    pub lines: usize,
    pub language: Option<LanguageId>,
    pub server: Option<Server>,
    /// The file of the document, where it has one.
    pub file: Option<FileId>,
    /// Whether the text differs from the file.
    pub dirty: bool,
    /// The present stamp of each scope.
    pub document_stamp: u64,
    pub workspace_stamp: u64,
    /// The operation of the open search prompt, where one is open.
    pub search_prompt: Option<u64>,
    /// The register that the open search prompt was asked to use.
    pub search_register: Option<char>,
    pub search_status: Option<SearchStatus>,
    /// Whether a search is running that later keys wait for.
    pub search_waiting: bool,
    /// Whether an accepted search has not finished.
    pub search_pending: bool,
    /// Whether a repeated command has steps left.
    pub repeat_pending: bool,
    /// Whether the next of these steps may run now.
    pub repeat_ready: bool,
    /// Whether the keymap waits for the rest of a key sequence.
    pub keys_pending: bool,
}

impl Context {
    /// Whether nothing in the scope has changed.
    pub open spec fn holds(self, editor: Editor) -> bool {
        match self.scope {
            Scope::Document => self.stamp == editor.document_stamp,
            Scope::Workspace => self.stamp == editor.workspace_stamp,
        }
    }

    /// Whether nothing in the scope has changed.
    pub fn current(&self, editor: &Editor) -> (current: bool)
        ensures
            current == self.holds(*editor),
    {
        match self.scope {
            Scope::Document => self.stamp == editor.document_stamp,
            Scope::Workspace => self.stamp == editor.workspace_stamp,
        }
    }
}

impl Editor {
    /// The primary selection.
    pub open spec fn spec_primary(self) -> Selection {
        self.selections@.ranges[self.selections@.primary as int]
    }

    /// What always holds: there is a primary selection, and only a language has
    /// a server.
    pub open spec fn valid(self) -> bool {
        &&& self.selections@.primary < self.selections@.ranges.len()
        &&& self.server is Some ==> self.language is Some
    }

    pub fn primary(&self) -> (selection: Selection)
        requires
            self.valid(),
        ensures
            selection == self.spec_primary(),
    {
        self.selections.ranges[self.selections.primary]
    }

    /// The place of the active document and everything it belongs to.
    pub fn workspace_context(&self) -> (context: Context)
        ensures
            context == (Context { scope: Scope::Workspace, stamp: self.workspace_stamp }),
            context.holds(*self),
    {
        Context { scope: Scope::Workspace, stamp: self.workspace_stamp }
    }

    /// The place of the active document alone.
    pub fn document_context(&self) -> (context: Context)
        ensures
            context == (Context { scope: Scope::Document, stamp: self.document_stamp }),
            context.holds(*self),
    {
        Context { scope: Scope::Document, stamp: self.document_stamp }
    }
}

} // verus!
