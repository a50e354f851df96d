//! What the application asks of the components around it.

use crate::error::Error;
use crate::event::{Event, Key};
use crate::picker::Catalog;
use crate::selection::{DocumentId, Selection, ViewId};
use crate::windows::Root;
use std::sync::Arc;
use vstd::prelude::*;

verus! {

/// A background job that may be given up.
#[derive(Clone, Copy, Debug, PartialEq, Eq, Structural)]
pub enum Job {
    /// A language request, by its number.
    Language(u64),
    /// A picker's query, by its session and revision.
    Query(u64, u64),
    /// A picker's preview, by its session and number.
    Preview(u64, u64),
    /// The loading of a location, by its number.
    Location(u64),
    /// A clipboard transfer, by its number.
    Clipboard(u64),
    /// A look at repositories, by its number.
    Status(u64),
    /// A comparison of documents with their repositories, by its number.
    Git(u64),
}

/// Which clipboard a register stands for.
#[derive(Clone, Copy, Debug, PartialEq, Eq, Structural)]
pub enum ClipboardKind {
    System,
    Primary,
}

/// One thing to be done, in the order in which they are asked for.
#[derive(Debug)]
pub enum Effect {
    /// Tell a background job that its result is no longer wanted.
    Cancel(Job),
    /// Forget the keys of an unfinished sequence.
    CancelKeys,
    /// Close the search prompt and restore the selections before it.
    CancelSearch,
    /// Close the current undo group.
    FinishUndoGroup,
    /// Make another open document the active one.
    SwitchBuffer(DocumentId),
    /// Make a newly loaded document the active one, with its view under this
    /// identity.
    InstallBuffer(DocumentId, ViewId),
    /// Close a document, with everything in it that was not saved.
    DropBuffer(DocumentId),
    /// Keep a document that no window shows, until one shows it again.
    HideBuffer(DocumentId),
    /// Make a view of the active document the active one.
    FocusView(ViewId),
    /// Make a view like the active one, under this identity.
    DuplicateView(ViewId),
    /// Forget a view of a document.
    RemoveView(DocumentId, ViewId),
    /// Forget every view of the active document but the active one.
    RetainActiveView,
    /// Let a captured list stand for what is there now.
    Capture(Catalog, u64),
    /// Take an event as if it had just arrived.
    Replay(Event),
    /// Clear the command line.
    ClearMessage,
    /// Report an error on the command line.
    Report(Error),
    /// Apply the edits of a completion, then take the event that follows it.
    ApplyCompletion { item: u64, following: Option<Event> },
    /// Show a repository view in place of the commit message that it belongs to.
    LeaveDraft(Root),
    /// Search for the text of a prompt, without accepting it.
    PreviewSearch(String),
    /// Give a key to the prompt.
    PromptKey(Key),
    /// Insert a text into the prompt, and search for it where it is a search.
    PromptInsert(String),
    /// Paste a text into the document, and report what goes wrong.
    Paste(String),
    /// Stop a command that repeats.
    CancelRepeat,
    /// See whether the editor asks for a search.
    OpenSearchPrompt,
    /// Give a key to the keymap, and report what goes wrong.
    HandleKey(Key),
    /// Look for an action that the editor wants of the application.
    ApplyAction,
    /// Show the rows of a picker as those of an older query.
    BeginUpdate,
    /// Show the rows of a reopened or refreshed picker again.
    ResumeRows,
    /// Read the clipboard into the query of the picker.
    PickerClipboard(ClipboardKind),
    /// Read the clipboard into the prompt.
    PromptClipboard(ClipboardKind),
    /// Keep a query as the last search of a register.
    RememberSearch(char, String),
    /// Put a text into a register.
    SetRegister(char, String),
    /// Note what the registers hold, to be shown as hints.
    CacheRegisterHints,
    /// Select a problem and show its text.
    VisitDiagnostic { selection: Selection, message: Arc<String> },
    /// Paste what a clipboard job prepared, by its number.
    ApplyPaste(u64),
    /// Give up an edit that the server asked for.
    CancelServerEdit,
    /// Scroll the hover popup by a page.
    ScrollHover { down: bool },
}

} // verus!
