//! The messages of the command line.

use crate::error::Error;
use crate::text::{decimal, number};
use vstd::prelude::*;
use vstd::string::StringExecFns;

verus! {

/// What the command line says.
#[derive(Debug)]
pub enum Message {
    /// Nothing.
    Empty,
    /// Shown at start.
    Welcome,
    /// A checkpoint was recorded.
    JumpSaved,
    /// The basic keys.
    BasicKeys,
    /// The language server is starting again.
    RestartingServer,
    /// There is nothing to show about the cursor.
    NoHover,
    /// How to use the hover popup.
    Hover,
    /// The word at the cursor occurs nowhere else.
    NoReferences,
    /// A server command has run.
    CommandCompleted,
    /// The server offers nothing here.
    NoCodeActions,
    /// How to use the menu of code actions.
    CodeActions,
    /// The document was formatted already.
    NoFormatting,
    /// There is no signature here.
    NoSignature,
    /// A location is being loaded.
    OpeningLocation,
    /// The clipboard is being read.
    ReadingClipboard,
    /// The clipboard is being written.
    CopyingClipboard,
    /// How to use a repository view.
    GitKeys,
    /// The first key of a commit was typed.
    GitCommitKeys,
    /// How to use a commit message.
    CommitKeys,
    /// The first key of a commit command was typed.
    CommitPrefix,
    /// A commit message was left.
    CommitDraftKept,
    /// A repository view was pasted into.
    GitReadOnly,
    /// Pointer input is used.
    MouseOn,
    /// Pointer input is ignored.
    MouseOff,
    /// Text of another component.
    Text { text: String },
    /// A refusal.
    Failed { error: Error },
    /// A file was written.
    Wrote { bytes: u64 },
    /// The language of the document.
    Language { name: String, automatic: bool },
    /// The settings of automatic completion.
    Completion { enabled: bool, characters: u64, milliseconds: u64 },
    /// A request is on its way.
    WaitingFor { server: String },
    /// A search for locations found none.
    NoLocations { what: String },
    /// A search for locations found none that can be opened.
    NoUsableLocations { what: String, skipped: u64 },
    /// Selections were copied to the clipboard.
    Yanked { count: u64 },
    /// A file was read again.
    Reloaded { path: String },
    /// A file with unsaved edits changed on disk.
    DiskChanged { path: String },
    /// A file was removed.
    DiskRemoved { path: String },
    /// A file could not be read again.
    ReloadFailed { reason: String, path: String },
    /// A Git operation has started.
    GitRunning { title: String },
    /// A Git operation has finished.
    GitFinished { title: String, summary: String },
}

impl Message {
    /// The text of the message.
    pub open spec fn text(&self) -> Seq<char> {
        match self {
            Message::Empty => Seq::empty(),
            Message::Welcome => "i insert  / search  :w write  :q quit  :help"@,
            Message::JumpSaved => "jump checkpoint saved"@,
            Message::BasicKeys => "i/a insert  Esc normal  v select  hjkl/wbe move  /? search  n/N next/previous  u/U undo/redo  :w [PATH] write  :q[!] quit  :help COMMAND"@,
            Message::RestartingServer => "restarting language server"@,
            Message::NoHover => "no hover information"@,
            Message::Hover => "hover · Ctrl-u/Ctrl-d scroll · Esc closes"@,
            Message::NoReferences => "no document references found"@,
            Message::CommandCompleted => "language server command completed"@,
            Message::NoCodeActions => "no code actions available"@,
            Message::CodeActions => "code actions · ↑/↓ or Ctrl-p/Ctrl-n · Enter applies · Esc closes"@,
            Message::NoFormatting => "no formatting changes"@,
            Message::NoSignature => "no signature help"@,
            Message::OpeningLocation => "opening location…"@,
            Message::ReadingClipboard => "reading clipboard..."@,
            Message::CopyingClipboard => "copying to clipboard..."@,
            Message::GitKeys => "Git: Tab expand · Enter visit · s/u stage/unstage · c c commit · ? help"@,
            Message::GitCommitKeys => "c commit message · Esc cancel"@,
            Message::CommitKeys => "Commit message · Ctrl-c Ctrl-c commit · Ctrl-c Ctrl-k return and keep draft"@,
            Message::CommitPrefix => "Ctrl-c commit · Ctrl-k return and keep draft · Esc cancel prefix"@,
            Message::CommitDraftKept => "Commit draft retained for this session"@,
            Message::GitReadOnly => "Git status cannot edit the retained document; q returns to it"@,
            Message::MouseOn => "mouse on"@,
            Message::MouseOff => "mouse off"@,
            Message::Text { text } => text@,
            Message::Failed { error } => error.text(),
            Message::Wrote { bytes } => "wrote "@ + decimal(*bytes as nat) + " bytes"@,
            Message::Language { name, automatic } => "language: "@ + name@ + (if *automatic { " (auto)"@ } else { ""@ }),
            Message::Completion { enabled, characters, milliseconds } => "automatic completion: "@ + (if *enabled { "on"@ } else { "off"@ }) + ", "@ + decimal(*characters as nat) + " characters, "@ + decimal(*milliseconds as nat) + " ms"@,
            Message::WaitingFor { server } => "waiting for "@ + server@ + "..."@,
            Message::NoLocations { what } => "no "@ + what@ + " found"@,
            Message::NoUsableLocations { what, skipped } => "no usable "@ + what@ + " ("@ + decimal(*skipped as nat) + " unsupported or invalid locations)"@,
            Message::Yanked { count } => "yanked "@ + decimal(*count as nat) + " selection"@ + (if *count == 1 { ""@ } else { "s"@ }) + " to clipboard"@,
            Message::Reloaded { path } => "reloaded "@ + path@,
            Message::DiskChanged { path } => "disk changed; unsaved edits kept (:reload! to reload, :w! to overwrite): "@ + path@,
            Message::DiskRemoved { path } => "file removed on disk; buffer kept (:w! to recreate): "@ + path@,
            Message::ReloadFailed { reason, path } => "cannot reload: "@ + reason@ + " ("@ + path@ + ")"@,
            Message::GitRunning { title } => title@ + " running…"@,
            Message::GitFinished { title, summary } => title@ + ": "@ + summary@ + " · output in Git status"@,
        }
    }

    /// The text of the message.
    pub fn show(&self) -> (text: String)
        ensures
            text@ == self.text(),
    {
        match self {
            Message::Empty => String::new(),
            Message::Welcome => "i insert  / search  :w write  :q quit  :help".to_owned(),
            Message::JumpSaved => "jump checkpoint saved".to_owned(),
            Message::BasicKeys => "i/a insert  Esc normal  v select  hjkl/wbe move  /? search  n/N next/previous  u/U undo/redo  :w [PATH] write  :q[!] quit  :help COMMAND".to_owned(),
            Message::RestartingServer => "restarting language server".to_owned(),
            Message::NoHover => "no hover information".to_owned(),
            Message::Hover => "hover · Ctrl-u/Ctrl-d scroll · Esc closes".to_owned(),
            Message::NoReferences => "no document references found".to_owned(),
            Message::CommandCompleted => "language server command completed".to_owned(),
            Message::NoCodeActions => "no code actions available".to_owned(),
            Message::CodeActions => "code actions · ↑/↓ or Ctrl-p/Ctrl-n · Enter applies · Esc closes".to_owned(),
            Message::NoFormatting => "no formatting changes".to_owned(),
            Message::NoSignature => "no signature help".to_owned(),
            Message::OpeningLocation => "opening location…".to_owned(),
            Message::ReadingClipboard => "reading clipboard...".to_owned(),
            Message::CopyingClipboard => "copying to clipboard...".to_owned(),
            Message::GitKeys => "Git: Tab expand · Enter visit · s/u stage/unstage · c c commit · ? help".to_owned(),
            Message::GitCommitKeys => "c commit message · Esc cancel".to_owned(),
            Message::CommitKeys => "Commit message · Ctrl-c Ctrl-c commit · Ctrl-c Ctrl-k return and keep draft".to_owned(),
            Message::CommitPrefix => "Ctrl-c commit · Ctrl-k return and keep draft · Esc cancel prefix".to_owned(),
            Message::CommitDraftKept => "Commit draft retained for this session".to_owned(),
            Message::GitReadOnly => "Git status cannot edit the retained document; q returns to it".to_owned(),
            Message::MouseOn => "mouse on".to_owned(),
            Message::MouseOff => "mouse off".to_owned(),
            Message::Text { text } => text.clone(),
            Message::Failed { error } => error.message(),
            Message::Wrote { bytes } => {
                let mut text = "wrote ".to_owned();
                text.append(number(*bytes).as_str());
                text.append(" bytes");
                text
            },
            Message::Language { name, automatic } => {
                let mut text = "language: ".to_owned();
                text.append(name.as_str());
                text.append(if *automatic { " (auto)" } else { "" });
                text
            },
            Message::Completion { enabled, characters, milliseconds } => {
                let mut text = "automatic completion: ".to_owned();
                text.append(if *enabled { "on" } else { "off" });
                text.append(", ");
                text.append(number(*characters).as_str());
                text.append(" characters, ");
                text.append(number(*milliseconds).as_str());
                text.append(" ms");
                text
            },
            Message::WaitingFor { server } => {
                let mut text = "waiting for ".to_owned();
                text.append(server.as_str());
                text.append("...");
                text
            },
            Message::NoLocations { what } => {
                let mut text = "no ".to_owned();
                text.append(what.as_str());
                text.append(" found");
                text
            },
            Message::NoUsableLocations { what, skipped } => {
                let mut text = "no usable ".to_owned();
                text.append(what.as_str());
                text.append(" (");
                text.append(number(*skipped).as_str());
                text.append(" unsupported or invalid locations)");
                text
            },
            Message::Yanked { count } => {
                let mut text = "yanked ".to_owned();
                text.append(number(*count).as_str());
                text.append(" selection");
                text.append(if *count == 1 { "" } else { "s" });
                text.append(" to clipboard");
                text
            },
            Message::Reloaded { path } => {
                let mut text = "reloaded ".to_owned();
                text.append(path.as_str());
                text
            },
            Message::DiskChanged { path } => {
                let mut text = "disk changed; unsaved edits kept (:reload! to reload, :w! to overwrite): ".to_owned();
                text.append(path.as_str());
                text
            },
            Message::DiskRemoved { path } => {
                let mut text = "file removed on disk; buffer kept (:w! to recreate): ".to_owned();
                text.append(path.as_str());
                text
            },
            Message::ReloadFailed { reason, path } => {
                let mut text = "cannot reload: ".to_owned();
                text.append(reason.as_str());
                text.append(" (");
                text.append(path.as_str());
                text.append(")");
                text
            },
            Message::GitRunning { title } => {
                let mut text = title.clone();
                text.append(" running…");
                text
            },
            Message::GitFinished { title, summary } => {
                let mut text = title.clone();
                text.append(": ");
                text.append(summary.as_str());
                text.append(" · output in Git status");
                text
            },
        }
    }

    /// Whether there is nothing to say.
    pub fn is_empty(&self) -> (empty: bool)
        ensures
            empty == (self.text().len() == 0),
    {
        self.show().as_str().is_empty()
    }
}

} // verus!
