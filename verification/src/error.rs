//! Everything a request can be refused for, with the text shown to the user.

use vstd::prelude::*;
use vstd::string::StringExecFns;

verus! {

/// Why a request was refused.
#[derive(Debug)]
pub enum Error {
    /// The layout already holds as many windows as it may.
    TooManyWindows,
    /// Another split would leave a window below the smallest useful size.
    TerminalTooSmall,
    /// A search found nothing.
    NoMatches,
    /// Text was pasted outside insert mode.
    PasteOutsideInsert,
    /// A command would edit the document behind a Git view.
    GitViewReadOnly,
    /// No command has that name, or it takes no arguments.
    UnknownCommand,
    /// Help was asked for a command that does not exist.
    UnknownHelp,
    /// `open` was given no path, or `!`.
    OpenUsage,
    /// `reload` was given arguments.
    ReloadUsage,
    /// `browse` was given `!`.
    BrowseForce,
    /// `mouse` was given something else than `on` or `off`.
    MouseUsage,
    /// `tutorial` was given arguments.
    TutorialUsage,
    /// `git_stage` was given arguments.
    GitStageUsage,
    /// `git_unstage` was given arguments.
    GitUnstageUsage,
    /// `git_commit` was given arguments.
    GitCommitUsage,
    /// `git_commit_submit` was given arguments.
    GitCommitSubmitUsage,
    /// `git_commit_cancel` was given arguments.
    GitCommitCancelUsage,
    /// `git_status` was given arguments.
    GitStatusUsage,
    /// `git_toggle` was given arguments.
    GitToggleUsage,
    /// `git_visit` was given arguments.
    GitVisitUsage,
    /// `git_refresh` was given arguments.
    GitRefreshUsage,
    /// `git_close` was given arguments.
    GitCloseUsage,
    /// `vsplit` was given `!`.
    VerticalSplitUsage,
    /// `hsplit` was given `!`.
    HorizontalSplitUsage,
    /// `only` was given arguments.
    OnlyUsage,
    /// `quit-all` was given arguments.
    QuitAllUsage,
    /// `auto-completion` was given `!`.
    AutoCompletionForce,
    /// `auto-completion` was given arguments it does not know.
    AutoCompletionUsage,
    /// `lsp-restart` was given arguments.
    RestartUsage,
    /// A commit draft was to be written to a file.
    CommitDraft,
    /// `quit` was given arguments.
    QuitUsage,
    /// `buffer-close` was given arguments.
    BufferCloseUsage,
    /// `buffer-next` was given arguments.
    BufferNextUsage,
    /// `buffer-previous` was given arguments.
    BufferPreviousUsage,
    /// `language` was given `!`.
    LanguageForce,
    /// `help` was given `!`.
    HelpForce,
    /// Another operation has not finished.
    OperationPending,
    /// Language services were never enabled.
    ServicesDisabled,
    /// Language services were asked of a frontend without them.
    ServicesDisabledHere,
    /// The place a server command came from has changed.
    CommandOriginChanged,
    /// The document has no file or no language server.
    ServerRequired,
    /// The language server has failed.
    ServerUnavailable,
    /// The document is too large for language services.
    DocumentTooLarge,
    /// The server had no suggestion.
    NoCompletions,
    /// A code action had neither an edit nor a command.
    EmptyCodeAction,
    /// The place a rename started from has changed.
    RenameOriginChanged,
    /// A new name is too long or holds control characters.
    RenameName,
    /// The place formatting started from has changed.
    FormattingOriginChanged,
    /// A symbol lies outside its document.
    InvalidSymbolPosition,
    /// A definition lies outside its document.
    InvalidDefinitionPosition,
    /// A symbol lies in something that is no file.
    SymbolNotAFile,
    /// A location lies in something that is no file.
    LocationNotAFile,
    /// Loading a location was given up.
    NavigationCancelled,
    /// No picker was open before.
    NoPreviousPicker,
    /// The picked path is no longer a file.
    PickedNotAFile,
    /// The buffer of a checkpoint was closed.
    JumpBufferClosed,
    /// The buffer of a checkpoint has changed.
    JumpBufferChanged,
    /// The document has no file.
    NoFilePath,
    /// The last window's buffer has unsaved changes.
    UnsavedWindow,
    /// Another buffer has unsaved changes.
    UnsavedOther,
    /// A buffer has unsaved changes.
    UnsavedAll,
    /// The buffer has unsaved changes.
    UnsavedReload,
    /// The buffer has no file.
    NothingToReload,
    /// The destination is open in another buffer.
    AlreadyOpen,
    /// More names are selected than may be opened.
    TooManyNames,
    /// A selected name is too long.
    NameTooLong,
    /// The selection holds no name.
    NoName,
    /// A selected path is no file.
    SelectedNotAFile,
    /// Every retained repository view is on the screen.
    TooManyGitViews,
    /// The path of a change cannot be opened.
    GitPathGone,
    /// A Git operation has not finished.
    GitBusyQuitting,
    /// The repository has an unfinished Git operation.
    GitBusy,
    /// Too many Git operations are unfinished.
    TooManyGitOperations,
    /// No Git view is shown.
    NoGitStatus,
    /// No file row is selected.
    NoGitFile,
    /// The file to stage has unsaved changes.
    UnsavedStage,
    /// The selected file cannot be staged or unstaged.
    WrongGitSection,
    /// The repository has not been read yet.
    NoRepositoryStatus,
    /// No commit message is open.
    NoCommitMessage,
    /// The document is no commit draft.
    NoCommitDraft,
    /// The commit message is too long.
    CommitMessageTooLong,
    /// The commit message is empty.
    CommitMessageEmpty,
    /// No language has that name; these do.
    UnknownLanguage { names: String },
    /// Another component failed, with the text it gave.
    Other(String),
}

impl Error {
    /// The text shown for this error.
    pub open spec fn text(&self) -> Seq<char> {
        match self {
            Error::TooManyWindows => "at most 16 windows may be open"@,
            Error::TerminalTooSmall => "terminal is too small for another split"@,
            Error::NoMatches => "no matches"@,
            Error::PasteOutsideInsert => "enter insert mode to paste"@,
            Error::GitViewReadOnly => "Git status cannot edit the retained document; q returns to it"@,
            Error::UnknownCommand => "unknown command or unsupported arguments"@,
            Error::UnknownHelp => "unknown command"@,
            Error::OpenUsage => "open requires a path and does not accept !"@,
            Error::ReloadUsage => "reload takes no arguments"@,
            Error::BrowseForce => "browse does not accept !"@,
            Error::MouseUsage => "use :mouse [on|off]"@,
            Error::TutorialUsage => "tutorial takes no arguments"@,
            Error::GitStageUsage => "git_stage takes no arguments"@,
            Error::GitUnstageUsage => "git_unstage takes no arguments"@,
            Error::GitCommitUsage => "git_commit takes no arguments"@,
            Error::GitCommitSubmitUsage => "git_commit_submit takes no arguments"@,
            Error::GitCommitCancelUsage => "git_commit_cancel takes no arguments"@,
            Error::GitStatusUsage => "git_status takes no arguments"@,
            Error::GitToggleUsage => "git_toggle takes no arguments"@,
            Error::GitVisitUsage => "git_visit takes no arguments"@,
            Error::GitRefreshUsage => "git_refresh takes no arguments"@,
            Error::GitCloseUsage => "git_close takes no arguments"@,
            Error::VerticalSplitUsage => "vsplit does not accept !"@,
            Error::HorizontalSplitUsage => "hsplit does not accept !"@,
            Error::OnlyUsage => "only takes no arguments"@,
            Error::QuitAllUsage => "quit-all takes no arguments"@,
            Error::AutoCompletionForce => "auto-completion does not accept !"@,
            Error::AutoCompletionUsage => "use :auto-completion [on|off|delay 0..10000|min-length 1..256]"@,
            Error::RestartUsage => "lsp-restart takes no arguments"@,
            Error::CommitDraft => "commit drafts are retained in memory; Ctrl-c Ctrl-c commits, Ctrl-c Ctrl-k returns"@,
            Error::QuitUsage => "quit takes no arguments"@,
            Error::BufferCloseUsage => "buffer-close takes no arguments"@,
            Error::BufferNextUsage => "buffer-next takes no arguments or !"@,
            Error::BufferPreviousUsage => "buffer-previous takes no arguments or !"@,
            Error::LanguageForce => "language does not accept !"@,
            Error::HelpForce => "help does not accept !"@,
            Error::OperationPending => "another editor operation is pending"@,
            Error::ServicesDisabled => "language services are not enabled"@,
            Error::ServicesDisabledHere => "language services are not enabled in this frontend"@,
            Error::CommandOriginChanged => "server command origin changed"@,
            Error::ServerRequired => "language services require a named file with a configured language server"@,
            Error::ServerUnavailable => "language server is unavailable; use :lsp-restart to retry"@,
            Error::DocumentTooLarge => "document exceeds the initial 8 MiB LSP limit"@,
            Error::NoCompletions => "no completion suggestions"@,
            Error::EmptyCodeAction => "code action has no edit or command"@,
            Error::RenameOriginChanged => "rename cancelled: original buffer or selection changed"@,
            Error::RenameName => "rename name must be one line and at most 4096 bytes"@,
            Error::FormattingOriginChanged => "formatting cancelled: original buffer, selection or settings changed"@,
            Error::InvalidSymbolPosition => "invalid symbol position"@,
            Error::InvalidDefinitionPosition => "invalid definition position"@,
            Error::SymbolNotAFile => "symbol location is not a regular file"@,
            Error::LocationNotAFile => "location is not a regular file"@,
            Error::NavigationCancelled => "navigation cancelled"@,
            Error::NoPreviousPicker => "no previous picker"@,
            Error::PickedNotAFile => "Selected path is no longer a regular file"@,
            Error::JumpBufferClosed => "jump buffer is no longer open"@,
            Error::JumpBufferChanged => "buffer changed since this result; refreshing jumps"@,
            Error::NoFilePath => "document has no file path"@,
            Error::UnsavedWindow => "unsaved changes; use :w to save or :q! to discard"@,
            Error::UnsavedOther => "another buffer has unsaved changes; save it or use :only! to discard"@,
            Error::UnsavedAll => "unsaved changes; save the buffers or use :qa! to discard"@,
            Error::UnsavedReload => "unsaved changes; use :reload! to replace them with the disk version"@,
            Error::NothingToReload => "no file to reload"@,
            Error::AlreadyOpen => "destination is already open in another buffer"@,
            Error::TooManyNames => "too many selected filenames"@,
            Error::NameTooLong => "selected filename is too long"@,
            Error::NoName => "no filename in selection"@,
            Error::SelectedNotAFile => "selected path is not a regular file"@,
            Error::TooManyGitViews => "too many repository views"@,
            Error::GitPathGone => "This path is deleted or is a directory; its status remains available here"@,
            Error::GitBusyQuitting => "Git operation still running; wait for it to finish before quitting"@,
            Error::GitBusy => "a Git operation is already running for this repository"@,
            Error::TooManyGitOperations => "too many pending Git operations"@,
            Error::NoGitStatus => "open Git status first"@,
            Error::NoGitFile => "select a file row; hunk staging is not available yet"@,
            Error::UnsavedStage => "save the buffer, then stage its file under unstaged changes"@,
            Error::WrongGitSection => "s stages unstaged/untracked files; u unstages staged files"@,
            Error::NoRepositoryStatus => "wait for repository status"@,
            Error::NoCommitMessage => "open the commit message first with c c"@,
            Error::NoCommitDraft => "open a commit message first"@,
            Error::CommitMessageTooLong => "commit message exceeds 1 MiB"@,
            Error::CommitMessageEmpty => "commit message is empty"@,
            Error::UnknownLanguage { names } => "supported languages: "@ + names@
                + ", text, auto"@,
            Error::Other(text) => text@,
        }
    }

    /// The text shown for this error.
    pub fn message(&self) -> (text: String)
        ensures
            text@ == self.text(),
    {
        match self {
            Error::TooManyWindows => "at most 16 windows may be open".to_owned(),
            Error::TerminalTooSmall => "terminal is too small for another split".to_owned(),
            Error::NoMatches => "no matches".to_owned(),
            Error::PasteOutsideInsert => "enter insert mode to paste".to_owned(),
            Error::GitViewReadOnly => "Git status cannot edit the retained document; q returns to it".to_owned(),
            Error::UnknownCommand => "unknown command or unsupported arguments".to_owned(),
            Error::UnknownHelp => "unknown command".to_owned(),
            Error::OpenUsage => "open requires a path and does not accept !".to_owned(),
            Error::ReloadUsage => "reload takes no arguments".to_owned(),
            Error::BrowseForce => "browse does not accept !".to_owned(),
            Error::MouseUsage => "use :mouse [on|off]".to_owned(),
            Error::TutorialUsage => "tutorial takes no arguments".to_owned(),
            Error::GitStageUsage => "git_stage takes no arguments".to_owned(),
            Error::GitUnstageUsage => "git_unstage takes no arguments".to_owned(),
            Error::GitCommitUsage => "git_commit takes no arguments".to_owned(),
            Error::GitCommitSubmitUsage => "git_commit_submit takes no arguments".to_owned(),
            Error::GitCommitCancelUsage => "git_commit_cancel takes no arguments".to_owned(),
            Error::GitStatusUsage => "git_status takes no arguments".to_owned(),
            Error::GitToggleUsage => "git_toggle takes no arguments".to_owned(),
            Error::GitVisitUsage => "git_visit takes no arguments".to_owned(),
            Error::GitRefreshUsage => "git_refresh takes no arguments".to_owned(),
            Error::GitCloseUsage => "git_close takes no arguments".to_owned(),
            Error::VerticalSplitUsage => "vsplit does not accept !".to_owned(),
            Error::HorizontalSplitUsage => "hsplit does not accept !".to_owned(),
            Error::OnlyUsage => "only takes no arguments".to_owned(),
            Error::QuitAllUsage => "quit-all takes no arguments".to_owned(),
            Error::AutoCompletionForce => "auto-completion does not accept !".to_owned(),
            Error::AutoCompletionUsage => "use :auto-completion [on|off|delay 0..10000|min-length 1..256]".to_owned(),
            Error::RestartUsage => "lsp-restart takes no arguments".to_owned(),
            Error::CommitDraft => "commit drafts are retained in memory; Ctrl-c Ctrl-c commits, Ctrl-c Ctrl-k returns".to_owned(),
            Error::QuitUsage => "quit takes no arguments".to_owned(),
            Error::BufferCloseUsage => "buffer-close takes no arguments".to_owned(),
            Error::BufferNextUsage => "buffer-next takes no arguments or !".to_owned(),
            Error::BufferPreviousUsage => "buffer-previous takes no arguments or !".to_owned(),
            Error::LanguageForce => "language does not accept !".to_owned(),
            Error::HelpForce => "help does not accept !".to_owned(),
            Error::OperationPending => "another editor operation is pending".to_owned(),
            Error::ServicesDisabled => "language services are not enabled".to_owned(),
            Error::ServicesDisabledHere => "language services are not enabled in this frontend".to_owned(),
            Error::CommandOriginChanged => "server command origin changed".to_owned(),
            Error::ServerRequired => "language services require a named file with a configured language server".to_owned(),
            Error::ServerUnavailable => "language server is unavailable; use :lsp-restart to retry".to_owned(),
            Error::DocumentTooLarge => "document exceeds the initial 8 MiB LSP limit".to_owned(),
            Error::NoCompletions => "no completion suggestions".to_owned(),
            Error::EmptyCodeAction => "code action has no edit or command".to_owned(),
            Error::RenameOriginChanged => "rename cancelled: original buffer or selection changed".to_owned(),
            Error::RenameName => "rename name must be one line and at most 4096 bytes".to_owned(),
            Error::FormattingOriginChanged => "formatting cancelled: original buffer, selection or settings changed".to_owned(),
            Error::InvalidSymbolPosition => "invalid symbol position".to_owned(),
            Error::InvalidDefinitionPosition => "invalid definition position".to_owned(),
            Error::SymbolNotAFile => "symbol location is not a regular file".to_owned(),
            Error::LocationNotAFile => "location is not a regular file".to_owned(),
            Error::NavigationCancelled => "navigation cancelled".to_owned(),
            Error::NoPreviousPicker => "no previous picker".to_owned(),
            Error::PickedNotAFile => "Selected path is no longer a regular file".to_owned(),
            Error::JumpBufferClosed => "jump buffer is no longer open".to_owned(),
            Error::JumpBufferChanged => "buffer changed since this result; refreshing jumps".to_owned(),
            Error::NoFilePath => "document has no file path".to_owned(),
            Error::UnsavedWindow => "unsaved changes; use :w to save or :q! to discard".to_owned(),
            Error::UnsavedOther => "another buffer has unsaved changes; save it or use :only! to discard".to_owned(),
            Error::UnsavedAll => "unsaved changes; save the buffers or use :qa! to discard".to_owned(),
            Error::UnsavedReload => "unsaved changes; use :reload! to replace them with the disk version".to_owned(),
            Error::NothingToReload => "no file to reload".to_owned(),
            Error::AlreadyOpen => "destination is already open in another buffer".to_owned(),
            Error::TooManyNames => "too many selected filenames".to_owned(),
            Error::NameTooLong => "selected filename is too long".to_owned(),
            Error::NoName => "no filename in selection".to_owned(),
            Error::SelectedNotAFile => "selected path is not a regular file".to_owned(),
            Error::TooManyGitViews => "too many repository views".to_owned(),
            Error::GitPathGone => "This path is deleted or is a directory; its status remains available here".to_owned(),
            Error::GitBusyQuitting => "Git operation still running; wait for it to finish before quitting".to_owned(),
            Error::GitBusy => "a Git operation is already running for this repository".to_owned(),
            Error::TooManyGitOperations => "too many pending Git operations".to_owned(),
            Error::NoGitStatus => "open Git status first".to_owned(),
            Error::NoGitFile => "select a file row; hunk staging is not available yet".to_owned(),
            Error::UnsavedStage => "save the buffer, then stage its file under unstaged changes".to_owned(),
            Error::WrongGitSection => "s stages unstaged/untracked files; u unstages staged files".to_owned(),
            Error::NoRepositoryStatus => "wait for repository status".to_owned(),
            Error::NoCommitMessage => "open the commit message first with c c".to_owned(),
            Error::NoCommitDraft => "open a commit message first".to_owned(),
            Error::CommitMessageTooLong => "commit message exceeds 1 MiB".to_owned(),
            Error::CommitMessageEmpty => "commit message is empty".to_owned(),
            Error::UnknownLanguage { names } => {
                let mut text = "supported languages: ".to_owned();
                text.append(names.as_str());
                text.append(", text, auto");
                text
            },
            Error::Other(text) => text.clone(),
        }
    }
}

} // verus!
