//! Colon commands: their names, documentation and arguments.

use crate::app::App;
use crate::editor::{FileId, LanguageId, Snapshot, Time};
use crate::effect::Effect;
use crate::error::Error;
use crate::git_write::is_draft;
use crate::language::{same_id, State};
use crate::message::Message;
use crate::prompt::{recordable, trimmed as kept_entries};
use crate::status::status_refreshed;
use crate::text::{
    chars_of, same_text, text_between, texts, trim_range, trim_white, trimmed, white_space, Trim,
};
use crate::travel::find_file;
use vstd::prelude::*;
use vstd::string::StringExecFns;

verus! {

/// Argument suggestions supplied by the command completion worker.
#[derive(Clone, Copy, Debug, PartialEq, Eq, Structural)]
pub enum ArgumentCompletion {
    Nothing,
    Path,
    Language,
    Command,
    AutoCompletion,
}

/// A command of the application.
#[derive(Clone, Copy, Debug, PartialEq, Eq, Structural)]
pub enum CommandId {
    Open,
    Reload,
    Browse,
    GitStage,
    GitUnstage,
    GitCommit,
    GitCommitSubmit,
    GitCommitCancel,
    GitStatus,
    GitToggle,
    GitVisit,
    GitRefresh,
    GitClose,
    VerticalSplit,
    HorizontalSplit,
    Only,
    QuitAll,
    AutoCompletion,
    Mouse,
    RestartServer,
    Write,
    Quit,
    BufferClose,
    BufferNext,
    BufferPrevious,
    WriteQuit,
    SetLanguage,
    Help,
    Tutorial,
}

/// What is known of a command.
#[derive(Debug)]
pub struct Command {
    pub name: &'static str,
    pub aliases: Vec<&'static str>,
    pub documentation: &'static str,
    pub run: CommandId,
    pub completion: ArgumentCompletion,
}

/// What arguments a command takes.
#[derive(Clone, Copy, Debug, PartialEq, Eq, Structural)]
pub enum Arguments {
    /// None, and no `!`.
    Plain,
    /// None, with or without `!`.
    Forced,
    /// An optional one, without `!`.
    Optional,
    /// One that must be there, without `!`.
    Needed,
    /// An optional one, with or without `!`.
    Free,
    /// None, `on` or `off`, without `!`.
    Switch,
}

/// The texts of some names.
pub open spec fn names_of(names: Seq<&'static str>) -> Seq<Seq<char>> {
    names.map_values(|name: &'static str| name@)
}

impl CommandId {
    /// The name of a command.
    pub open spec fn spec_name(self) -> Seq<char> {
        match self {
            CommandId::Open => "open"@,
            CommandId::Reload => "reload"@,
            CommandId::Browse => "browse"@,
            CommandId::GitStage => "git_stage"@,
            CommandId::GitUnstage => "git_unstage"@,
            CommandId::GitCommit => "git_commit"@,
            CommandId::GitCommitSubmit => "git_commit_submit"@,
            CommandId::GitCommitCancel => "git_commit_cancel"@,
            CommandId::GitStatus => "git_status"@,
            CommandId::GitToggle => "git_toggle"@,
            CommandId::GitVisit => "git_visit"@,
            CommandId::GitRefresh => "git_refresh"@,
            CommandId::GitClose => "git_close"@,
            CommandId::VerticalSplit => "vsplit"@,
            CommandId::HorizontalSplit => "hsplit"@,
            CommandId::Only => "only"@,
            CommandId::QuitAll => "quit-all"@,
            CommandId::AutoCompletion => "auto-completion"@,
            CommandId::Mouse => "mouse"@,
            CommandId::RestartServer => "lsp-restart"@,
            CommandId::Write => "write"@,
            CommandId::Quit => "quit"@,
            CommandId::BufferClose => "buffer-close"@,
            CommandId::BufferNext => "buffer-next"@,
            CommandId::BufferPrevious => "buffer-previous"@,
            CommandId::WriteQuit => "write-quit"@,
            CommandId::SetLanguage => "language"@,
            CommandId::Help => "help"@,
            CommandId::Tutorial => "tutorial"@,
        }
    }

    /// The other names of a command.
    pub open spec fn spec_aliases(self) -> Seq<Seq<char>> {
        match self {
            CommandId::Open => seq!["o"@, "edit"@, "e"@],
            CommandId::VerticalSplit => seq!["vs"@],
            CommandId::HorizontalSplit => seq!["hs"@, "split"@, "sp"@],
            CommandId::QuitAll => seq!["qa"@, "qall"@],
            CommandId::Write => seq!["w"@],
            CommandId::Quit => seq!["q"@],
            CommandId::BufferClose => seq!["bc"@, "bclose"@],
            CommandId::BufferNext => seq!["bn"@, "bnext"@],
            CommandId::BufferPrevious => seq!["bp"@, "bprevious"@],
            CommandId::WriteQuit => seq!["wq"@, "x"@],
            CommandId::SetLanguage => seq!["lang"@],
            CommandId::Help => seq!["h"@],
            _ => seq![],
        }
    }

    /// Whether a command is known under a name.
    pub open spec fn answers_to(self, name: Seq<char>) -> bool {
        name == self.spec_name() || self.spec_aliases().contains(name)
    }

    /// The suggestions for the arguments of a command.
    pub open spec fn spec_completion(self) -> ArgumentCompletion {
        match self {
            CommandId::Open
            | CommandId::Browse
            | CommandId::VerticalSplit
            | CommandId::HorizontalSplit
            | CommandId::Write
            | CommandId::WriteQuit => ArgumentCompletion::Path,
            CommandId::AutoCompletion => ArgumentCompletion::AutoCompletion,
            CommandId::SetLanguage => ArgumentCompletion::Language,
            CommandId::Help => ArgumentCompletion::Command,
            _ => ArgumentCompletion::Nothing,
        }
    }

    /// The arguments that a command takes.
    pub open spec fn spec_arguments(self) -> Arguments {
        match self {
            CommandId::Open => Arguments::Needed,
            CommandId::Reload
            | CommandId::Only
            | CommandId::QuitAll
            | CommandId::Quit
            | CommandId::BufferClose => Arguments::Forced,
            CommandId::Browse
            | CommandId::VerticalSplit
            | CommandId::HorizontalSplit
            | CommandId::AutoCompletion
            | CommandId::SetLanguage
            | CommandId::Help => Arguments::Optional,
            CommandId::Mouse => Arguments::Switch,
            CommandId::Write | CommandId::WriteQuit => Arguments::Free,
            _ => Arguments::Plain,
        }
    }

    /// How a command refuses arguments that it does not take.
    pub open spec fn usage(self) -> Error {
        match self {
            CommandId::Open => Error::OpenUsage,
            CommandId::Reload => Error::ReloadUsage,
            CommandId::Browse => Error::BrowseForce,
            CommandId::GitStage => Error::GitStageUsage,
            CommandId::GitUnstage => Error::GitUnstageUsage,
            CommandId::GitCommit => Error::GitCommitUsage,
            CommandId::GitCommitSubmit => Error::GitCommitSubmitUsage,
            CommandId::GitCommitCancel => Error::GitCommitCancelUsage,
            CommandId::GitStatus => Error::GitStatusUsage,
            CommandId::GitToggle => Error::GitToggleUsage,
            CommandId::GitVisit => Error::GitVisitUsage,
            CommandId::GitRefresh => Error::GitRefreshUsage,
            CommandId::GitClose => Error::GitCloseUsage,
            CommandId::VerticalSplit => Error::VerticalSplitUsage,
            CommandId::HorizontalSplit => Error::HorizontalSplitUsage,
            CommandId::Only => Error::OnlyUsage,
            CommandId::QuitAll => Error::QuitAllUsage,
            CommandId::AutoCompletion => Error::AutoCompletionForce,
            CommandId::Mouse => Error::MouseUsage,
            CommandId::RestartServer => Error::RestartUsage,
            CommandId::Quit => Error::QuitUsage,
            CommandId::BufferClose => Error::BufferCloseUsage,
            CommandId::BufferNext => Error::BufferNextUsage,
            CommandId::BufferPrevious => Error::BufferPreviousUsage,
            CommandId::SetLanguage => Error::LanguageForce,
            CommandId::Help => Error::HelpForce,
            CommandId::Tutorial => Error::TutorialUsage,
            _ => Error::UnknownCommand,
        }
    }

    pub fn name(self) -> (name: &'static str)
        ensures
            name@ == self.spec_name(),
    {
        match self {
            CommandId::Open => "open",
            CommandId::Reload => "reload",
            CommandId::Browse => "browse",
            CommandId::GitStage => "git_stage",
            CommandId::GitUnstage => "git_unstage",
            CommandId::GitCommit => "git_commit",
            CommandId::GitCommitSubmit => "git_commit_submit",
            CommandId::GitCommitCancel => "git_commit_cancel",
            CommandId::GitStatus => "git_status",
            CommandId::GitToggle => "git_toggle",
            CommandId::GitVisit => "git_visit",
            CommandId::GitRefresh => "git_refresh",
            CommandId::GitClose => "git_close",
            CommandId::VerticalSplit => "vsplit",
            CommandId::HorizontalSplit => "hsplit",
            CommandId::Only => "only",
            CommandId::QuitAll => "quit-all",
            CommandId::AutoCompletion => "auto-completion",
            CommandId::Mouse => "mouse",
            CommandId::RestartServer => "lsp-restart",
            CommandId::Write => "write",
            CommandId::Quit => "quit",
            CommandId::BufferClose => "buffer-close",
            CommandId::BufferNext => "buffer-next",
            CommandId::BufferPrevious => "buffer-previous",
            CommandId::WriteQuit => "write-quit",
            CommandId::SetLanguage => "language",
            CommandId::Help => "help",
            CommandId::Tutorial => "tutorial",
        }
    }

    pub fn aliases(self) -> (aliases: Vec<&'static str>)
        ensures
            names_of(aliases@) == self.spec_aliases(),
    {
        let mut aliases: Vec<&'static str> = Vec::new();
        match self {
            CommandId::Open => {
                aliases.push("o");
                aliases.push("edit");
                aliases.push("e");
            },
            CommandId::VerticalSplit => {
                aliases.push("vs");
            },
            CommandId::HorizontalSplit => {
                aliases.push("hs");
                aliases.push("split");
                aliases.push("sp");
            },
            CommandId::QuitAll => {
                aliases.push("qa");
                aliases.push("qall");
            },
            CommandId::Write => {
                aliases.push("w");
            },
            CommandId::Quit => {
                aliases.push("q");
            },
            CommandId::BufferClose => {
                aliases.push("bc");
                aliases.push("bclose");
            },
            CommandId::BufferNext => {
                aliases.push("bn");
                aliases.push("bnext");
            },
            CommandId::BufferPrevious => {
                aliases.push("bp");
                aliases.push("bprevious");
            },
            CommandId::WriteQuit => {
                aliases.push("wq");
                aliases.push("x");
            },
            CommandId::SetLanguage => {
                aliases.push("lang");
            },
            CommandId::Help => {
                aliases.push("h");
            },
            _ => {},
        }
        assert(names_of(aliases@) =~= self.spec_aliases());
        aliases
    }

    pub fn completion(self) -> (completion: ArgumentCompletion)
        ensures
            completion == self.spec_completion(),
    {
        match self {
            CommandId::Open
            | CommandId::Browse
            | CommandId::VerticalSplit
            | CommandId::HorizontalSplit
            | CommandId::Write
            | CommandId::WriteQuit => ArgumentCompletion::Path,
            CommandId::AutoCompletion => ArgumentCompletion::AutoCompletion,
            CommandId::SetLanguage => ArgumentCompletion::Language,
            CommandId::Help => ArgumentCompletion::Command,
            _ => ArgumentCompletion::Nothing,
        }
    }

    fn arguments(self) -> (arguments: Arguments)
        ensures
            arguments == self.spec_arguments(),
    {
        match self {
            CommandId::Open => Arguments::Needed,
            CommandId::Reload
            | CommandId::Only
            | CommandId::QuitAll
            | CommandId::Quit
            | CommandId::BufferClose => Arguments::Forced,
            CommandId::Browse
            | CommandId::VerticalSplit
            | CommandId::HorizontalSplit
            | CommandId::AutoCompletion
            | CommandId::SetLanguage
            | CommandId::Help => Arguments::Optional,
            CommandId::Mouse => Arguments::Switch,
            CommandId::Write | CommandId::WriteQuit => Arguments::Free,
            _ => Arguments::Plain,
        }
    }

    fn refuse(self) -> (error: Error)
        ensures
            error == self.usage(),
    {
        match self {
            CommandId::Open => Error::OpenUsage,
            CommandId::Reload => Error::ReloadUsage,
            CommandId::Browse => Error::BrowseForce,
            CommandId::GitStage => Error::GitStageUsage,
            CommandId::GitUnstage => Error::GitUnstageUsage,
            CommandId::GitCommit => Error::GitCommitUsage,
            CommandId::GitCommitSubmit => Error::GitCommitSubmitUsage,
            CommandId::GitCommitCancel => Error::GitCommitCancelUsage,
            CommandId::GitStatus => Error::GitStatusUsage,
            CommandId::GitToggle => Error::GitToggleUsage,
            CommandId::GitVisit => Error::GitVisitUsage,
            CommandId::GitRefresh => Error::GitRefreshUsage,
            CommandId::GitClose => Error::GitCloseUsage,
            CommandId::VerticalSplit => Error::VerticalSplitUsage,
            CommandId::HorizontalSplit => Error::HorizontalSplitUsage,
            CommandId::Only => Error::OnlyUsage,
            CommandId::QuitAll => Error::QuitAllUsage,
            CommandId::AutoCompletion => Error::AutoCompletionForce,
            CommandId::Mouse => Error::MouseUsage,
            CommandId::RestartServer => Error::RestartUsage,
            CommandId::Quit => Error::QuitUsage,
            CommandId::BufferClose => Error::BufferCloseUsage,
            CommandId::BufferNext => Error::BufferNextUsage,
            CommandId::BufferPrevious => Error::BufferPreviousUsage,
            CommandId::SetLanguage => Error::LanguageForce,
            CommandId::Help => Error::HelpForce,
            CommandId::Tutorial => Error::TutorialUsage,
            _ => Error::UnknownCommand,
        }
    }

    /// What a command does, as the user reads it.
    pub open spec fn spec_documentation(self) -> Seq<char> {
        match self {
            CommandId::Open => "Open PATH in the current pane, retaining unsaved buffers and recording the previous location."@,
            CommandId::Reload => "Reload the current file from disk as one undo step. Unsaved edits require :reload!; failed reads keep the buffer intact."@,
            CommandId::Browse => "Browse the files of PATH, or of the directory of the current file, without leaving the picker."@,
            CommandId::GitStage => "Stage the selected whole file from disk. Save unsaved buffers first; hunk staging is not yet supported."@,
            CommandId::GitUnstage => "Unstage the selected whole file, preserving working files."@,
            CommandId::GitCommit => "Open or resume this repository's commit message in an editor pane. Ctrl-c Ctrl-c submits; Ctrl-c Ctrl-k returns and retains the draft."@,
            CommandId::GitCommitSubmit => "Commit the current index using the active commit message. Hooks and signing follow Git configuration; failures retain the draft."@,
            CommandId::GitCommitCancel => "Return to Git status, retaining this commit draft and undo history for the session. An already submitted commit continues in the background."@,
            CommandId::GitStatus => "Open the repository status view, preserving the document behind it."@,
            CommandId::GitToggle => "Expand or collapse the selected Git section, file, or hunk."@,
            CommandId::GitVisit => "Open the selected Git file at the reviewed change, protecting unsaved buffers."@,
            CommandId::GitRefresh => "Refresh visible repository status views in the background, preserving navigation and folds."@,
            CommandId::GitClose => "Return from Git status to the document retained in this pane."@,
            CommandId::VerticalSplit => "Split vertically, optionally opening PATH in the new right-hand window."@,
            CommandId::HorizontalSplit => "Split horizontally, optionally opening PATH in the new lower window."@,
            CommandId::Only => "Keep only the current window, retaining all buffers and unsaved edits. Accepts ! for compatibility."@,
            CommandId::QuitAll => "Quit all windows. Use ! to discard unsaved buffers."@,
            CommandId::AutoCompletion => "Show or configure automatic completion for this session: on, off, delay MS (0..10000), or min-length N (1..256). Defaults to on, 100 ms, and 2 characters; Ctrl-x always remains available."@,
            CommandId::Mouse => "Show whether the mouse is used, or turn it on or off for this session."@,
            CommandId::RestartServer => "Restart the configured language server for the current file after an error or configuration change."@,
            CommandId::Write => "Write the buffer atomically. Accepts an optional path; ! permits overwriting external changes or an existing destination."@,
            CommandId::Quit => "Close the current window, retaining its buffers. Quitting the last window protects all unsaved buffers unless :q! is used."@,
            CommandId::BufferClose => "Close the current buffer in all panes. Unsaved changes require :bc!; closing the final buffer creates a scratch buffer."@,
            CommandId::BufferNext => "Switch to the next loaded buffer in opening order, wrapping around."@,
            CommandId::BufferPrevious => "Switch to the previous loaded buffer in opening order, wrapping around."@,
            CommandId::WriteQuit => "Write and quit after a successful save. Accepts the same path and ! options as :write."@,
            CommandId::SetLanguage => "Show or set the language by its registry name or alias; text disables language support, and auto detects the filename or shebang."@,
            CommandId::Help => "Show basic keys, or the documentation for a named editing or file command."@,
            CommandId::Tutorial => "Open the tutorial in the current pane, or go back to it. Use :bc! and :tutorial to start it again."@,
        }
    }

    pub fn documentation(self) -> (text: &'static str)
        ensures
            text@ == self.spec_documentation(),
    {
        match self {
            CommandId::Open => "Open PATH in the current pane, retaining unsaved buffers and recording the previous location.",
            CommandId::Reload => "Reload the current file from disk as one undo step. Unsaved edits require :reload!; failed reads keep the buffer intact.",
            CommandId::Browse => "Browse the files of PATH, or of the directory of the current file, without leaving the picker.",
            CommandId::GitStage => "Stage the selected whole file from disk. Save unsaved buffers first; hunk staging is not yet supported.",
            CommandId::GitUnstage => "Unstage the selected whole file, preserving working files.",
            CommandId::GitCommit => "Open or resume this repository's commit message in an editor pane. Ctrl-c Ctrl-c submits; Ctrl-c Ctrl-k returns and retains the draft.",
            CommandId::GitCommitSubmit => "Commit the current index using the active commit message. Hooks and signing follow Git configuration; failures retain the draft.",
            CommandId::GitCommitCancel => "Return to Git status, retaining this commit draft and undo history for the session. An already submitted commit continues in the background.",
            CommandId::GitStatus => "Open the repository status view, preserving the document behind it.",
            CommandId::GitToggle => "Expand or collapse the selected Git section, file, or hunk.",
            CommandId::GitVisit => "Open the selected Git file at the reviewed change, protecting unsaved buffers.",
            CommandId::GitRefresh => "Refresh visible repository status views in the background, preserving navigation and folds.",
            CommandId::GitClose => "Return from Git status to the document retained in this pane.",
            CommandId::VerticalSplit => "Split vertically, optionally opening PATH in the new right-hand window.",
            CommandId::HorizontalSplit => "Split horizontally, optionally opening PATH in the new lower window.",
            CommandId::Only => "Keep only the current window, retaining all buffers and unsaved edits. Accepts ! for compatibility.",
            CommandId::QuitAll => "Quit all windows. Use ! to discard unsaved buffers.",
            CommandId::AutoCompletion => "Show or configure automatic completion for this session: on, off, delay MS (0..10000), or min-length N (1..256). Defaults to on, 100 ms, and 2 characters; Ctrl-x always remains available.",
            CommandId::Mouse => "Show whether the mouse is used, or turn it on or off for this session.",
            CommandId::RestartServer => "Restart the configured language server for the current file after an error or configuration change.",
            CommandId::Write => "Write the buffer atomically. Accepts an optional path; ! permits overwriting external changes or an existing destination.",
            CommandId::Quit => "Close the current window, retaining its buffers. Quitting the last window protects all unsaved buffers unless :q! is used.",
            CommandId::BufferClose => "Close the current buffer in all panes. Unsaved changes require :bc!; closing the final buffer creates a scratch buffer.",
            CommandId::BufferNext => "Switch to the next loaded buffer in opening order, wrapping around.",
            CommandId::BufferPrevious => "Switch to the previous loaded buffer in opening order, wrapping around.",
            CommandId::WriteQuit => "Write and quit after a successful save. Accepts the same path and ! options as :write.",
            CommandId::SetLanguage => "Show or set the language by its registry name or alias; text disables language support, and auto detects the filename or shebang.",
            CommandId::Help => "Show basic keys, or the documentation for a named editing or file command.",
            CommandId::Tutorial => "Open the tutorial in the current pane, or go back to it. Use :bc! and :tutorial to start it again.",
        }
    }

    /// Whether a command works on a repository view: it does not edit the
    /// document behind it.
    pub open spec fn works_on_git(self) -> bool {
        match self {
            CommandId::GitStatus
            | CommandId::GitToggle
            | CommandId::GitVisit
            | CommandId::GitRefresh
            | CommandId::GitClose
            | CommandId::GitStage
            | CommandId::GitUnstage
            | CommandId::GitCommit
            | CommandId::VerticalSplit
            | CommandId::HorizontalSplit
            | CommandId::Only
            | CommandId::Quit
            | CommandId::QuitAll
            | CommandId::Help => true,
            _ => false,
        }
    }

    fn is_git_safe(self) -> (yes: bool)
        ensures
            yes == self.works_on_git(),
    {
        match self {
            CommandId::GitStatus
            | CommandId::GitToggle
            | CommandId::GitVisit
            | CommandId::GitRefresh
            | CommandId::GitClose
            | CommandId::GitStage
            | CommandId::GitUnstage
            | CommandId::GitCommit
            | CommandId::VerticalSplit
            | CommandId::HorizontalSplit
            | CommandId::Only
            | CommandId::Quit
            | CommandId::QuitAll
            | CommandId::Help => true,
            _ => false,
        }
    }

    /// Every command, in the order they are listed.
    pub open spec fn spec_all() -> Seq<CommandId> {
        seq![
            CommandId::Open,
            CommandId::Reload,
            CommandId::Browse,
            CommandId::GitStage,
            CommandId::GitUnstage,
            CommandId::GitCommit,
            CommandId::GitCommitSubmit,
            CommandId::GitCommitCancel,
            CommandId::GitStatus,
            CommandId::GitToggle,
            CommandId::GitVisit,
            CommandId::GitRefresh,
            CommandId::GitClose,
            CommandId::VerticalSplit,
            CommandId::HorizontalSplit,
            CommandId::Only,
            CommandId::QuitAll,
            CommandId::AutoCompletion,
            CommandId::Mouse,
            CommandId::RestartServer,
            CommandId::Write,
            CommandId::Quit,
            CommandId::BufferClose,
            CommandId::BufferNext,
            CommandId::BufferPrevious,
            CommandId::WriteQuit,
            CommandId::SetLanguage,
            CommandId::Help,
            CommandId::Tutorial,
        ]
    }

    pub fn all() -> (all: Vec<CommandId>)
        ensures
            all@ == CommandId::spec_all(),
    {
        let mut all: Vec<CommandId> = Vec::new();
        all.push(CommandId::Open);
        all.push(CommandId::Reload);
        all.push(CommandId::Browse);
        all.push(CommandId::GitStage);
        all.push(CommandId::GitUnstage);
        all.push(CommandId::GitCommit);
        all.push(CommandId::GitCommitSubmit);
        all.push(CommandId::GitCommitCancel);
        all.push(CommandId::GitStatus);
        all.push(CommandId::GitToggle);
        all.push(CommandId::GitVisit);
        all.push(CommandId::GitRefresh);
        all.push(CommandId::GitClose);
        all.push(CommandId::VerticalSplit);
        all.push(CommandId::HorizontalSplit);
        all.push(CommandId::Only);
        all.push(CommandId::QuitAll);
        all.push(CommandId::AutoCompletion);
        all.push(CommandId::Mouse);
        all.push(CommandId::RestartServer);
        all.push(CommandId::Write);
        all.push(CommandId::Quit);
        all.push(CommandId::BufferClose);
        all.push(CommandId::BufferNext);
        all.push(CommandId::BufferPrevious);
        all.push(CommandId::WriteQuit);
        all.push(CommandId::SetLanguage);
        all.push(CommandId::Help);
        all.push(CommandId::Tutorial);
        assert(all@ =~= CommandId::spec_all());
        all
    }
}

fn lists(names: &Vec<&'static str>, name: &str) -> (found: bool)
    ensures
        found == names_of(names@).contains(name@),
{
    let ghost all = names_of(names@);
    let mut i: usize = 0;
    while i < names.len()
        invariant
            i <= names.len(),
            all == names_of(names@),
            forall|j: int| 0 <= j < i ==> all[j] != name@,
        decreases names.len() - i,
    {
        assert(all[i as int] == names@[i as int]@);
        if same_text(names[i], name) {
            assert(all.contains(name@));
            return true;
        }
        i += 1;
    }
    assert(all.len() == names@.len());
    false
}

/// Where the first command with a name is among all of them.
pub open spec fn find_command(name: Seq<char>) -> int {
    crate::find::first_where(CommandId::spec_all(), named(name))
}

/// The test whether a command is known under a name.
pub open spec fn named(name: Seq<char>) -> spec_fn(CommandId) -> bool {
    |id: CommandId| id.answers_to(name)
}

/// The command with a name, where there is one.
pub open spec fn command_named(name: Seq<char>) -> Option<CommandId> {
    let at = find_command(name);
    if at < CommandId::spec_all().len() { Some(CommandId::spec_all()[at]) } else { None }
}

/// The command with a name, where there is one.
pub fn find(name: &str) -> (found: Option<CommandId>)
    ensures
        found == command_named(name@),
        found matches Some(id) ==> id.answers_to(name@),
{
    let all = CommandId::all();
    let mut i: usize = 0;
    while i < all.len()
        invariant
            i <= all.len(),
            all@ == CommandId::spec_all(),
            forall|j: int| 0 <= j < i ==> !named(name@)(#[trigger] all@[j]),
        ensures
            i <= all.len(),
            forall|j: int| 0 <= j < i ==> !named(name@)(#[trigger] all@[j]),
            i < all.len() ==> named(name@)(all@[i as int]),
        decreases all.len() - i,
    {
        let id = all[i];
        if same_text(id.name(), name) || lists(&id.aliases(), name) {
            break;
        }
        i += 1;
    }
    proof {
        crate::find::lemma_is_first(all@, named(name@), i as int);
    }
    if i < all.len() { Some(all[i]) } else { None }
}

/// What is known of every command.
pub fn commands() -> (list: Vec<Command>)
    ensures
        list@.len() == CommandId::spec_all().len(),
        forall|i: int|
            0 <= i < list@.len() ==> {
                let command = #[trigger] list@[i];
                &&& command.run == CommandId::spec_all()[i]
                &&& command.name@ == command.run.spec_name()
                &&& names_of(command.aliases@) == command.run.spec_aliases()
                &&& command.documentation@ == command.run.spec_documentation()
                &&& command.completion == command.run.spec_completion()
            },
{
    let all = CommandId::all();
    let mut list: Vec<Command> = Vec::new();
    let mut i: usize = 0;
    while i < all.len()
        invariant
            i <= all.len(),
            all@ == CommandId::spec_all(),
            list@.len() == i,
            forall|j: int|
                0 <= j < i ==> {
                    let command = #[trigger] list@[j];
                    &&& command.run == CommandId::spec_all()[j]
                    &&& command.name@ == command.run.spec_name()
                    &&& names_of(command.aliases@) == command.run.spec_aliases()
                    &&& command.documentation@ == command.run.spec_documentation()
                    &&& command.completion == command.run.spec_completion()
                },
        decreases all.len() - i,
    {
        let run = all[i];
        list.push(
            Command {
                name: run.name(),
                aliases: run.aliases(),
                documentation: run.documentation(),
                run,
                completion: run.completion(),
            },
        );
        i += 1;
    }
    list
}

/// Where the first white space of a text is; its end where there is none.
pub open spec fn first_white(text: Seq<char>) -> int {
    crate::find::first_where(text, white())
}

/// The test whether a character is white space.
pub open spec fn white() -> spec_fn(char) -> bool {
    |c: char| white_space(c)
}

/// The name that a line begins with, `!` included.
pub open spec fn line_name(line: Seq<char>) -> Seq<char> {
    line.take(first_white(line))
}

/// Whether a line forces its command: its name ends with `!`.
pub open spec fn line_forces(line: Seq<char>) -> bool {
    line_name(line).len() > 0 && line_name(line).last() == '!'
}

/// The name of the command of a line.
pub open spec fn line_command(line: Seq<char>) -> Seq<char> {
    if line_forces(line) { line_name(line).drop_last() } else { line_name(line) }
}

/// The argument of a line: one text, so that file names may contain spaces.
pub open spec fn line_argument(line: Seq<char>) -> Seq<char> {
    trimmed(line.skip(first_white(line)), Trim::White)
}

/// A command line, taken apart.
#[derive(Debug)]
pub struct Line {
    pub name: String,
    pub argument: String,
    pub force: bool,
}

/// Takes a command line apart.
pub fn parse_line(text: &str) -> (line: Line)
    ensures
        line.name@ == line_command(text@),
        line.argument@ == line_argument(text@),
        line.force == line_forces(text@),
{
    let chars = chars_of(text);
    let mut at: usize = 0;
    while at < chars.len() && !chars[at].is_whitespace()
        invariant
            at <= chars.len(),
            forall|j: int| 0 <= j < at ==> !white()(#[trigger] chars@[j]),
        decreases chars.len() - at,
    {
        at += 1;
    }
    proof {
        crate::find::lemma_is_first(chars@, white(), at as int);
    }
    let force = at > 0 && chars[at - 1] == '!';
    let end: usize = if force { at - 1 } else { at };
    let name = text_between(chars.as_slice(), 0, end);
    let (from, to) = trim_range(chars.as_slice(), at, chars.len(), Trim::White);
    let argument = text_between(chars.as_slice(), from, to);
    proof {
        assert(chars@.take(at as int) == line_name(text@));
        if at > 0 {
            assert(line_name(text@).last() == chars@[at - 1]);
        }
        assert(name@ =~= line_command(text@));
        assert(chars@.subrange(at as int, chars@.len() as int) =~= text@.skip(at as int));
    }
    Line { name, argument, force }
}

/// What a line asks for.
#[derive(Debug)]
pub enum Invocation {
    /// Nothing; it is empty.
    Nothing,
    /// A command of the application.
    Run { id: CommandId, argument: String, force: bool },
    /// A command of the editor.
    Edit { name: String },
}

/// Whether a command takes an argument and `!`.
pub open spec fn takes(arguments: Arguments, argument: Seq<char>, force: bool) -> bool {
    match arguments {
        Arguments::Plain => argument.len() == 0 && !force,
        Arguments::Forced => argument.len() == 0,
        Arguments::Optional => !force,
        Arguments::Needed => argument.len() > 0 && !force,
        Arguments::Free => true,
        Arguments::Switch => (argument.len() == 0 || argument == "on"@ || argument == "off"@)
            && !force,
    }
}

/// Why a line is refused, where it is: in a repository view only commands that
/// do not edit the document behind it run, and commands refuse arguments that
/// they do not take.
pub open spec fn line_refusal(line: Seq<char>, git: bool) -> Option<Error> {
    let argument = line_argument(line);
    let force = line_forces(line);
    match command_named(line_command(line)) {
        Some(id) => if git && !id.works_on_git() {
            Some(Error::GitViewReadOnly)
        } else if takes(id.spec_arguments(), argument, force) {
            None
        } else {
            Some(id.usage())
        },
        None => if git {
            Some(Error::GitViewReadOnly)
        } else if argument.len() > 0 || force {
            Some(Error::UnknownCommand)
        } else {
            None
        },
    }
}

/// Whether a line was taken as it should be.
pub open spec fn line_taken(
    line: Seq<char>,
    git: bool,
    invocation: Result<Invocation, Error>,
) -> bool {
    match (line_refusal(line, git), invocation) {
        (Some(error), Err(refused)) => refused == error,
        (None, Ok(Invocation::Run { id, argument, force })) => {
            &&& command_named(line_command(line)) == Some(id)
            &&& argument@ == line_argument(line)
            &&& force == line_forces(line)
        },
        (None, Ok(Invocation::Edit { name })) => {
            &&& command_named(line_command(line)) is None
            &&& name@ == line_command(line)
        },
        _ => false,
    }
}

fn invoke(text: &str, git: bool) -> (invocation: Result<Invocation, Error>)
    ensures
        line_taken(text@, git, invocation),
{
    let Line { name, argument, force } = parse_line(text);
    let empty = argument.as_str().is_empty();
    match find(name.as_str()) {
        Some(id) => {
            if git && !id.is_git_safe() {
                return Err(Error::GitViewReadOnly);
            }
            let taken = match id.arguments() {
                Arguments::Plain => empty && !force,
                Arguments::Forced => empty,
                Arguments::Optional => !force,
                Arguments::Needed => !empty && !force,
                Arguments::Free => true,
                Arguments::Switch => (empty || same_text(argument.as_str(), "on") || same_text(
                    argument.as_str(),
                    "off",
                )) && !force,
            };
            if taken {
                Ok(Invocation::Run { id, argument, force })
            } else {
                Err(id.refuse())
            }
        },
        None => {
            if git {
                return Err(Error::GitViewReadOnly);
            }
            if !empty || force {
                return Err(Error::UnknownCommand);
            }
            Ok(Invocation::Edit { name })
        },
    }
}

impl App {
    /// Dispatch a colon command. The remaining text is one literal path argument,
    /// so file names may contain spaces. A trailing ! on the command means force.
    /// The line goes into the history and the register of command lines first.
    pub fn execute(&mut self, text: &str, out: &mut Vec<Effect>) -> (invocation: Result<
        Invocation,
        Error,
    >)
        requires
            old(self).screen().valid(),
            old(self).prompt_history.valid(),
        ensures
            line_executed(*old(self), text@, *final(self), old(out)@, final(out)@, invocation),
            final(self).prompt_history.valid(),
    {
        let line = trim_white(text);
        if line.as_str().is_empty() {
            return Ok(Invocation::Nothing);
        }
        let git = self.active_git_view().is_some();
        self.prompt_history.push(':', line.as_str());
        let invocation = invoke(line.as_str(), git);
        out.push(Effect::SetRegister(':', line));
        assert(out@.drop_last() =~= old(out)@);
        invocation
    }

    /// What the help command says: the basic keys, what an editing command does
    /// (`described`), or what a command of the application does.
    pub fn help(&mut self, argument: &str, described: Option<String>) -> (result: Result<
        (),
        Error,
    >)
        ensures
            help_said(*old(self), argument@, described, *final(self), result),
    {
        if argument.is_empty() {
            self.message = Message::BasicKeys;
            return Ok(());
        }
        match described {
            Some(text) => {
                self.message = Message::Text { text };
                Ok(())
            },
            None => match find(argument) {
                Some(id) => {
                    self.message = Message::Text {
                        text: id.documentation().to_owned(),
                    };
                    Ok(())
                },
                None => Err(Error::UnknownHelp),
            },
        }
    }

    /// Says the language of the document, once it was set or asked for.
    pub fn show_language(&mut self, name: Option<String>)
        ensures
            ({
                let automatic = old(self).automatic_language;
                match name {
                    Some(name) => *final(self) == old(self).says(
                        Message::Language { name, automatic },
                    ),
                    None => {
                        &&& final(self).message matches Message::Language {
                            name,
                            automatic: shown,
                        } && name@ == "text"@ && shown == automatic
                        &&& *final(self) == (App { message: final(self).message, ..*old(self) })
                    },
                }
            }),
    {
        let automatic = self.automatic_language;
        self.message = match name {
            Some(name) => Message::Language { name, automatic },
            None => Message::Language { name: "text".to_owned(), automatic },
        };
    }

    /// Begins to write the active document under a name, which is `target` where
    /// it is not its own. What is typed later can be undone to what was
    /// written.
    pub fn begin_write(&self, target: Option<FileId>, out: &mut Vec<Effect>) -> (result: Result<
        (),
        Error,
    >)
        ensures
            write_begun(*self, target, old(out)@, final(out)@, result),
    {
        if self.is_commit_draft() {
            return Err(Error::CommitDraft);
        }
        match self.check_save_target(target) {
            Ok(()) => {},
            Err(error) => {
                return Err(error);
            },
        }
        out.push(Effect::FinishUndoGroup);
        Ok(())
    }

    /// The language to set for a name: `text` is none, and `auto` is that of the
    /// name or the first line of the file (`detected`). `named` is the language
    /// of that name, and `names` are those of all. Nothing is to be set where no
    /// name is given. `show_language` then ends the matter.
    pub fn set_language(
        &mut self,
        argument: &str,
        detected: Option<LanguageId>,
        named: Option<LanguageId>,
        names: &Vec<String>,
    ) -> (set: Result<Option<Option<LanguageId>>, Error>)
        ensures
            language_set(*old(self), argument@, detected, named, names@, *final(self), set),
    {
        if argument.is_empty() {
            return Ok(None);
        }
        if same_text(argument, "text") {
            self.automatic_language = false;
            return Ok(Some(None));
        }
        if same_text(argument, "auto") {
            proof {
                reveal_strlit("text");
                reveal_strlit("auto");
                assert("text"@[0] != "auto"@[0]);
            }
            self.automatic_language = true;
            return Ok(Some(detected));
        }
        if named.is_none() {
            return Err(Error::UnknownLanguage { names: separate(names) });
        }
        self.automatic_language = false;
        Ok(Some(named))
    }

    /// The language to set after a document was written under a name for which
    /// `detected` is the language: another one, unless one was set by hand.
    pub fn language_of_name(&self, detected: Option<LanguageId>) -> (set: Option<
        Option<LanguageId>,
    >)
        ensures
            name_language(*self, detected, set),
    {
        if self.automatic_language && !same_id(detected, self.editor.language) {
            Some(detected)
        } else {
            None
        }
    }

    /// The application that has written so many bytes of the active document.
    pub open spec fn written(self, bytes: u64) -> App {
        App {
            language: State {
                saved: (self.language.saved + 1) as u64,
                saved_snapshot: Some(
                    Snapshot {
                        document: self.editor.document,
                        revision: self.editor.revision,
                    },
                ),
                ..self.language
            },
            ..self
        }.says(Message::Wrote { bytes })
    }

    /// Takes note that the active document was written: how many bytes, and
    /// which revision. What comes from repositories is read again.
    pub fn document_written(&mut self, bytes: u64, now: Time, out: &mut Vec<Effect>)
        requires
            old(self).language.saved < u64::MAX,
        ensures
            ({
                let written = old(self).written(bytes);
                status_refreshed(
                    written.git_refreshed(now),
                    now,
                    *final(self),
                    old(out)@ + written.git_refresh_effects(),
                    final(out)@,
                )
            }),
    {
        self.message = Message::Wrote { bytes };
        self.language.saved = self.language.saved + 1;
        self.language.saved_snapshot = Some(
            Snapshot { document: self.editor.document, revision: self.editor.revision },
        );
        self.refresh_git(now, out);
        self.refresh_status(now, out);
    }
}

/// Texts one after the other, with commas between them.
pub open spec fn separated(parts: Seq<Seq<char>>) -> Seq<char>
    decreases parts.len(),
{
    if parts.len() == 0 {
        Seq::empty()
    } else if parts.len() == 1 {
        parts[0]
    } else {
        separated(parts.drop_last()) + ", "@ + parts.last()
    }
}

fn separate(parts: &Vec<String>) -> (text: String)
    ensures
        text@ == separated(texts(parts@)),
{
    let mut text = String::new();
    let ghost all = texts(parts@);
    let mut i: usize = 0;
    assert(text@ =~= separated(all.take(0)));
    while i < parts.len()
        invariant
            i <= parts.len(),
            all == texts(parts@),
            all.len() == parts@.len(),
            text@ == separated(all.take(i as int)),
        decreases parts.len() - i,
    {
        assert(all.take(i + 1).drop_last() =~= all.take(i as int));
        assert(all.take(i + 1).last() == parts@[i as int]@);
        if i > 0 {
            text.append(", ");
        } else {
            assert(text@ =~= Seq::<char>::empty());
        }
        text.append(parts[i].as_str());
        assert(text@ =~= separated(all.take(i + 1)));
        i += 1;
    }
    assert(all.take(i as int) =~= all);
    text
}

/// In front of a repository no command runs that could edit the document
/// behind it.
pub proof fn law_git_views_protect_the_document(
    line: Seq<char>,
    invocation: Result<Invocation, Error>,
)
    requires
        line_taken(line, true, invocation),
    ensures
        invocation matches Ok(Invocation::Run { id, argument, force }) ==> id.works_on_git(),
        !(invocation matches Ok(Invocation::Edit { name })),
{
}

/// Whether help was given as it should be.
pub open spec fn help_said(
    before: App,
    argument: Seq<char>,
    described: Option<String>,
    now: App,
    result: Result<(), Error>,
) -> bool {
    if argument.len() == 0 {
        &&& result is Ok
        &&& now == before.says(Message::BasicKeys)
    } else {
        match (described, command_named(argument)) {
            (Some(text), _) => {
                &&& result is Ok
                &&& now == before.says(Message::Text { text })
            },
            (None, Some(id)) => {
                &&& result is Ok
                &&& now.message matches Message::Text { text }
                    && text@ == id.spec_documentation()
                &&& now == (App { message: now.message, ..before })
            },
            (None, None) => {
                &&& result == Err::<(), Error>(Error::UnknownHelp)
                &&& now == before
            },
        }
    }
}

/// Whether the language to set was chosen as it should be.
pub open spec fn language_set(
    before: App,
    argument: Seq<char>,
    detected: Option<LanguageId>,
    named: Option<LanguageId>,
    names: Seq<String>,
    now: App,
    set: Result<Option<Option<LanguageId>>, Error>,
) -> bool {
    if argument.len() == 0 {
        &&& set == Ok::<Option<Option<LanguageId>>, Error>(None)
        &&& now == before
    } else if argument == "text"@ {
        &&& set == Ok::<Option<Option<LanguageId>>, Error>(Some(None))
        &&& now == (App { automatic_language: false, ..before })
    } else if argument == "auto"@ {
        &&& set == Ok::<Option<Option<LanguageId>>, Error>(Some(detected))
        &&& now == (App { automatic_language: true, ..before })
    } else {
        match (named, set) {
            (Some(_), Ok(set)) => {
                &&& set == Some(named)
                &&& now == (App { automatic_language: false, ..before })
            },
            (None, Err(Error::UnknownLanguage { names: all })) => {
                all@ == separated(texts(names)) && now == before
            },
            _ => false,
        }
    }
}

/// Whether writing was begun, or refused.
pub open spec fn write_begun(
    before: App,
    target: Option<FileId>,
    asked: Seq<Effect>,
    asks: Seq<Effect>,
    result: Result<(), Error>,
) -> bool {
    let draft = is_draft(before.git_write.drafts@, before.editor.document);
    let buffers = before.windows.buffers@;
    let taken = target is Some && find_file(buffers, target) < buffers.len();
    &&& result == if draft {
        Err(Error::CommitDraft)
    } else if taken {
        Err(Error::AlreadyOpen)
    } else {
        Ok(())
    }
    &&& asks == if draft || taken {
        asked
    } else {
        asked.push(Effect::FinishUndoGroup)
    }
}

/// Whether this is the language to set after a document was written.
pub open spec fn name_language(
    before: App,
    detected: Option<LanguageId>,
    set: Option<Option<LanguageId>>,
) -> bool {
    set == if before.automatic_language && detected != before.editor.language {
        Some(detected)
    } else {
        None
    }
}

/// Whether a command line was recorded and taken as it should be.
pub open spec fn line_executed(
    before: App,
    text: Seq<char>,
    now: App,
    asked: Seq<Effect>,
    asks: Seq<Effect>,
    invocation: Result<Invocation, Error>,
) -> bool {
    let line = trimmed(text, Trim::White);
    let git = before.screen().git_view() is Some;
    if line.len() == 0 {
        &&& invocation == Ok::<Invocation, Error>(Invocation::Nothing)
        &&& now == before
        &&& asks == asked
    } else {
        &&& line_taken(line, git, invocation)
        &&& now.prompt_history@ == if recordable(
            before.prompt_history@,
            ':',
            line,
        ) {
            kept_entries(before.prompt_history@.push((':', line)))
        } else {
            before.prompt_history@
        }
        &&& now == (App {
            prompt_history: now.prompt_history,
            ..before
        })
        &&& asks.len() == asked.len() + 1
        &&& asks.drop_last() == asked
        &&& asks.last() matches Effect::SetRegister(':', kept) && kept@ == line
    }
}

} // verus!
