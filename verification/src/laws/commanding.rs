//! Command lines by what is typed, and what the editor asks of the application.

use crate::app::{App, PromptKind};
use crate::commands::{
    command_named, find_command, first_white, help_said, language_set, line_argument,
    line_command, line_forces, line_name, line_taken, named, white, write_begun,
    ArgumentCompletion, CommandId, Invocation,
};
use crate::dispatch::{
    action_applied, repeat_ended, search_result_taken, ApplicationAction, SearchCompletion,
};
use crate::editor::{FileId, LanguageId, SearchStatus};
use crate::effect::Effect;
use crate::error::Error;
use crate::event::Event;
use crate::find::lemma_first_where;
use crate::laws::jumping::{here, is_own};
use crate::message::Message;
use crate::text::{cut_back, cut_front, trimmed, white_space, Trim};
use vstd::prelude::*;

verus! {

/// Whether a word is one that runs a command.
pub open spec fn is_word_for(word: Seq<char>, id: CommandId) -> bool {
    match id {
        CommandId::Open => word == "open"@ || word == "o"@ || word == "edit"@ || word == "e"@,
        CommandId::Reload => word == "reload"@,
        CommandId::Browse => word == "browse"@,
        CommandId::GitStage => word == "git_stage"@,
        CommandId::GitUnstage => word == "git_unstage"@,
        CommandId::GitCommit => word == "git_commit"@,
        CommandId::GitCommitSubmit => word == "git_commit_submit"@,
        CommandId::GitCommitCancel => word == "git_commit_cancel"@,
        CommandId::GitStatus => word == "git_status"@,
        CommandId::GitToggle => word == "git_toggle"@,
        CommandId::GitVisit => word == "git_visit"@,
        CommandId::GitRefresh => word == "git_refresh"@,
        CommandId::GitClose => word == "git_close"@,
        CommandId::VerticalSplit => word == "vsplit"@ || word == "vs"@,
        CommandId::HorizontalSplit => word == "hsplit"@ || word == "hs"@ || word == "split"@ || word
            == "sp"@,
        CommandId::Only => word == "only"@,
        CommandId::QuitAll => word == "quit-all"@ || word == "qa"@ || word == "qall"@,
        CommandId::AutoCompletion => word == "auto-completion"@,
        CommandId::Mouse => word == "mouse"@,
        CommandId::RestartServer => word == "lsp-restart"@,
        CommandId::Write => word == "write"@ || word == "w"@,
        CommandId::Quit => word == "quit"@ || word == "q"@,
        CommandId::BufferClose => word == "buffer-close"@ || word == "bc"@ || word == "bclose"@,
        CommandId::BufferNext => word == "buffer-next"@ || word == "bn"@ || word == "bnext"@,
        CommandId::BufferPrevious => word == "buffer-previous"@ || word == "bp"@ || word
            == "bprevious"@,
        CommandId::WriteQuit => word == "write-quit"@ || word == "wq"@ || word == "x"@,
        CommandId::SetLanguage => word == "language"@ || word == "lang"@,
        CommandId::Help => word == "help"@ || word == "h"@,
        CommandId::Tutorial => word == "tutorial"@,
    }
}

/// Whether a line begins with a word, followed by white space or nothing.
pub open spec fn begins_with_word(line: Seq<char>, word: Seq<char>) -> bool {
    &&& word.len() <= line.len()
    &&& line.take(word.len() as int) == word
    &&& forall|i: int| 0 <= i < word.len() ==> !white_space(#[trigger] word[i])
    &&& word.len() < line.len() ==> white_space(line[word.len() as int])
}

proof fn lemma_line_name(line: Seq<char>)
    ensures
        begins_with_word(line, line_name(line)),
        0 <= first_white(line) <= line.len(),
        line_name(line).len() == first_white(line),
{
    lemma_first_where(line, white());
    let name = line_name(line);
    assert forall|i: int| 0 <= i < name.len() implies !white_space(#[trigger] name[i]) by {
        assert(!white()(line[i]));
    }
    assert(line.take(name.len() as int) =~= name);
    if name.len() < line.len() {
        assert(white()(line[name.len() as int]));
    }
}

/// A line runs the command whose word it begins with. A `!` behind the word
/// forces the command.
pub proof fn law_lines_run_what_they_name(
    line: Seq<char>,
    git: bool,
    id: CommandId,
    argument: String,
    force: bool,
)
    requires
        line_taken(
            line,
            git,
            Ok::<Invocation, Error>(Invocation::Run { id, argument, force }),
        ),
    ensures
        exists|word: Seq<char>| #[trigger]
            is_word_for(word, id) && begins_with_word(
                line,
                if force { word.push('!') } else { word },
            ),
{
    let word = line_command(line);
    lemma_line_name(line);
    lemma_first_where(CommandId::spec_all(), named(word));
    assert(named(word)(CommandId::spec_all()[find_command(word)]));
    assert(id.answers_to(word));
    assert(is_word_for(word, id));
    if force {
        assert(word.push('!') =~= line_name(line));
    }
}

/// What is left of a line behind its word is the argument of the command, without
/// the white space around it.
pub proof fn law_the_rest_of_a_line_is_its_argument(
    line: Seq<char>,
    git: bool,
    id: CommandId,
    argument: String,
    force: bool,
)
    requires
        line_taken(
            line,
            git,
            Ok::<Invocation, Error>(Invocation::Run { id, argument, force }),
        ),
    ensures
        argument@.len() > 0 ==> !white_space(argument@[0]) && !white_space(argument@.last()),
        exists|from: int, to: int| #[trigger] is_middle(line, argument@, from, to),
{
    lemma_line_name(line);
    let rest = line.skip(first_white(line));
    lemma_front(rest);
    let front = cut_front(rest, Trim::White);
    lemma_back(front);
    let from = line.len() - front.len();
    let to = from + argument@.len();
    assert(argument@ == trimmed(rest, Trim::White));
    assert(line.subrange(from, to) =~= argument@);
    assert forall|k: int| line_name(line).len() <= k < from implies white_space(
        #[trigger] line[k],
    ) by {
        assert(line[k] == rest[k - first_white(line)]);
    }
    assert forall|k: int| to <= k < line.len() implies white_space(#[trigger] line[k]) by {
        assert(line[k] == front[k - from]);
    }
    assert forall|k: int| 0 <= k < line.len() && !(from <= k < to) implies k < first_white(line)
        || white_space(#[trigger] line[k]) by {}
    assert(is_middle(line, argument@, from, to));
}

/// Whether a part of a line has nothing but one word before it and white space
/// around it.
pub open spec fn is_middle(line: Seq<char>, part: Seq<char>, from: int, to: int) -> bool {
    &&& 0 <= from <= to <= line.len()
    &&& line.subrange(from, to) == part
    &&& exists|end: int| #[trigger]
        begins_with_word(line, line.take(end)) && 0 <= end <= from && forall|k: int|
            end <= k < line.len() && !(from <= k < to) ==> white_space(#[trigger] line[k])
}

proof fn lemma_front(text: Seq<char>)
    ensures
        cut_front(text, Trim::White).len() <= text.len(),
        ({
            let front = cut_front(text, Trim::White);
            let lost = text.len() - front.len();
            &&& front == text.skip(lost)
            &&& forall|k: int| 0 <= k < lost ==> white_space(#[trigger] text[k])
            &&& front.len() > 0 ==> !white_space(front[0])
        }),
    decreases text.len(),
{
    if text.len() > 0 && white_space(text[0]) {
        let rest = text.drop_first();
        lemma_front(rest);
        let front = cut_front(rest, Trim::White);
        let lost = text.len() - front.len();
        assert(front =~= text.skip(lost));
        assert forall|k: int| 0 <= k < lost implies white_space(#[trigger] text[k]) by {
            if k > 0 {
                assert(text[k] == rest[k - 1]);
            }
        }
    } else {
        assert(text.skip(0) =~= text);
    }
}

proof fn lemma_back(text: Seq<char>)
    ensures
        cut_back(text, Trim::White).len() <= text.len(),
        ({
            let back = cut_back(text, Trim::White);
            &&& back == text.take(back.len() as int)
            &&& forall|k: int| back.len() <= k < text.len() ==> white_space(#[trigger] text[k])
            &&& back.len() > 0 ==> !white_space(back.last())
        }),
    decreases text.len(),
{
    if text.len() > 0 && white_space(text.last()) {
        let rest = text.drop_last();
        lemma_back(rest);
        let back = cut_back(rest, Trim::White);
        assert(back =~= text.take(back.len() as int));
        assert forall|k: int| back.len() <= k < text.len() implies white_space(
            #[trigger] text[k],
        ) by {
            if k < rest.len() {
                assert(text[k] == rest[k]);
            }
        }
    } else {
        assert(text.take(text.len() as int) =~= text);
    }
}

/// Only some commands can be forced, only some take an argument, and `open` needs
/// one. The mouse is turned `on` or `off`.
pub proof fn law_commands_take_their_arguments(
    line: Seq<char>,
    git: bool,
    id: CommandId,
    argument: String,
    force: bool,
)
    requires
        line_taken(
            line,
            git,
            Ok::<Invocation, Error>(Invocation::Run { id, argument, force }),
        ),
    ensures
        force ==> {
            ||| id == CommandId::Reload
            ||| id == CommandId::Only
            ||| id == CommandId::Quit
            ||| id == CommandId::QuitAll
            ||| id == CommandId::BufferClose
            ||| id == CommandId::Write
            ||| id == CommandId::WriteQuit
        },
        argument@.len() > 0 ==> {
            ||| id == CommandId::Open
            ||| id == CommandId::Browse
            ||| id == CommandId::VerticalSplit
            ||| id == CommandId::HorizontalSplit
            ||| id == CommandId::AutoCompletion
            ||| id == CommandId::SetLanguage
            ||| id == CommandId::Help
            ||| id == CommandId::Mouse
            ||| id == CommandId::Write
            ||| id == CommandId::WriteQuit
        },
        id == CommandId::Open ==> argument@.len() > 0,
        id == CommandId::Mouse ==> argument@.len() == 0 || argument@ == "on"@ || argument@
            == "off"@,
{
}

/// In front of a repository nothing runs that edits, writes, opens or reloads the
/// document behind it; what works on the repository or on the windows does.
pub proof fn law_repository_views_run_their_own_commands(
    line: Seq<char>,
    id: CommandId,
    argument: String,
    force: bool,
)
    requires
        line_taken(
            line,
            true,
            Ok::<Invocation, Error>(Invocation::Run { id, argument, force }),
        ),
    ensures
        id != CommandId::Open,
        id != CommandId::Reload,
        id != CommandId::Write,
        id != CommandId::WriteQuit,
        id != CommandId::SetLanguage,
        id != CommandId::Tutorial,
        id != CommandId::BufferNext,
        id != CommandId::BufferPrevious,
        id != CommandId::BufferClose,
        id != CommandId::GitCommitSubmit,
{
}

/// Outside of repository views a line whose word is known and whose argument the
/// command takes is never refused, and one that is refused says how that command
/// is used, or that there is none.
pub proof fn law_known_lines_are_not_refused(
    line: Seq<char>,
    git: bool,
    invocation: Result<Invocation, Error>,
)
    requires
        line_taken(line, git, invocation),
    ensures
        invocation matches Err(error) ==> {
            &&& error is GitViewReadOnly ==> git
            &&& error is GitStageUsage ==> line_command(line) == "git_stage"@
            &&& error is GitUnstageUsage ==> line_command(line) == "git_unstage"@
            &&& error is BufferNextUsage ==> is_word_for(line_command(line), CommandId::BufferNext)
            &&& error is BufferPreviousUsage ==> is_word_for(
                line_command(line),
                CommandId::BufferPrevious,
            )
            &&& error is VerticalSplitUsage ==> is_word_for(
                line_command(line),
                CommandId::VerticalSplit,
            )
            &&& error is HorizontalSplitUsage ==> is_word_for(
                line_command(line),
                CommandId::HorizontalSplit,
            )
            &&& error is QuitUsage ==> is_word_for(line_command(line), CommandId::Quit)
            &&& error is QuitAllUsage ==> is_word_for(line_command(line), CommandId::QuitAll)
            &&& error is OpenUsage ==> is_word_for(line_command(line), CommandId::Open) && (
            line_argument(line).len() == 0 || line_forces(line))
            &&& error is MouseUsage ==> is_word_for(line_command(line), CommandId::Mouse)
            &&& error is ReloadUsage ==> is_word_for(line_command(line), CommandId::Reload)
            &&& error is BrowseForce ==> is_word_for(line_command(line), CommandId::Browse)
            &&& error is GitCommitUsage ==> is_word_for(line_command(line), CommandId::GitCommit)
            &&& error is GitCommitSubmitUsage ==> is_word_for(
                line_command(line),
                CommandId::GitCommitSubmit,
            )
            &&& error is GitCommitCancelUsage ==> is_word_for(
                line_command(line),
                CommandId::GitCommitCancel,
            )
            &&& error is GitStatusUsage ==> is_word_for(line_command(line), CommandId::GitStatus)
            &&& error is GitToggleUsage ==> is_word_for(line_command(line), CommandId::GitToggle)
            &&& error is GitVisitUsage ==> is_word_for(line_command(line), CommandId::GitVisit)
            &&& error is GitRefreshUsage ==> is_word_for(line_command(line), CommandId::GitRefresh)
            &&& error is GitCloseUsage ==> is_word_for(line_command(line), CommandId::GitClose)
            &&& error is OnlyUsage ==> is_word_for(line_command(line), CommandId::Only)
            &&& error is AutoCompletionForce ==> is_word_for(
                line_command(line),
                CommandId::AutoCompletion,
            )
            &&& error is RestartUsage ==> is_word_for(line_command(line), CommandId::RestartServer)
            &&& error is BufferCloseUsage ==> is_word_for(
                line_command(line),
                CommandId::BufferClose,
            )
            &&& error is LanguageForce ==> is_word_for(line_command(line), CommandId::SetLanguage)
            &&& error is HelpForce ==> is_word_for(line_command(line), CommandId::Help)
            &&& error is TutorialUsage ==> is_word_for(line_command(line), CommandId::Tutorial)
        },
        invocation matches Ok(Invocation::Edit { name }) ==> !git && line_argument(line).len() == 0
            && !line_forces(line) && begins_with_word(line, name@),
{
    let word = line_command(line);
    lemma_line_name(line);
    lemma_first_where(CommandId::spec_all(), named(word));
    if command_named(word) is Some {
        assert(named(word)(CommandId::spec_all()[find_command(word)]));
    }
}

/// Paths are suggested to the commands that take one, languages to the one that
/// sets a language and commands to help.
pub proof fn law_arguments_are_completed_by_what_they_are(id: CommandId)
    ensures
        ({
            let completion = id.spec_completion();
            &&& completion == ArgumentCompletion::Path <==> {
                ||| id == CommandId::Open
                ||| id == CommandId::Browse
                ||| id == CommandId::VerticalSplit
                ||| id == CommandId::HorizontalSplit
                ||| id == CommandId::Write
                ||| id == CommandId::WriteQuit
            }
            &&& completion == ArgumentCompletion::Language <==> id == CommandId::SetLanguage
            &&& completion == ArgumentCompletion::Command <==> id == CommandId::Help
            &&& completion == ArgumentCompletion::AutoCompletion <==> id
                == CommandId::AutoCompletion
        }),
{
}

/// Help on nothing shows the basic keys, help on an editing command what it is
/// described as, and help on anything else that is not a command is an error.
pub proof fn law_help_is_on_what_was_asked(
    before: App,
    argument: Seq<char>,
    described: Option<String>,
    after: App,
    result: Result<(), Error>,
)
    requires
        help_said(before, argument, described, after, result),
    ensures
        argument.len() == 0 ==> after.message is BasicKeys && result is Ok,
        argument.len() > 0 && described is Some ==> after.message == (Message::Text {
            text: described->0,
        }) && result is Ok,
        argument.len() > 0 && described is None && result is Ok ==> exists|id: CommandId| #[trigger]
            is_word_for(argument, id) && (after.message matches Message::Text { text } && text@
                == id.spec_documentation()),
        result matches Err(error) ==> error is UnknownHelp && after == before && described is None,
{
    lemma_first_where(CommandId::spec_all(), named(argument));
    if command_named(argument) is Some {
        let id = CommandId::spec_all()[find_command(argument)];
        assert(named(argument)(id));
        assert(is_word_for(argument, id));
    }
}

/// `text` turns language support off, `auto` goes back to what the file is, and a
/// name sets that language by hand; a name that is not known changes nothing.
pub proof fn law_languages_are_set_by_name(
    before: App,
    argument: Seq<char>,
    detected: Option<LanguageId>,
    known: Option<LanguageId>,
    names: Seq<String>,
    after: App,
    set: Result<Option<Option<LanguageId>>, Error>,
)
    requires
        language_set(before, argument, detected, known, names, after, set),
    ensures
        ({
            let by_hand = argument.len() > 0 && argument != "text"@ && argument != "auto"@;
            &&& argument.len() == 0 ==> (set matches Ok(None)) && after == before
            &&& argument == "text"@ ==> (set matches Ok(Some(language)) && language is None
                && !after.automatic_language)
            &&& argument == "auto"@ ==> (set matches Ok(Some(language)) && language == detected
                && after.automatic_language)
            &&& by_hand && known is Some ==> (set matches Ok(Some(language)) && language == known
                && !after.automatic_language)
            &&& by_hand && known is None ==> (set matches Err(error) && error is UnknownLanguage
                && after == before)
            &&& after == (App { automatic_language: after.automatic_language, ..before })
        }),
{
    reveal_strlit("text");
    reveal_strlit("auto");
    assert("text"@[0] == 't' && "auto"@[0] == 'a');
}

/// A commit message is not written to a file, and no document is written over
/// another one that is open.
pub proof fn law_writing_spares_other_documents(
    before: App,
    target: Option<FileId>,
    asked: Seq<Effect>,
    asks: Seq<Effect>,
    result: Result<(), Error>,
)
    requires
        write_begun(before, target, asked, asks, result),
    ensures
        ({
            let draft = exists|i: int|
                0 <= i < before.git_write.drafts@.len() && (
                #[trigger] before.git_write.drafts@[i]).document == before.editor.document;
            let over = target is Some && exists|i: int|
                0 <= i < before.windows.buffers@.len() && (
                #[trigger] before.windows.buffers@[i]).editor.file == target;
            &&& result is Ok <==> !draft && !over
            &&& result matches Err(error) ==> asks == asked && if draft {
                error is CommitDraft
            } else {
                error is AlreadyOpen
            }
            &&& result is Ok ==> asks == asked.push(Effect::FinishUndoGroup)
        }),
{
    let drafts = before.git_write.drafts@;
    let document = before.editor.document;
    let own = |draft: crate::git_write::Draft| draft.document == document;
    lemma_first_where(drafts, own);
    let draft = crate::git_write::find_draft(drafts, document);
    if draft < drafts.len() {
        assert(own(drafts[draft]));
    } else {
        assert forall|i: int| 0 <= i < drafts.len() implies (#[trigger] drafts[i]).document
            != document by {
            assert(!own(drafts[i]));
        }
    }
    let buffers = before.windows.buffers@;
    let test = |buffer: crate::windows::Buffer| buffer.editor.file == target;
    lemma_first_where(buffers, test);
    let at = crate::travel::find_file(buffers, target);
    if at < buffers.len() {
        assert(test(buffers[at]));
    } else {
        assert forall|i: int| 0 <= i < buffers.len() implies (#[trigger] buffers[i]).editor.file
            != target by {
            assert(!test(buffers[i]));
        }
    }
}

/// What the editor asks for is done or handed on unchanged: a checkpoint is
/// recorded as the newest of its window, a transfer begins, and the rest is left
/// to others.
pub proof fn law_actions_are_done_or_handed_on(
    before: App,
    action: Option<ApplicationAction>,
    after: App,
    asked: Seq<Effect>,
    asks: Seq<Effect>,
    left: Option<ApplicationAction>,
    at: int,
)
    requires
        action_applied(before, action, after, asked, asks, left),
        is_own(before, at),
        before.jumps@[at].1.valid(),
        before.clipboard.next_id < u64::MAX,
    ensures
        ({
            let kept = action is Some && (action->0 is Clipboard || action->0 is SaveSelection);
            &&& !kept ==> left == action && after == before && asks == asked
            &&& kept ==> left is None
            &&& action == Some(ApplicationAction::SaveSelection) ==> {
                &&& after.jumps@[at].0 == before.window()
                &&& after.jumps@[at].1.entries.len() > 0
                &&& after.jumps@[at].1.entries.last() == here(before)
                &&& after.jumps@[at].1.cursor == after.jumps@[at].1.entries.len()
                &&& after.message is JumpSaved
                &&& asks == asked
            }
            &&& kept && action->0 is Clipboard ==> {
                &&& after.clipboard.pending matches Some(pending) && pending.document
                    == before.editor.document && pending.revision == before.editor.revision
                    && pending.id == before.clipboard.next_id + 1
                &&& after.jumps == before.jumps
            }
        }),
{
    crate::laws::jumping::lemma_own(before, at);
    assert(before.screen().trails == before.jumps@);
    let trail = before.jumps@[at].1;
    if trail.cursor > 0 && trail.entries[trail.cursor - 1] == here(before) {
        assert(trail.entries.take(trail.cursor).last() == here(before));
    }
}

/// An accepted search closes its prompt, a preview keeps it open and says whether
/// there is a match, and a failed one goes back to where it began.
pub proof fn law_searches_go_on_as_they_should(
    before: App,
    outcome: Result<SearchCompletion, Error>,
    after: App,
    asked: Seq<Effect>,
    asks: Seq<Effect>,
    redraw: bool,
)
    requires
        search_result_taken(before, outcome, after, asked, asks, redraw),
    ensures
        ({
            let of_search = before.prompt matches Some(prompt) && prompt.kind is Search;
            &&& outcome == Ok::<SearchCompletion, Error>(SearchCompletion::Accepted) ==> {
                after.prompt is None && after.message is Empty && !after.error && redraw
                    && after.viewport == before.viewport
            }
            &&& outcome == Ok::<SearchCompletion, Error>(SearchCompletion::Preview) ==> {
                &&& after.prompt == before.prompt
                &&& redraw
                &&& before.editor.search_status == Some(SearchStatus::NoMatch) <==> after.error
                &&& after.error ==> (after.message matches Message::Failed { error }
                    && error is NoMatches)
                &&& !after.error ==> after.message is Empty
            }
            &&& outcome == Ok::<SearchCompletion, Error>(SearchCompletion::Navigation) ==> {
                after.prompt == before.prompt && after.message is Empty && !after.error && redraw
            }
            &&& outcome == Ok::<SearchCompletion, Error>(SearchCompletion::Ignored) ==> {
                &&& asks == asked
                &&& redraw <==> of_search && before.editor.search_prompt is None
                &&& redraw ==> after.prompt is None
                &&& !redraw ==> after == before
            }
            &&& outcome matches Err(error) ==> {
                &&& redraw
                &&& after.error
                &&& after.message == (Message::Failed { error })
                &&& asks.len() == asked.len() + 2
                &&& asks[asked.len() as int] is CancelKeys
                &&& before.editor.search_prompt is None ==> after.prompt is None
                &&& before.editor.search_prompt is Some ==> after.prompt == before.prompt
                &&& before.editor.search_prompt is Some && of_search ==> (
                before.prompt->0.kind matches PromptKind::Search { viewport, .. }
                    && after.viewport == viewport)
            }
            &&& !(outcome matches Ok(SearchCompletion::Ignored)) ==> asks.len() > 0 && asks.last()
                is ApplyAction
        }),
{
    assert(asked + Seq::<Effect>::empty() =~= asked);
}

/// Steps of a repeated command redraw what they changed, and an error ends them.
pub proof fn law_repeated_steps_are_shown(
    before: App,
    outcome: Result<bool, Error>,
    after: App,
    asked: Seq<Effect>,
    asks: Seq<Effect>,
    redraw: bool,
)
    requires
        repeat_ended(before, outcome, after, asked, asks, redraw),
    ensures
        outcome matches Ok(changed) ==> redraw == changed && after == before && asks.last()
            is ApplyAction,
        outcome matches Err(error) ==> redraw && after.error && after.message == (Message::Failed {
            error,
        }) && asks == asked,
{
}

/// The pointer is listened to while the terminal has the focus; keys, a resize and
/// another focus let go of a divider.
pub proof fn law_the_pointer_follows_the_focus(app: App, event: Event)
    ensures
        ({
            let after = app.pointer_followed(event);
            &&& event is FocusGained ==> after.mouse.focused
            &&& event is FocusLost ==> !after.mouse.focused
            &&& !(event is FocusGained) && !(event is FocusLost) ==> after.mouse.focused
                == app.mouse.focused
            &&& event is FocusGained || event is FocusLost || event is Resize || (
            event matches Event::Key(press) && !press.released) ==> !after.mouse.drag
            &&& event is Mouse || event is Paste || (event matches Event::Key(press)
                && press.released) ==> after == app
            &&& after.mouse.enabled == app.mouse.enabled
            &&& after == (App { mouse: after.mouse, ..app })
        }),
{
}

} // verus!
