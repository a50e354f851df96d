//! Small decisions: what is refused, what keys wait for and what a session starts
//! with.

use crate::app::{App, Viewport};
use crate::buffers::{save_checked, syntax_batch_taken};
use crate::chrome::{chrome_shown, command_line_shown, Chrome, CommandLine, Names, Progress};
use crate::commands::{line_executed, name_language, Invocation};
use crate::completion::Request;
use crate::editor::{Editor, FileId, LanguageId, SearchStatus, Time};
use crate::effect::Effect;
use crate::error::Error;
use crate::find::{lemma_first_where, lemma_is_first};
use crate::git_write::{commit_place, commit_return, write_queued, Draft, Operation};
use crate::input::{preview_ended, search_given_up};
use crate::language::RequestKind;
use crate::message::Message;
use crate::mouse::mouse_configured;
use crate::pickers::keys_wait;
use crate::picking::picked_file_checked;
use crate::prompt::{of_register, recordable, trimmed, Entry};
use crate::reload::{poll_ended, reload_allowed};
use crate::selection::DocumentId;
use crate::signature::{signature_request_taken, signatures_received};
use crate::startup::fresh;
use crate::status_keys::{visit_decided, Visit};
use crate::text::{byte_length, white_space};
use crate::windows::{Buffer, Root};
use vstd::prelude::*;

verus! {

/// A session starts with one window on its document, at the top, with nothing open,
/// asked or recorded; the pointer and automatic completion are on, and the services
/// and repositories are off until they are turned on.
pub proof fn law_sessions_start_with_one_window(app: App, editor: Editor, size: (u16, u16))
    requires
        fresh(app, editor, size),
    ensures
        app.editor == editor,
        app.size == size,
        app.viewport.top_line == 0,
        app.viewport.left_column == 0,
        app.windows.layout.root.leaves() == seq![app.window()],
        app.windows.panes@.len() == 1,
        app.windows.panes@[0].id == app.window(),
        app.windows.panes@[0].document == editor.document,
        app.windows.panes@[0].git is None,
        app.windows.buffers@.len() == 0,
        app.jumps@.len() == 1,
        app.jumps@[0].0 == app.window(),
        app.prompt is None,
        app.picker.active is None,
        app.picker.last is None,
        app.completion.active is None,
        app.completion.config.enabled,
        app.completion.config.delay == 100,
        app.completion.config.min_length == 2,
        app.mouse.enabled,
        app.mouse.focused,
        !app.language.enabled,
        !app.git.enabled,
        !app.quit,
        !app.error,
        app.automatic_language,
        app.message is Welcome,
{
}

/// Whether keys wait is a matter of what is under way: a search, a location, a
/// repeated command, an accepted suggestion or entry, or something outside.
pub proof fn law_keys_wait_for_what_is_under_way(app: App, outside: bool, waiting: bool)
    requires
        keys_wait(app, outside, waiting),
    ensures
        outside || app.editor.search_waiting || app.editor.repeat_pending ==> waiting,
        app.navigation.pending is Some ==> waiting,
        app.completion.active matches Some(session) && session.accepting ==> waiting,
        app.picker.active matches Some(active) && active.accept_pending ==> waiting,
        app.language.pending matches Some(pending) && pending.waiting ==> waiting,
        app.language.command is Some || app.actions.request is Some ==> waiting,
        !outside && !app.editor.search_waiting && !app.editor.repeat_pending
            && app.navigation.pending is None && app.completion.active is None
            && app.picker.active is None && app.language.pending is None
            && app.language.command is None && app.actions.request is None
            && app.clipboard.pending is None ==> !waiting,
{
}

/// A file is read again where there is one and nothing unsaved would be lost, or
/// where that was forced.
pub proof fn law_reading_again_spares_unsaved_edits(
    app: App,
    force: bool,
    result: Result<(), Error>,
)
    requires
        reload_allowed(app, force, result),
    ensures
        result is Ok <==> app.editor.file is Some && (force || !app.editor.dirty),
        result matches Err(error) ==> if app.editor.file is None {
            error is NothingToReload
        } else {
            error is UnsavedReload
        },
{
}

/// Only the last batch of looks counts, and the next one is two seconds later.
pub proof fn law_the_last_looks_count(
    before: App,
    request: u64,
    time: Time,
    after: App,
    accepted: bool,
)
    requires
        poll_ended(before, request, time, after, accepted),
        time + 2_000_000_000 <= u64::MAX,
    ensures
        accepted <==> request == before.reload.request && !before.reload.cancelled,
        accepted ==> after.reload.due == Some((time + 2_000_000_000) as u64),
        !accepted ==> after == before,
        after.reload.request == before.reload.request,
{
}

/// `on` turns the pointer on and `off` turns it off; without an argument it stays as
/// it is. Either way it is told which it is, and a divider is let go of where it
/// changes.
pub proof fn law_the_pointer_is_turned_on_and_off(before: App, argument: Seq<char>, after: App)
    requires
        mouse_configured(before, argument, after),
    ensures
        argument == "on"@ ==> after.mouse.enabled && !after.mouse.drag,
        argument == "off"@ ==> !after.mouse.enabled && !after.mouse.drag,
        argument.len() == 0 ==> after.mouse == before.mouse,
        after.mouse.enabled ==> after.message is MouseOn,
        !after.mouse.enabled ==> after.message is MouseOff,
        after.mouse.focused == before.mouse.focused,
{
    reveal_strlit("on");
    reveal_strlit("off");
    assert("on"@.len() == 2 && "off"@.len() == 3);
}

/// A picked file is opened unless it is shown already; what is no file any more is
/// refused.
pub proof fn law_picked_files_must_be_there(
    app: App,
    file: FileId,
    is_file: Result<bool, Error>,
    open: Result<bool, Error>,
)
    requires
        picked_file_checked(app, file, is_file, open),
    ensures
        app.editor.file == Some(file) ==> (open matches Ok(now) && !now),
        app.editor.file != Some(file) && is_file == Ok::<bool, Error>(true) ==> (
        open matches Ok(now) && now),
        app.editor.file != Some(file) && is_file == Ok::<bool, Error>(false) ==> (
        open matches Err(error) && error is PickedNotAFile),
        app.editor.file != Some(file) && is_file is Err ==> open is Err,
{
}

/// Saving under the name of another open document is refused, and nothing else is.
pub proof fn law_saving_spares_open_documents(
    app: App,
    target: Option<FileId>,
    result: Result<(), Error>,
)
    requires
        save_checked(app, target, result),
    ensures
        result is Err <==> target is Some && exists|i: int|
            0 <= i < app.windows.buffers@.len() && (
            #[trigger] app.windows.buffers@[i]).editor.file == target,
        result matches Err(error) ==> error is AlreadyOpen,
{
    let buffers = app.windows.buffers@;
    let test = |buffer: Buffer| buffer.editor.file == target;
    lemma_first_where(buffers, test);
    let at = crate::travel::find_file(buffers, target);
    if at < buffers.len() {
        assert(test(buffers[at]));
    } else {
        assert forall|i: int| 0 <= i < buffers.len() implies (#[trigger] buffers[i]).editor.file
            != target by {
            assert(!test(buffers[i]));
        }
    }
}

/// All open documents are highlighted together, the active one first, after an edit
/// or once others are open; otherwise nothing is done.
pub proof fn law_open_documents_are_highlighted(
    before: App,
    due: bool,
    after: App,
    batch: Option<Vec<DocumentId>>,
    i: int,
)
    requires
        syntax_batch_taken(before, due, after, batch),
        0 <= i < before.windows.buffers@.len(),
    ensures
        due ==> batch is Some,
        before.windows.syntax_documents@.len() != before.windows.buffers@.len() + 1 ==> batch
            is Some,
        batch matches Some(batch) ==> {
            &&& batch@.len() == before.windows.buffers@.len() + 1
            &&& batch@[0] == before.editor.document
            &&& batch@[i + 1] == before.windows.buffers@[i].editor.document
            &&& after.windows.syntax_documents@ == batch@
        },
        batch is None ==> after == before,
{
    assert(before.screen().buffers == before.windows.buffers@);
}

/// A document that is written under another name takes the language of that name,
/// unless one was set by hand.
pub proof fn law_names_decide_the_language(
    app: App,
    detected: Option<LanguageId>,
    set: Option<Option<LanguageId>>,
)
    requires
        name_language(app, detected, set),
    ensures
        !app.automatic_language ==> set is None,
        app.automatic_language && detected != app.editor.language ==> set == Some(detected),
        detected == app.editor.language ==> set is None,
{
}

/// The command line shows the last message, and where there is none the problem at
/// the cursor, but not in front of a repository.
pub proof fn law_messages_come_before_problems(app: App, line: CommandLine)
    requires
        command_line_shown(app, line),
    ensures
        app.message.text().len() > 0 ==> line.text@ == app.message.text(),
        app.message.text().len() == 0 && app.screen().git_view() is None ==> line.text@
            == app.problem_text(),
        app.message.text().len() == 0 && app.screen().git_view() is Some ==> line.text@.len() == 0,
        line.error == app.error,
{
}

/// The status line of a document shows whether it has unsaved changes; in front of a
/// repository there is none.
pub proof fn law_status_lines_show_unsaved_changes(
    app: App,
    names: Names,
    progress: Progress,
    chrome: Option<Chrome>,
)
    requires
        chrome_shown(app, names, progress, chrome),
    ensures
        chrome is None <==> app.screen().git_view() is Some,
        chrome matches Some(chrome) ==> chrome.dirty == app.editor.dirty,
{
}

/// A commit begins in the repository that the active window shows, and returns to
/// the view it was begun in.
pub proof fn law_commits_begin_and_end_in_their_view(
    app: App,
    place: Result<(Root, Root), Error>,
    key: Result<Root, Error>,
    at: int,
)
    ensures
        commit_place(app, place) && app.screen().git_view() is None ==> (place matches Err(error)
            && error is NoGitStatus),
        commit_place(app, place) && place is Ok ==> app.screen().git_view() == Some(
            (place->Ok_0).1,
        ),
        commit_return(app, key) && 0 <= at < app.git_write.drafts@.len()
            && app.git_write.drafts@[at].document == app.editor.document && (forall|i: int|
            0 <= i < at ==> (#[trigger] app.git_write.drafts@[i]).document != app.editor.document)
            ==> key == Ok::<Root, Error>(app.git_write.drafts@[at].status_key),
        commit_return(app, key) && app.git_write.drafts@.len() == 0 ==> (key matches Err(error)
            && error is NoCommitDraft),
{
    let drafts = app.git_write.drafts@;
    let document = app.editor.document;
    let own = |draft: Draft| draft.document == document;
    lemma_first_where(drafts, own);
    if 0 <= at < drafts.len() && drafts[at].document == document && (forall|i: int|
        0 <= i < at ==> (#[trigger] drafts[i]).document != document) {
        assert forall|i: int| 0 <= i < at implies !own(#[trigger] drafts[i]) by {}
        lemma_is_first(drafts, own, at);
    }
}

/// One operation runs for a repository at a time, and no more than sixteen in all;
/// one that is refused changes nothing.
pub proof fn law_operations_do_not_pile_up(
    before: App,
    root: Root,
    operation: Operation,
    name: String,
    after: App,
    result: Result<(), Error>,
)
    requires
        write_queued(before, root, operation, name, after, result),
    ensures
        result is Err ==> after == before,
        before.git_write.pending@.len() >= 16 ==> result is Err,
        result matches Err(error) ==> error is GitBusy || error is TooManyGitOperations
            && before.git_write.pending@.len() >= 16,
        result is Ok ==> {
            &&& after.git_write.pending@.len() == before.git_write.pending@.len() + 1
            &&& after.git_write.pending@.last().root == root
            &&& after.git_write.jobs@.last().root == root
            &&& after.git_write.jobs@.last().operation == operation
            &&& after.git_write.jobs@.last().id == after.git_write.pending@.last().id
            &&& after.message == (Message::GitRunning { title: name })
        },
{
}

/// A row that leads to a file opens it, one that leads to what is gone is refused,
/// and any other opens or closes its section.
pub proof fn law_rows_are_visited_by_what_they_are(
    app: App,
    file: Option<bool>,
    visit: Result<Visit, Error>,
)
    requires
        visit_decided(app, file, visit),
    ensures
        app.screen().git_view() is None ==> (visit matches Err(error) && error is NoGitStatus),
        app.screen().git_view() is Some && file is None ==> (visit matches Ok(how) && how
            == Visit::Toggle),
        app.screen().git_view() is Some && file == Some(true) ==> (visit matches Ok(how) && how
            == Visit::Open),
        app.screen().git_view() is Some && file == Some(false) ==> (visit matches Err(error)
            && error is GitPathGone),
{
}

/// A signature is asked for once it is due and nothing else is being asked.
pub proof fn law_signatures_are_asked_for_when_due(
    before: App,
    time: Time,
    after: App,
    request: Option<Request>,
)
    requires
        signature_request_taken(before, time, after, request),
    ensures
        request is Some <==> before.language.pending is None && (
        before.signature.due matches Some(due) && due <= time),
        request matches Some(request) ==> request.kind == RequestKind::SignatureHelp
            && request.automatic && after.signature.due is None,
        request is None ==> after == before,
{
}

/// New signatures show the one that the server chose, unless the user had turned to
/// another and the server's choice is the same as before; none closes the popup.
pub proof fn law_the_server_chooses_the_signature(
    before: App,
    count: usize,
    active: Option<usize>,
    limited: bool,
    automatic: bool,
    after: App,
)
    requires
        signatures_received(before, count, active, limited, automatic, after),
    ensures
        count == 0 ==> after.signature.active is None,
        count == 0 && !automatic ==> after.message is NoSignature,
        count > 0 ==> (after.signature.active matches Some(session) && {
            let chosen = active is Some && active->0 < count;
            &&& session.count == count
            &&& session.selected < count
            &&& session.limited == limited
            &&& before.signature.active is None ==> session.selected == if chosen {
                active->0
            } else {
                0
            }
            &&& before.signature.active matches Some(shown) ==> {
                &&& chosen && shown.server != active ==> session.selected == active->0
                &&& (!chosen || shown.server == active) && shown.selected < count
                    ==> session.selected == shown.selected
            }
        }),
        automatic ==> after.message == before.message,
{
}

/// A search that is given up goes back to where it began, and says why it could not.
pub proof fn law_given_up_searches_go_back(
    before: App,
    viewport: Viewport,
    outcome: Result<(), Error>,
    after: App,
)
    ensures
        search_given_up(before, viewport, outcome, after) && outcome is Ok ==> after.viewport
            == viewport && after.message == before.message,
        search_given_up(before, viewport, outcome, after) && outcome is Err ==> after.viewport
            == before.viewport && after.error,
        preview_ended(before, outcome, after) && outcome is Ok ==> (after.error
            && after.message is Failed || after == before),
        preview_ended(before, outcome, after) && outcome is Ok && before.editor.search_status
            == Some(SearchStatus::NoMatch) ==> (after.message matches Message::Failed { error }
            && error is NoMatches),
        preview_ended(before, outcome, after) && outcome is Ok && before.editor.search_status
            != Some(SearchStatus::NoMatch) ==> after == before,
        preview_ended(before, outcome, after) && outcome is Err ==> after.message
            == (Message::Failed { error: outcome->Err_0 }) && after.error,
{
}

/// A command line that holds something is kept in the register of command lines as
/// it was typed, without the white space around it; one that holds nothing does
/// nothing.
pub proof fn law_command_lines_are_kept(
    before: App,
    text: Seq<char>,
    after: App,
    asked: Seq<Effect>,
    asks: Seq<Effect>,
    invocation: Result<Invocation, Error>,
)
    requires
        line_executed(before, text, after, asked, asks, invocation),
        text.len() > 0,
        !white_space(text[0]),
        !white_space(text.last()),
    ensures
        asks.len() == asked.len() + 1,
        asks.last() matches Effect::SetRegister(register, kept) && register == ':' && kept@
            == text,
        !(invocation matches Ok(Invocation::Nothing)),
        after == (App { prompt_history: after.prompt_history, ..before }),
{
}

/// Histories keep a hundred texts and a quarter of a megabyte at most, and no text
/// of more than 64 kilobytes.
pub proof fn law_histories_stay_small(entries: Seq<Entry>, register: char, text: Seq<char>)
    ensures
        trimmed(entries).len() <= 100,
        crate::prompt::total_bytes(trimmed(entries)) <= 262_144,
        recordable(entries, register, text) <==> text.len() > 0 && byte_length(text) <= 65_536 && (
        of_register(entries, register).len() == 0 || of_register(entries, register).last()
            != text),
{
    crate::prompt::law_history_is_bounded(entries);
}

} // verus!
