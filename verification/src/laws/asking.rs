//! What the language server is asked, by what the keymap asked for.

use crate::app::App;
use crate::completion::{CompletionTrigger, Request};
use crate::editor::{Context, Scope, Time};
use crate::effect::Effect;
use crate::language::{Navigation, RequestKind, ServerDocument, Status};
use crate::laws::serving::is_still;
use crate::picker::Source;
use crate::server::{LanguageAction, Update};
use crate::update::update_taken;
use vstd::prelude::*;

verus! {

/// Whether the server of the active document can be asked.
pub open spec fn can_ask(app: App) -> bool {
    &&& app.language.enabled
    &&& app.language.status != Status::Unavailable
    &&& app.editor.server is Some
    &&& app.editor.file is Some
    &&& app.editor.bytes <= 8_388_608
}

/// Whether a request is the one that an action of the keymap is for, at the
/// present selection.
pub open spec fn is_for(app: App, action: LanguageAction, kind: RequestKind) -> bool {
    let primary = app.editor.selections@.ranges[app.editor.selections@.primary as int];
    let here = Context { scope: Scope::Workspace, stamp: app.editor.workspace_stamp };
    match kind {
        RequestKind::Hover => action == LanguageAction::Hover,
        RequestKind::Navigation(Navigation::Definition) => action == LanguageAction::Definition,
        RequestKind::Navigation(Navigation::TypeDefinition) => action
            == LanguageAction::TypeDefinition,
        RequestKind::Navigation(Navigation::Implementation) => action
            == LanguageAction::Implementation,
        RequestKind::Navigation(Navigation::References) => action == LanguageAction::References,
        RequestKind::DocumentHighlights => action == LanguageAction::DocumentHighlights,
        RequestKind::PrepareRename { selection, context } => action == LanguageAction::Rename
            && selection == primary && context == here,
        RequestKind::Format { range: Some(selection) } => action
            == LanguageAction::FormatSelections && selection == primary,
        RequestKind::Format { range: None } => action == LanguageAction::FormatDocument,
        RequestKind::CodeActions { selection, context } => action == LanguageAction::CodeAction
            && selection == primary && context == here,
        RequestKind::Completion(CompletionTrigger::Invoked) => action
            == LanguageAction::Completion,
        _ => false,
    }
}

/// Whether an action goes to a problem rather than asking the server.
pub open spec fn goes_to_a_problem(action: LanguageAction) -> bool {
    action == LanguageAction::NextDiagnostic || action == LanguageAction::PreviousDiagnostic
        || action == LanguageAction::FirstDiagnostic || action == LanguageAction::LastDiagnostic
}

/// The checks before an update leave the document and the services alone.
proof fn lemma_checked(app: App, now: Time)
    ensures
        app.update_checked(now).editor == app.editor,
        app.update_checked(now).windows == app.windows,
        app.update_checked(now).language.enabled == app.language.enabled,
        app.update_checked(now).language.status == app.language.status,
        app.update_checked(now).language.document == app.language.document,
        app.update_checked(now).language.diagnostics == app.language.diagnostics,
        app.update_checked(now).language.diagnostic_revision == app.language.diagnostic_revision,
{
    reveal(App::update_checked);
}

/// An action of the keymap leads to the request that it names and to no other:
/// a definition is looked for where a definition was asked for, references where
/// references were, and so on for each action. The request is made for the
/// cursor, and its answer is awaited at the present place.
pub proof fn law_actions_ask_what_they_name(
    before: App,
    action: LanguageAction,
    now: Time,
    after: App,
    told: Seq<Effect>,
    asks: Seq<Effect>,
    update: Option<Update>,
)
    requires
        before.editor.valid(),
        before.language.next_request < u64::MAX,
        !goes_to_a_problem(action),
        update_taken(before, Some(action), now, after, told, asks, update),
    ensures
        can_ask(before) ==> update is Some && update->0.request is Some,
        update matches Some(update) ==> update.request matches Some(request) ==> {
            &&& is_for(before, action, request.kind)
            &&& request.position == before.editor.cursor
            &&& after.language.pending matches Some(pending) && {
                &&& pending.id == request.id
                &&& pending.document == before.editor.document
                &&& pending.revision == before.editor.revision
                &&& pending.selections == before.editor.selections
            }
            &&& update.document matches Some(document) && {
                &&& document.snapshot.document == before.editor.document
                &&& document.snapshot.revision == before.editor.revision
                &&& before.editor.file == Some(document.file)
                &&& before.editor.language == Some(document.language)
            }
        },
{
    reveal(App::identity_settled);
    reveal(App::selected_request);
    reveal(App::request_made);
    lemma_checked(before, now);
    let checked = before.update_checked(now);
    if checked.language.enabled {
        let ready = checked.diagnostics_refreshed().pending_checked();
        let settled = ready.identity_settled();
        let document = settled.next_document();
        let (chosen, request) = settled.selected_request(Some(action), now);
        assert(settled.editor == before.editor);
        assert(chosen.editor == before.editor);
        assert(request is Some);
        assert(!request->0.automatic);
        assert(chosen.language.status == settled.language.status);
    }
}

/// Different actions are never answered by the same request: who asks for
/// references is not taken to a definition.
pub proof fn law_different_actions_ask_differently(
    before: App,
    first: LanguageAction,
    second: LanguageAction,
    kind: RequestKind,
)
    requires
        is_for(before, first, kind),
        is_for(before, second, kind),
    ensures
        first == second,
{
}

/// Without language services nothing is asked, and an action of the keymap is
/// reported as failed.
pub proof fn law_nothing_is_asked_without_services(
    before: App,
    action: Option<LanguageAction>,
    now: Time,
    after: App,
    told: Seq<Effect>,
    asks: Seq<Effect>,
    update: Option<Update>,
)
    requires
        !before.language.enabled,
        update_taken(before, action, now, after, told, asks, update),
    ensures
        update is None,
        action is Some ==> after.error,
{
    lemma_checked(before, now);
}

/// Going to the next problem selects the first one behind the cursor, with the
/// head at its end; going back selects the last one before the cursor, with the
/// head at its start. The first and the last problem are found from anywhere.
/// Where there is none, the cursor stays.
pub proof fn law_problems_are_visited_in_order(
    before: App,
    action: LanguageAction,
    now: Time,
    after: App,
    told: Seq<Effect>,
    asks: Seq<Effect>,
    update: Option<Update>,
    list: Seq<crate::language::Diagnostic>,
)
    requires
        goes_to_a_problem(action),
        before.language.enabled,
        before.language.document matches Some(document) && before.editor.server is Some
            && before.editor.file == Some(document.file) && document.snapshot.document
            == before.editor.document && before.editor.language == Some(document.language),
        before.language.diagnostic_revision == Some(
            (before.editor.document, before.editor.revision),
        ),
        before.language.diagnostics matches Some(known) && known@ == list,
        crate::diagnostics::ordered(list),
        update_taken(before, Some(action), now, after, told, asks, update),
    ensures
        ({
            let cursor = before.editor.cursor;
            let last = asks.last();
            let goes = asks.len() > 0 && last is VisitDiagnostic;
            &&& action == LanguageAction::NextDiagnostic ==> forall|i: int|
                0 <= i < list.len() && (#[trigger] list[i]).start > cursor ==> goes && cursor
                    < last->selection.anchor <= list[i].start
            &&& action == LanguageAction::PreviousDiagnostic ==> forall|i: int|
                0 <= i < list.len() && (#[trigger] list[i]).start < cursor ==> goes
                    && list[i].start <= last->selection.head < cursor
            &&& action == LanguageAction::FirstDiagnostic ==> forall|i: int|
                0 <= i < list.len() ==> goes && last->selection.anchor <= (#[trigger] list[i]).start
            &&& action == LanguageAction::LastDiagnostic ==> forall|i: int|
                0 <= i < list.len() ==> goes && last->selection.anchor >= (#[trigger] list[i]).start
        }),
{
    reveal(App::identity_settled);
    reveal(App::selected_request);
    reveal(App::waiting_request);
    lemma_checked(before, now);
    let checked = before.update_checked(now);
    let ready = checked.diagnostics_refreshed().pending_checked();
    let settled = ready.identity_settled();
    let document = settled.next_document();
    let (chosen, request) = settled.selected_request(Some(action), now);
    assert(chosen.editor == before.editor);
    assert(chosen.language.diagnostics == before.language.diagnostics);
    let cursor = before.editor.cursor;
    let visit = action.visit()->0;
    let effects = chosen.visit_effects(visit);
    crate::find::lemma_first_where(list, |d: crate::language::Diagnostic| d.start > cursor);
    crate::find::lemma_first_where(list, |d: crate::language::Diagnostic| d.start >= cursor);
    let next = |d: crate::language::Diagnostic| d.start > cursor;
    let back = |d: crate::language::Diagnostic| d.start >= cursor;
    assert forall|i: int| 0 <= i < list.len() implies {
        let cursor = before.editor.cursor;
        let last = asks.last();
        let goes = asks.len() > 0 && last is VisitDiagnostic;
        &&& action == LanguageAction::NextDiagnostic && (#[trigger] list[i]).start > cursor ==> goes
            && cursor < last->selection.anchor <= list[i].start
        &&& action == LanguageAction::PreviousDiagnostic && list[i].start < cursor ==> goes
            && list[i].start <= last->selection.head < cursor
        &&& action == LanguageAction::FirstDiagnostic ==> goes && last->selection.anchor
            <= list[i].start
        &&& action == LanguageAction::LastDiagnostic ==> goes && last->selection.anchor
            >= list[i].start
    } by {
        let found = crate::diagnostics::visited(list, cursor, visit);
        if action == LanguageAction::NextDiagnostic && list[i].start > cursor {
            let at = crate::find::first_where(list, next);
            if at > i {
                assert(!next(list[i]));
            }
            assert(next(list[at]));
            if at < i {
                assert(!crate::diagnostics::precedes(
                    crate::diagnostics::order(list[i]),
                    crate::diagnostics::order(list[at]),
                ));
            }
            assert(asks.last() == effects[0]);
        }
        if action == LanguageAction::PreviousDiagnostic && list[i].start < cursor {
            let at = crate::find::first_where(list, back);
            if at <= i {
                assert(at < list.len());
                assert(back(list[at]));
                if at < i {
                    assert(!crate::diagnostics::precedes(
                        crate::diagnostics::order(list[i]),
                        crate::diagnostics::order(list[at]),
                    ));
                }
            }
            assert(at >= 1);
            assert(!back(list[at - 1]));
            if i < at - 1 {
                assert(!crate::diagnostics::precedes(
                    crate::diagnostics::order(list[at - 1]),
                    crate::diagnostics::order(list[i]),
                ));
            }
            assert(asks.last() == effects[0]);
        }
        if action == LanguageAction::FirstDiagnostic {
            if i > 0 {
                assert(!crate::diagnostics::precedes(
                    crate::diagnostics::order(list[i]),
                    crate::diagnostics::order(list[0]),
                ));
            }
            assert(asks.last() == effects[0]);
        }
        if action == LanguageAction::LastDiagnostic {
            let end = list.len() - 1;
            if i < end {
                assert(!crate::diagnostics::precedes(
                    crate::diagnostics::order(list[end]),
                    crate::diagnostics::order(list[i]),
                ));
            }
            assert(asks.last() == effects[0]);
        }
    }
}

/// What waits to be asked is asked in turn: a server command first, then a code
/// action, a new name, symbols and completions. Each is asked as it was prepared.
pub proof fn law_what_waits_is_asked_in_turn(app: App, time: Time)
    requires
        app.actions.menu is None,
    ensures
        ({
            let (after, request) = app.waiting_request(time);
            let (place, run) = app.language.command->0;
            let command = app.language.command is Some && is_still(app, place);
            let action = app.actions.request is Some;
            let rename = app.rename.request is Some && (app.rename.context matches Some(place)
                && is_still(app, place));
            let symbols = match app.picker.active {
                Some(active) => match active.source {
                    Source::Symbols(source) => source.due is Some && source.due->0 <= time,
                    _ => false,
                },
                None => false,
            };
            &&& command ==> (request matches Some(request) && request.kind
                == (RequestKind::ExecuteCommand {
                command: run,
                context: place,
            }) && !request.automatic)
            &&& !command && action && !rename && !symbols && app.completion.outgoing is None ==> (
            request is Some ==> request->0.kind == app.actions.request->0)
            &&& !command && !action && rename ==> (request matches Some(request) && request.kind
                == app.rename.request->0 && !request.automatic)
            &&& !command && !action && app.rename.request is None && symbols ==> (
            request matches Some(request) && match request.kind {
                RequestKind::WorkspaceSymbols(query) => {
                    &&& app.picker.active->0.source->Symbols_0.workspace
                    &&& query == app.picker.active->0.view.query
                },
                RequestKind::DocumentSymbols => {
                    !app.picker.active->0.source->Symbols_0.workspace
                },
                _ => false,
            })
            &&& !command && !action && app.rename.request is None && !symbols ==> request
                == app.completion.outgoing && after.completion.outgoing is None
            &&& app.language.command is Some && !command ==> after.error || request is Some
            &&& after.language.command is None
        }),
{
    reveal(App::waiting_request);
}

/// The server is told of the present text of a file whose language has a server,
/// and of nothing else.
pub proof fn law_the_server_is_told_the_present_text(app: App)
    ensures
        match app.next_document() {
            None => app.editor.server is None || app.editor.file is None,
            Some(document) => {
                &&& app.editor.server is Some
                &&& app.editor.file == Some(document.file)
                &&& document.snapshot.document == app.editor.document
                &&& document.snapshot.revision == app.editor.revision
                &&& document.epoch == app.language.epoch
                &&& document.saved == app.language.saved
                &&& document.saved_snapshot matches Some(saved) ==> saved.document
                    == app.editor.document
            },
        },
{
}

/// The server hears of a document whenever that has changed or was saved since it
/// last heard of it.
pub proof fn law_the_server_hears_of_changes(app: App, changed: bool)
    requires
        app.language.document is Some,
    ensures
        app.update_due(changed) <==> {
            ||| changed
            ||| app.language.force
            ||| app.language.document->0.snapshot.revision != app.editor.revision
            ||| app.language.document->0.saved != app.language.saved
        },
        app.identity_changes() <==> {
            ||| app.editor.server is None
            ||| app.editor.file != Some(app.language.document->0.file)
            ||| app.editor.document != app.language.document->0.snapshot.document
            ||| app.editor.language != Some(app.language.document->0.language)
        },
{
}

/// Another document starts over: nothing that was asked or found for the one
/// before is left, and the server is starting where there is one.
pub proof fn law_another_document_starts_over(app: App)
    requires
        app.language.epoch < u64::MAX,
    ensures
        ({
            let after = app.identity_settled();
            &&& !app.identity_changes() ==> after == app
            &&& app.identity_changes() ==> {
                &&& after.language.epoch == app.language.epoch + 1
                &&& after.language.pending is None
                &&& after.language.diagnostics is None
                &&& after.language.popup is None
                &&& after.completion.active is None
                &&& after.language.status == Status::Starting <==> app.editor.server is Some
                    && app.editor.file is Some
                &&& after.language.status == Status::Absent <==> app.editor.server is None
                    || app.editor.file is None
            }
            &&& after.editor == app.editor
        }),
{
    reveal(App::identity_settled);
}

/// A request is refused without a server, with one that is not available and for a
/// document that is too large, and is otherwise made under a new number, for the
/// cursor; keys wait for it where it edits or moves.
pub proof fn law_requests_are_made_or_refused(
    app: App,
    request: Request,
    document: Option<ServerDocument>,
)
    requires
        app.language.next_request < u64::MAX,
    ensures
        ({
            let sent = app.sent_request(Some(request), document);
            let why = app.refusal(document);
            &&& document is None ==> (why matches Some(error) && error is ServerRequired)
            &&& document is Some && app.language.status == Status::Unavailable ==> (
            why matches Some(error) && error is ServerUnavailable)
            &&& document is Some && app.language.status != Status::Unavailable && app.editor.bytes
                > 8_388_608 ==> (why matches Some(error) && error is DocumentTooLarge)
            &&& document is Some && app.language.status != Status::Unavailable && app.editor.bytes
                <= 8_388_608 ==> why is None
            &&& sent matches Some(sent) ==> {
                &&& why is None
                &&& sent.kind == request.kind
                &&& sent.position == app.editor.cursor
                &&& sent.id == app.language.next_request + 1
            }
            &&& why is None && !request.automatic ==> sent is Some
        }),
{
}

} // verus!
