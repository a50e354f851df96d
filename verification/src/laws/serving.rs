//! The language services by what stands in the text.

use crate::app::{App, PromptKind};
use crate::diagnostics::{problems, touches};
use crate::editor::{Context, Scope};
use crate::effect::Effect;
use crate::error::Error;
use crate::find::lemma_is_first;
use crate::formatting::formatting_received;
use crate::language::{Diagnostic, RequestKind};
use crate::message::Message;
use crate::names::{delimits, name_end, name_range, name_start};
use crate::rename::rename_submitted;
use crate::selection::Selection;
use crate::server::command_asked;
use crate::text::byte_length;
use vstd::prelude::*;

verus! {

/// The mark beside a line is that of its most serious problem, where it has any.
pub proof fn law_marks_show_the_worst_problem(list: Seq<Diagnostic>, line: usize)
    ensures
        match App::line_severity(list, line) {
            None => forall|i: int| 0 <= i < list.len() ==> (#[trigger] list[i]).line != line,
            Some(severity) => {
                &&& exists|i: int|
                    0 <= i < list.len() && (#[trigger] list[i]).line == line && list[i].severity
                        == severity
                &&& forall|i: int|
                    0 <= i < list.len() && (#[trigger] list[i]).line == line ==> severity
                        <= list[i].severity
            },
        },
    decreases list.len(),
{
    if list.len() > 0 {
        let rest = list.drop_last();
        law_marks_show_the_worst_problem(rest, line);
        assert forall|i: int| 0 <= i < rest.len() implies rest[i] == #[trigger] list[i] by {}
        let last = list.len() - 1;
        match App::line_severity(rest, line) {
            Some(severity) => {
                let i = choose|i: int|
                    0 <= i < rest.len() && (#[trigger] rest[i]).line == line && rest[i].severity
                        == severity;
                assert(list[i].line == line && list[i].severity == severity);
            },
            None => {},
        }
        if list.last().line == line {
            assert(list[last].line == line && list[last].severity == list.last().severity);
        }
        assert forall|i: int| 0 <= i < list.len() && (#[trigger] list[i]).line == line implies {
            ||| i == last
            ||| rest[i].line == line
        } by {
            if i < last {
                assert(rest[i] == list[i]);
            }
        }
    }
}

/// The command line shows the first problem that begins at the cursor or spans it,
/// and nothing where there is none.
pub proof fn law_the_problem_at_the_cursor_is_shown(app: App, at: int)
    requires
        0 <= at <= problems(app.language).len(),
        forall|i: int|
            0 <= i < at ==> {
                let d = #[trigger] problems(app.language)[i];
                d.start > app.editor.cursor || d.start < app.editor.cursor && d.end
                    <= app.editor.cursor
            },
        at < problems(app.language).len() ==> {
            let d = problems(app.language)[at];
            d.start == app.editor.cursor || d.start < app.editor.cursor < d.end
        },
    ensures
        at < problems(app.language).len() ==> app.problem_text() == problems(
            app.language,
        )[at].message@,
        at == problems(app.language).len() ==> app.problem_text() == Seq::<char>::empty(),
{
    lemma_is_first(problems(app.language), touches(app.editor.cursor), at);
}

/// Problems are dropped once the document has another text than they were found
/// in, and kept while it has the same.
pub proof fn law_problems_belong_to_their_text(app: App)
    ensures
        ({
            let after = app.diagnostics_refreshed();
            let own = app.language.diagnostic_revision == Some(
                (app.editor.document, app.editor.revision),
            );
            &&& own ==> after == app
            &&& !own ==> after.language.diagnostics is None && problems(after.language).len() == 0
            &&& after.editor == app.editor
        }),
{
}

/// Keys wait for answers that move the cursor or edit the text, and for no others.
pub proof fn law_keys_wait_for_what_edits_or_moves(kind: RequestKind)
    ensures
        kind is Hover || kind is SignatureHelp || kind is Completion || kind is ResolveCompletion
            || kind is DocumentSymbols || kind is WorkspaceSymbols ==> !kind.waits(),
        kind is Rename || kind is PrepareRename || kind is Format || kind is CodeActions || kind
            is ApplyCodeAction || kind is ExecuteCommand || kind is Navigation || kind
            is DocumentHighlights ==> kind.waits(),
{
}

/// Whether a place is as it was: nothing that it stands for has changed.
pub open spec fn is_still(app: App, context: Context) -> bool {
    match context.scope {
        Scope::Document => context.stamp == app.editor.document_stamp,
        Scope::Workspace => context.stamp == app.editor.workspace_stamp,
    }
}

/// A new name is asked for at the place it was typed for; without a name nothing
/// is, and a place that has changed and a name that cannot be one are errors.
pub proof fn law_new_names_are_asked_for(before: App, context: Context, name: String, after: App)
    requires
        rename_submitted(before, context, name, after),
    ensures
        name@.len() == 0 ==> after.rename == before.rename && after.message is Empty
            && !after.error,
        name@.len() > 0 && !is_still(before, context) ==> after.rename == before.rename
            && after.error && (after.message matches Message::Failed { error }
            && error is RenameOriginChanged),
        name@.len() > 0 && is_still(before, context) && can_be_a_name(name@)
            ==> after.rename.request == Some(RequestKind::Rename { name, context })
            && after.rename.context == Some(context) && after.message == before.message,
        name@.len() > 0 && is_still(before, context) && !can_be_a_name(name@) ==> after.rename
            == before.rename && after.error && (after.message matches Message::Failed { error }
            && error is RenameName),
        after.editor == before.editor,
{
}

/// Whether a text stands on one line and takes up no more than 4096 bytes.
pub open spec fn can_be_a_name(text: Seq<char>) -> bool {
    &&& byte_length(text) <= 4096
    &&& forall|i: int|
        0 <= i < text.len() ==> ' ' <= (#[trigger] text[i]) && !('\u{7f}' <= text[i] <= '\u{9f}')
}

/// The prompt for a new name begins with the old one, where the place is as it
/// was; it is never opened otherwise.
pub proof fn law_renaming_begins_with_the_old_name(app: App, name: String)
    ensures
        ({
            let after = app.rename_prompted(name);
            let wanted = app.rename.context matches Some(context) && is_still(app, context);
            &&& wanted ==> (after.prompt matches Some(prompt) && prompt.input.text == name
                && prompt.kind == PromptKind::Rename { context: app.rename.context->0 })
                && after.message is Empty
            &&& !wanted ==> after.prompt == app.prompt && after.message == app.message
            &&& after.rename.context is None
            &&& after.editor == app.editor
        }),
{
}

/// Formatting is applied at the place it was asked for, once, where that is as it
/// was and there is something to apply.
pub proof fn law_formatting_is_applied_in_place(
    before: App,
    unchanged: bool,
    after: App,
    context: Option<Context>,
)
    requires
        formatting_received(before, unchanged, after, context),
    ensures
        context matches Some(place) ==> before.formatting.context == Some(place) && is_still(
            before,
            place,
        ) && !unchanged,
        before.formatting.context matches Some(place) && is_still(before, place) && !unchanged
            ==> context == before.formatting.context,
        before.formatting.context matches Some(place) && !is_still(before, place) ==> after.error
            && (after.message matches Message::Failed { error } && error
            is FormattingOriginChanged),
        before.formatting.context matches Some(place) && is_still(before, place) && unchanged
            ==> after.message is NoFormatting,
        after.formatting.context is None,
{
}

/// A server command is run at once where nothing is waited for and the services
/// are on, and is refused otherwise.
pub proof fn law_server_commands_run_alone(
    before: App,
    command: u64,
    outside: bool,
    after: App,
    asked: Seq<Effect>,
    asks: Seq<Effect>,
    result: Result<(), Error>,
)
    requires
        command_asked(before, command, outside, after, asked, asks, result),
    ensures
        outside || before.editor.search_waiting || before.navigation.pending is Some
            || before.editor.repeat_pending ==> (result matches Err(error) && error
            is OperationPending),
        !before.language.enabled ==> result is Err,
        result is Err ==> after == before && asks == asked,
        result is Ok ==> (after.language.command matches Some((context, run)) && run == command
            && context.scope == Scope::Workspace && context.stamp
            == before.editor.workspace_stamp) && after.picker.active is None
            && after.completion.active is None && after.language.popup is None,
{
}

/// A cursor stands for the name around it: no character of it but the one under
/// the cursor ends a name, and it goes on until one does, as long as it is not too
/// long. A selection of several characters stands for itself.
pub proof fn law_names_are_whole(text: Seq<char>, selection: Selection, i: int)
    requires
        selection.anchor <= text.len(),
        selection.head <= text.len(),
    ensures
        ({
            let start = if selection.anchor < selection.head {
                selection.anchor as int
            } else {
                selection.head as int
            };
            let end = if selection.anchor < selection.head {
                selection.head as int
            } else {
                selection.anchor as int
            };
            let (from, to) = name_range(text, selection);
            &&& 0 <= from <= start && end <= to <= text.len()
            &&& end - start > 1 ==> from == start && to == end
            &&& from <= i < start || end <= i < to ==> !delimits(text[i])
            &&& end - start <= 1 && to - from <= 4096 ==> {
                &&& from > 0 ==> delimits(text[from - 1])
                &&& to < text.len() ==> delimits(text[to])
            }
        }),
{
    let start = selection.spec_start() as int;
    let end = selection.spec_end() as int;
    lemma_name_start(text, start, end, i);
    let from = name_start(text, start, end);
    lemma_name_end(text, from, end, i);
}

proof fn lemma_name_start(text: Seq<char>, start: int, end: int, i: int)
    requires
        0 <= start <= end <= text.len(),
    ensures
        ({
            let from = name_start(text, start, end);
            &&& 0 <= from <= start
            &&& from <= i < start ==> !delimits(text[i])
            &&& from > 0 && end - from <= 4096 ==> delimits(text[from - 1])
        }),
    decreases start,
{
    if start > 0 && !delimits(text[start - 1]) && end - start <= 4096 {
        lemma_name_start(text, start - 1, end, i);
    }
}

proof fn lemma_name_end(text: Seq<char>, start: int, end: int, i: int)
    requires
        0 <= start <= end <= text.len(),
    ensures
        ({
            let to = name_end(text, start, end);
            &&& end <= to <= text.len()
            &&& end <= i < to ==> !delimits(text[i])
            &&& to < text.len() && to - start <= 4096 ==> delimits(text[to])
        }),
    decreases text.len() - end,
{
    if end < text.len() && !delimits(text[end]) && end - start <= 4096 {
        lemma_name_end(text, start, end + 1, i);
    }
}

} // verus!
