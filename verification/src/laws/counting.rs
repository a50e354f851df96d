//! What status lines and titles count and in which order they show it.

use crate::app::App;
use crate::chrome::{run_together, Progress};
use crate::completion::CompletionItem;
use crate::diagnostics::{of_severity, problems};
use crate::find::count_where;
use crate::hints::hint_row;
use crate::language::{Diagnostic, Status};
use crate::laws::drawing::holds_at;
use crate::laws::telling::tells_number;
use crate::laws::writing::law_written_numbers_read_back;
use crate::menu::documentation_text;
use crate::signature::Session;
use crate::text::{decimal, digits_value, texts};
use vstd::prelude::*;

verus! {

/// Whether these are the places of all problems of a severity, each once.
pub open spec fn are_places(list: Seq<Diagnostic>, severity: u8, places: Seq<int>) -> bool {
    &&& forall|i: int|
        0 <= i < places.len() ==> 0 <= #[trigger] places[i] < list.len()
            && list[places[i]].severity == severity
    &&& forall|i: int, j: int| 0 <= i < j < places.len() ==> places[i] < places[j]
    &&& forall|k: int|
        0 <= k < list.len() && (#[trigger] list[k]).severity == severity ==> places.contains(k)
}

proof fn lemma_counted(list: Seq<Diagnostic>, severity: u8) -> (places: Seq<int>)
    ensures
        are_places(list, severity, places),
        places.len() == count_where(list, of_severity(severity)),
    decreases list.len(),
{
    if list.len() == 0 {
        Seq::empty()
    } else {
        let rest = list.drop_last();
        let some = lemma_counted(rest, severity);
        let last = list.len() - 1;
        assert forall|i: int| 0 <= i < some.len() implies 0 <= #[trigger] some[i] < last
            && list[some[i]].severity == severity by {
            assert(rest[some[i]] == list[some[i]]);
        }
        let places = if list.last().severity == severity { some.push(last) } else { some };
        assert forall|k: int| 0 <= k < list.len() && (#[trigger] list[k]).severity
            == severity implies places.contains(k) by {
            if k < last {
                assert(rest[k].severity == severity);
                let i = choose|i: int| 0 <= i < some.len() && some[i] == k;
                assert(places[i] == k);
            } else {
                assert(places[places.len() - 1] == k);
            }
        }
        assert forall|i: int| 0 <= i < places.len() implies 0 <= #[trigger] places[i] < list.len()
            && list[places[i]].severity == severity by {
            if i < some.len() {
                assert(places[i] == some[i]);
            }
        }
        assert forall|i: int, j: int| 0 <= i < j < places.len() implies places[i] < places[j] by {
            assert(places[i] == some[i]);
            if j < some.len() {
                assert(places[j] == some[j]);
            }
        }
        places
    }
}

/// The status line counts the errors, which are of the first severity, and then the
/// warnings, which are of the second, behind the server and how it is doing.
pub proof fn law_errors_and_warnings_are_counted(app: App)
    requires
        app.language.status != Status::Absent,
    ensures
        exists|errors: Seq<int>, warnings: Seq<int>|
            #![trigger are_places(problems(app.language), 1, errors), are_places(
                problems(app.language),
                2,
                warnings,
            )]
            are_places(problems(app.language), 1, errors) && are_places(
                problems(app.language),
                2,
                warnings,
            ) && app.status_text() == " "@ + (if app.editor.server is Some {
                app.editor.server->0.label@
            } else {
                "LSP"@
            }) + ":"@ + (match app.language.status {
                Status::Ready => "ready"@,
                Status::Starting => "starting"@,
                _ => "unavailable"@,
            }) + " "@ + decimal(errors.len()) + "E "@ + decimal(warnings.len()) + "W"@,
{
    let list = problems(app.language);
    let errors = lemma_counted(list, 1);
    let warnings = lemma_counted(list, 2);
    assert(are_places(list, 1, errors) && are_places(list, 2, warnings));
}

/// What is under way is shown in the order it was typed: the count, then the keys,
/// then how far a search has come.
pub proof fn law_keys_are_shown_behind_their_count(app: App, progress: Progress)
    ensures
        ({
            let count = if progress.count is Some {
                decimal(progress.count->0 as nat)
            } else {
                Seq::empty()
            };
            let typed = count + run_together(texts(progress.keys@));
            let shown = app.pending_text(progress);
            &&& typed.len() <= shown.len()
            &&& shown.take(typed.len() as int) == typed
            &&& progress.search matches Some(search) ==> holds_at(
                shown,
                search@,
                typed.len() as int + 1,
            )
        }),
{
    let count = if progress.count is Some {
        decimal(progress.count->0 as nat)
    } else {
        Seq::empty()
    };
    let typed = count + run_together(texts(progress.keys@));
    let shown = app.pending_text(progress);
    assert(shown.take(typed.len() as int) =~= typed);
    reveal_strlit(" ");
    if let Some(search) = progress.search {
        assert(" "@.len() == 1);
        let from = typed.len() as int + 1;
        assert(shown.subrange(from, from + search@.len()) =~= search@);
    }
}

/// The title over a signature counts from one, and says of how many it is.
pub proof fn law_signatures_are_counted_from_one(session: Session)
    requires
        session.selected < session.count,
    ensures
        tells_number(
            session.title(),
            " Signature "@,
            (session.selected + 1) as nat,
            "/"@ + decimal(session.count as nat) + (if session.limited {
                " · limited"@
            } else {
                Seq::empty()
            }) + " "@,
        ),
{
    law_written_numbers_read_back((session.selected + 1) as nat);
    let digits = decimal((session.selected + 1) as nat);
    assert(digits_value(digits) == Some((session.selected + 1) as nat));
    assert(session.title() =~= " Signature "@ + digits + ("/"@ + decimal(session.count as nat) + (
    if session.limited {
        " · limited"@
    } else {
        Seq::empty()
    }) + " "@));
}

/// Documentation beside a suggestion begins with its detail and ends with what is
/// documented, where that has come.
pub proof fn law_details_come_first(item: CompletionItem)
    ensures
        ({
            let text = documentation_text(item);
            &&& item.detail@.len() <= text.len()
            &&& text.take(item.detail@.len() as int) == item.detail@
            &&& item.documentation@.len() > 0 ==> item.documentation@.len() <= text.len()
                && text.skip(text.len() - item.documentation@.len()) == item.documentation@
            &&& item.documentation@.len() == 0 && item.resolved && item.detail@.len() == 0
                ==> text.len() == 0
        }),
{
    let text = documentation_text(item);
    assert(text.take(item.detail@.len() as int) =~= item.detail@);
    if item.documentation@.len() > 0 {
        assert(text.skip(text.len() - item.documentation@.len()) =~= item.documentation@);
    }
}

/// A hint shows its keys first.
pub proof fn law_hints_begin_with_their_keys(hint: (Seq<char>, Seq<char>))
    ensures
        hint.0.len() <= hint_row(hint).len(),
        hint_row(hint).take(hint.0.len() as int) == hint.0,
{
    assert(hint_row(hint).take(hint.0.len() as int) =~= hint.0);
}

} // verus!
