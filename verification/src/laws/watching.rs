//! Files and repositories that are looked at in the background.

use crate::app::App;
use crate::editor::Time;
use crate::effect::{Effect, Job};
use crate::error::Error;
use crate::find::{lemma_first_where, lemma_is_first};
use crate::git::{
    buffer_versions, git_batch_taken, git_results_taken, kept_results, merged, version_of, versions,
    DocumentDiff, Track, Version,
};
use crate::layout::WindowId;
use crate::message::Message;
use crate::reload::{files_polled, observed, reported, Observed, Outcome, Report};
use crate::roots::{below, shown};
use crate::status::{
    find_twin, lemma_find_twin, lemma_find_view, read_one, readings_taken, status_batch_taken,
    status_closed, status_opened, unsaved_below, Reading, RepoView,
};
use crate::windows::{find_pane, Buffer, Pane, Root, Screen};
use vstd::prelude::*;

verus! {

/// A file with another text replaces a document that was not edited; an edited
/// one, a file that is gone and one that cannot be read are warned of, by name. A
/// file as it should be settles the matter, and one being written is left alone.
pub proof fn law_looks_are_answered_by_what_they_found(
    outcome: Outcome,
    dirty: bool,
    path: String,
)
    ensures
        ({
            let step = observed(outcome, dirty, path);
            &&& step is Apply <==> outcome is Reload && !dirty
            &&& step is Settle <==> outcome is Unchanged
            &&& step is Skip <==> outcome is Retry
            &&& outcome is Conflict || outcome is Reload && dirty ==> step == Observed::Warn(
                Message::DiskChanged { path },
            )
            &&& outcome is Missing ==> step == Observed::Warn(Message::DiskRemoved { path })
            &&& outcome matches Outcome::Error(why) ==> step == Observed::Warn(
                Message::ReloadFailed { reason: why, path },
            )
        }),
{
}

/// What a look at a file leads to is shown; a file that was read again does not
/// hide a warning of the same batch.
pub proof fn law_reports_are_shown(app: App, redraw: bool, report: Report)
    ensures
        ({
            let (after, shown) = reported(app, redraw, report);
            &&& report is Nothing ==> after == app && shown == redraw
            &&& !(report is Nothing) ==> shown
            &&& report matches Report::Warned(message) ==> after.message == message && after.error
            &&& report matches Report::Failed(error) ==> after.message == (Message::Failed {
                error,
            }) && after.error
            &&& report matches Report::Reloaded(path) ==> if redraw && app.error {
                after == app
            } else {
                after.message == (Message::Reloaded { path }) && !after.error
            }
            &&& after == (App { message: after.message, error: after.error, ..app })
        }),
{
}

/// Files are looked at once that is due, and not again before the batch ended;
/// where there is nothing to look at, the next look is two seconds later.
pub proof fn law_files_are_looked_at_in_turn(
    before: App,
    time: Time,
    after: App,
    batch: Option<crate::reload::Batch>,
)
    requires
        files_polled(before, time, after, batch),
        time + 2_000_000_000 <= u64::MAX,
        before.reload.request < u64::MAX,
    ensures
        ({
            let due = before.reload.due matches Some(due) && due <= time;
            &&& !due ==> batch is None && after == before
            &&& batch matches Some(batch) ==> {
                &&& due
                &&& batch.request == before.reload.request + 1
                &&& after.reload.request == batch.request
                &&& after.reload.due is None
                &&& batch.probes@.len() > 0
            }
            &&& due && batch is None ==> after.reload.due == Some((time + 2_000_000_000) as u64)
                && after.reload.request == before.reload.request
            &&& after == (App { reload: after.reload, ..before })
        }),
{
}

/// A look is one at the file of the document that a window shows, as it is now;
/// where a repository stands in front of it there is none.
pub proof fn law_looks_are_at_what_is_shown(screen: Screen, id: WindowId, at: int)
    requires
        0 <= at < screen.panes.len(),
        screen.panes[at].id == id,
        forall|i: int| 0 <= i < at ==> (#[trigger] screen.panes[i]).id != id,
        screen.panes[at].document == screen.app.editor.document,
    ensures
        ({
            let probe = screen.probe(id);
            &&& probe is Some <==> screen.panes[at].git is None && screen.app.editor.file is Some
            &&& probe matches Some(probe) ==> probe.document == screen.app.editor.document
                && probe.revision == screen.app.editor.revision && Some(probe.file)
                == screen.app.editor.file
        }),
{
    let test = |pane: Pane| pane.id == id;
    assert forall|i: int| 0 <= i < at implies !test(#[trigger] screen.panes[i]) by {}
    lemma_is_first(screen.panes, test, at);
    assert(find_pane(screen.panes, id) == at);
}

/// Every open document with a file is compared in its present version, and no
/// other is.
pub proof fn law_open_files_are_compared(screen: Screen, version: Version)
    ensures
        versions(screen).contains(version) <==> is_version(screen.app.editor, version) || exists|
            i: int|
            0 <= i < screen.buffers.len() && is_version(
                (#[trigger] screen.buffers[i]).editor,
                version,
            ),
{
    lemma_buffer_versions(screen.buffers, version);
    let own = version_of(screen.app.editor);
    let others = buffer_versions(screen.buffers);
    lemma_joined(own, others, version);
    if is_version(screen.app.editor, version) {
        assert(own[0] == version);
    }
}

/// Whether this is the present version of a document.
pub open spec fn is_version(editor: crate::editor::Editor, version: Version) -> bool {
    &&& editor.document == version.document
    &&& editor.revision == version.revision
    &&& editor.file == Some(version.file)
}

proof fn lemma_joined(a: Seq<Version>, b: Seq<Version>, version: Version)
    ensures
        (a + b).contains(version) <==> a.contains(version) || b.contains(version),
{
    if a.contains(version) {
        let i = choose|i: int| 0 <= i < a.len() && a[i] == version;
        assert((a + b)[i] == version);
    }
    if b.contains(version) {
        let i = choose|i: int| 0 <= i < b.len() && b[i] == version;
        assert((a + b)[a.len() + i] == version);
    }
}

proof fn lemma_buffer_versions(buffers: Seq<Buffer>, version: Version)
    ensures
        buffer_versions(buffers).contains(version) <==> exists|i: int|
            0 <= i < buffers.len() && is_version((#[trigger] buffers[i]).editor, version),
    decreases buffers.len(),
{
    if buffers.len() > 0 {
        let rest = buffers.drop_last();
        lemma_buffer_versions(rest, version);
        let own = version_of(buffers.last().editor);
        lemma_joined(buffer_versions(rest), own, version);
        if is_version(buffers.last().editor, version) {
            assert(own[0] == version);
        }
        if buffer_versions(rest).contains(version) {
            let i = choose|i: int|
                0 <= i < rest.len() && is_version((#[trigger] rest[i]).editor, version);
            assert(is_version(buffers[i].editor, version));
        }
        if exists|i: int|
            0 <= i < buffers.len() && is_version((#[trigger] buffers[i]).editor, version) {
            let i = choose|i: int|
                0 <= i < buffers.len() && is_version((#[trigger] buffers[i]).editor, version);
            if i < rest.len() {
                assert(is_version(rest[i].editor, version));
            }
        }
    }
}

/// An edit is compared 150 milliseconds after the last of several, and no later
/// than half a second after the first; a document that was opened or renamed is
/// compared at once. Until then what runs already is given up.
pub proof fn law_edits_wait_for_a_pause(track: Track, open: Seq<Version>, time: Time, edited: int)
    requires
        0 <= edited < open.len(),
        !track.seen.contains(open[edited]),
        open.len() == track.seen.len(),
        time + 500_000_000 <= u64::MAX,
        track.first_edit matches Some(first) ==> first <= time,
    ensures
        ({
            let after = track.noticed(open, time);
            let first = match track.first_edit {
                Some(first) => first,
                None => time,
            };
            let renamed = exists|i: int|
                0 <= i < open.len() && forall|j: int|
                    0 <= j < track.seen.len() ==> (#[trigger] track.seen[j]).document != (
                    #[trigger] open[i]).document || track.seen[j].file != open[i].file;
            &&& after.cancelled
            &&& after.seen == open
            &&& after.due matches Some(due) && {
                &&& renamed ==> due == time
                &&& !renamed ==> due <= time + 150_000_000 && due <= first + 500_000_000
                &&& !renamed ==> due == time + 150_000_000 || due == first + 500_000_000
            }
            &&& after.first_edit == Some(first)
        }),
{
    assert(crate::git::versions_changed(open, track.seen));
    if crate::git::identity_changed(open, track.seen) {
        let i = choose|i: int|
            0 <= i < open.len() && !crate::git::knows(track.seen, #[trigger] open[i]);
        assert(forall|j: int|
            0 <= j < track.seen.len() ==> (#[trigger] track.seen[j]).document != open[i].document
                || track.seen[j].file != open[i].file);
    }
    if exists|i: int|
        0 <= i < open.len() && forall|j: int|
            0 <= j < track.seen.len() ==> (#[trigger] track.seen[j]).document != (
            #[trigger] open[i]).document || track.seen[j].file != open[i].file {
        let i = choose|i: int|
            0 <= i < open.len() && forall|j: int|
                0 <= j < track.seen.len() ==> (#[trigger] track.seen[j]).document != (
                #[trigger] open[i]).document || track.seen[j].file != open[i].file;
        assert(!crate::git::knows(track.seen, open[i]));
    }
}

/// Documents are handed out once that is due, all of them, under a new number;
/// what was being compared before is given up. Where comparing is turned off
/// nothing is.
pub proof fn law_documents_are_compared_when_due(
    before: App,
    time: Time,
    after: App,
    asked: Seq<Effect>,
    asks: Seq<Effect>,
    batch: Option<crate::git::Batch>,
)
    requires
        git_batch_taken(before, time, after, asked, asks, batch),
        before.git.request < u64::MAX,
        time + 2_000_000_000 <= u64::MAX,
        versions(before.screen()) == before.git.seen@,
    ensures
        ({
            let look = before.git.refresh_at matches Some(at) && at <= time;
            let due = before.git.due matches Some(due) && due <= time;
            let now = before.git.enabled && (due || look && before.git.due is None);
            &&& batch is Some <==> now
            &&& batch matches Some(batch) ==> {
                &&& batch.documents@ == before.git.seen@
                &&& batch.request == before.git.request + 1
                &&& batch.refresh <==> before.git.refresh || look
                &&& after.git.request == batch.request
                &&& after.git.due is None
                &&& !after.git.cancelled
                &&& asks == asked.push(Effect::Cancel(Job::Git(before.git.request)))
            }
            &&& batch is None ==> asks == asked && after.git.request == before.git.request
            &&& !before.git.enabled ==> after == before
            &&& after == (App { git: after.git, ..before })
        }),
{
    let seen = before.git.seen@;
    assert(!crate::git::versions_changed(seen, seen)) by {
        assert forall|i: int| 0 <= i < seen.len() implies seen.contains(#[trigger] seen[i]) by {}
    }
}

/// Differences are taken where they are those of the last batch and of versions
/// that are still there; what was known of other documents stays.
pub proof fn law_late_differences_are_dropped(
    before: App,
    request: u64,
    news: Seq<DocumentDiff>,
    time: Time,
    after: App,
    changed: bool,
    i: int,
)
    requires
        git_results_taken(before, request, news, time, after, changed),
        0 <= i < after.git.results@.len(),
    ensures
        request != before.git.request || before.git.cancelled ==> after == before && !changed,
        before.git.results@.contains(after.git.results@[i]) || news.contains(after.git.results@[i])
            && versions(before.screen()).contains(after.git.results@[i].version),
        after.git.results@.len() >= before.git.results@.len(),
{
    if request != before.git.request || before.git.cancelled {
        assert(before.git.results@[i] == after.git.results@[i]);
    } else {
        let open = versions(before.screen());
        lemma_merged(before.git.results@, news, open, i);
        assert(after.git@.results == after.git.results@);
    }
}

proof fn lemma_merged(
    results: Seq<DocumentDiff>,
    news: Seq<DocumentDiff>,
    open: Seq<Version>,
    i: int,
)
    ensures
        merged(results, news, open).len() >= results.len(),
        0 <= i < merged(results, news, open).len() ==> {
            let result = merged(results, news, open)[i];
            results.contains(result) || news.contains(result) && open.contains(result.version)
        },
    decreases news.len(),
{
    if news.len() > 0 {
        let rest = merged(results, news.drop_last(), open);
        lemma_merged(results, news.drop_last(), open, i);
        lemma_first_where(
            rest,
            |result: DocumentDiff| result.version.document == news.last().version.document,
        );
        let all = merged(results, news, open);
        if 0 <= i < all.len() {
            let result = all[i];
            if i < rest.len() && result == rest[i] {
                if !results.contains(result) {
                    let j = choose|j: int|
                        0 <= j < news.drop_last().len() && news.drop_last()[j] == result;
                    assert(news[j] == result);
                }
            } else {
                assert(result == news.last());
                assert(news[news.len() - 1] == result);
            }
        }
    } else if 0 <= i < results.len() {
        assert(results[i] == merged(results, news, open)[i]);
    }
}

/// Results of documents that are closed are forgotten, the others are kept.
pub proof fn law_closed_documents_lose_their_result(
    results: Seq<DocumentDiff>,
    open: Seq<Version>,
    result: DocumentDiff,
)
    ensures
        kept_results(results, open).contains(result) <==> results.contains(result) && exists|
            i: int|
            0 <= i < open.len() && (#[trigger] open[i]).document == result.version.document,
    decreases results.len(),
{
    if results.len() > 0 {
        let rest = results.drop_last();
        law_closed_documents_lose_their_result(rest, open, result);
        let kept = kept_results(rest, open);
        if results.contains(result) {
            let i = choose|i: int| 0 <= i < results.len() && results[i] == result;
            if i < rest.len() {
                assert(rest[i] == result);
            }
        }
        if rest.contains(result) {
            let i = choose|i: int| 0 <= i < rest.len() && rest[i] == result;
            assert(results[i] == result);
        }
        let all = kept_results(results, open);
        if kept.contains(result) {
            let i = choose|i: int| 0 <= i < kept.len() && kept[i] == result;
            assert(all[i] == result);
        }
        if all.contains(result) && !kept.contains(result) {
            let i = choose|i: int| 0 <= i < all.len() && all[i] == result;
            assert(result == results.last());
            assert(results[results.len() - 1] == result);
        }
        if result == results.last() && all.len() > kept.len() {
            assert(all[all.len() - 1] == result);
        }
    }
}

/// Whether this is the pane of the active window.
pub open spec fn is_active(app: App, at: int) -> bool {
    &&& 0 <= at < app.windows.panes@.len()
    &&& app.windows.panes@[at].id == app.window()
    &&& forall|i: int| 0 <= i < at ==> (#[trigger] app.windows.panes@[i]).id != app.window()
}

proof fn lemma_active(app: App, at: int)
    requires
        is_active(app, at),
    ensures
        find_pane(app.screen().panes, app.screen().app.window()) == at,
        app.screen().panes == app.windows.panes@,
{
    let panes = app.windows.panes@;
    let id = app.window();
    let test = |pane: Pane| pane.id == id;
    assert forall|i: int| 0 <= i < at implies !test(#[trigger] panes[i]) by {}
    lemma_is_first(panes, test, at);
}

/// Opening a repository shows it in the active window and in no other, in front
/// of the document there, and reads it at once. Where it is shown already it is
/// read again.
pub proof fn law_repositories_open_in_the_active_window(
    before: App,
    origin: Result<Root, Error>,
    time: Time,
    after: App,
    asked: Seq<Effect>,
    asks: Seq<Effect>,
    result: Result<(), Error>,
    at: int,
)
    requires
        status_opened(before, origin, time, after, asked, asks, result),
        is_active(before, at),
    ensures
        ({
            let there = before.windows.panes@[at].git is Some;
            let pane = after.windows.panes@[at];
            &&& result is Err ==> after == before && asks == asked && !there
            &&& result matches Err(error) ==> error is TooManyGitViews || origin == Err::<
                Root,
                Error,
            >(error)
            &&& result is Ok ==> after.status.due == Some(time) && after.status.cancelled
                && after.editor == before.editor && asks.last() == Effect::Cancel(
                Job::Status(before.status.request),
            )
            &&& result is Ok && there ==> after.windows == before.windows
            &&& result is Ok && !there ==> {
                &&& origin is Ok
                &&& pane.git == Some(origin->Ok_0)
                &&& pane.document == before.windows.panes@[at].document
                &&& after.prompt is None
                &&& after.message is Empty
                &&& after.windows.panes@.len() == before.windows.panes@.len()
                &&& forall|i: int|
                    0 <= i < before.windows.panes@.len() && i != at ==> #[trigger]
                    after.windows.panes@[i] == before.windows.panes@[i]
            }
        }),
{
    lemma_active(before, at);
}

/// Closing a repository shows the document behind it again, in the active window
/// alone.
pub proof fn law_closing_a_repository_shows_the_document(
    before: App,
    after: App,
    asked: Seq<Effect>,
    asks: Seq<Effect>,
    at: int,
)
    requires
        status_closed(before, after, asked, asks),
        is_active(before, at),
    ensures
        after.windows.panes@.len() == before.windows.panes@.len(),
        after.windows.panes@[at].git is None,
        after.windows.panes@[at].document == before.windows.panes@[at].document,
        forall|i: int|
            0 <= i < before.windows.panes@.len() && i != at ==> #[trigger] after.windows.panes@[i]
                == before.windows.panes@[i],
        after.prompt is None,
        after.message is Empty,
        asks == asked.push(Effect::CancelKeys),
        after.editor == before.editor,
{
    lemma_active(before, at);
}

/// Whether this is the view of a repository.
pub open spec fn is_view(views: Seq<RepoView>, key: Seq<u8>, at: int) -> bool {
    &&& 0 <= at < views.len()
    &&& views[at].key@ == key
    &&& forall|i: int| 0 <= i < at ==> (#[trigger] views[i]).key@ != key
}

/// Whether another view shows the repository that was read.
pub open spec fn has_it(view: RepoView, reading: Reading) -> bool {
    &&& view.key@ != reading.origin@
    &&& view.root is Some
    &&& reading.root is Some
    &&& view.root->0@ == reading.root->0@
}

/// A repository that was read for the first time keeps its view and shows it; one
/// that another view shows already gives its windows to that one.
pub proof fn law_one_repository_has_one_view(
    views: Seq<RepoView>,
    panes: Seq<Pane>,
    reading: Reading,
    at: int,
    i: int,
    j: int,
)
    requires
        is_view(views, reading.origin@, at),
        0 <= i < panes.len(),
        0 <= j < views.len(),
    ensures
        ({
            let (now, shown, again) = read_one(views, panes, reading);
            let alone = forall|k: int|
                0 <= k < views.len() ==> !#[trigger] has_it(views[k], reading);
            &&& alone ==> {
                &&& now.len() == views.len()
                &&& shown == panes
                &&& !again
                &&& !now[at].refreshing
                &&& reading.root is Some ==> now[at].root == reading.root
                &&& reading.root is None ==> now[at].root == views[at].root
                &&& j != at ==> now[j] == views[j]
            }
            &&& !alone ==> {
                &&& shown.len() == panes.len()
                &&& panes[i].git is Some && panes[i].git->0@ == reading.origin@ ==> (
                shown[i].git matches Some(other) && other@ != reading.origin@)
                &&& (panes[i].git is None || panes[i].git->0@ != reading.origin@) ==> shown[i]
                    == panes[i]
            }
        }),
{
    lemma_find_view(views, reading.origin, at);
    if reading.root is Some {
        let root = reading.root->0;
        lemma_find_twin(views, reading.origin, root);
        let found = find_twin(views, reading.origin@, root@);
        if found < views.len() {
            assert(has_it(views[found], reading));
        } else {
            assert forall|k: int| 0 <= k < views.len() implies !#[trigger] has_it(
                views[k],
                reading,
            ) by {
                assert(!crate::status::is_twin(views[k], reading.origin@, root@));
            }
        }
    } else {
        assert forall|k: int| 0 <= k < views.len() implies !#[trigger] has_it(
            views[k],
            reading,
        ) by {}
    }
}

/// Readings of another batch change nothing; those of the last one are shown, and
/// the next look is two seconds later, or at once where another view takes over.
pub proof fn law_late_readings_are_dropped(
    before: App,
    request: u64,
    readings: Seq<Reading>,
    time: Time,
    after: App,
    redraw: bool,
)
    requires
        readings_taken(before, request, readings, time, after, redraw),
        time + 2_000_000_000 <= u64::MAX,
    ensures
        redraw <==> request == before.status.request && !before.status.cancelled,
        !redraw ==> after == before,
        after.status.request == before.status.request,
        after.editor == before.editor,
        redraw ==> match after.status.due {
            None => after.status.visible@.len() == 0,
            Some(due) => due == time || due == time + 2_000_000_000,
        },
{
}

/// Repositories on the screen are read once that is due, all of them, under a new
/// number; where windows show others than before, that is at once.
pub proof fn law_repositories_are_read_when_due(
    before: App,
    time: Time,
    after: App,
    asked: Seq<Effect>,
    asks: Seq<Effect>,
    batch: Option<crate::status::Batch>,
    path: Seq<u8>,
)
    requires
        status_batch_taken(before, time, after, asked, asks, batch),
        before.status.request < u64::MAX,
    ensures
        batch matches Some(batch) ==> {
            &&& batch.request == before.status.request + 1
            &&& after.status.request == batch.request
            &&& after.status.due is None
            &&& !after.status.cancelled
            &&& crate::roots::lists(batch.views@, path) <==> shown(before.windows.panes@, path)
            &&& asks == asked.push(Effect::Cancel(Job::Status(before.status.request)))
        },
        batch is None ==> after.status.request == before.status.request,
        shown(before.windows.panes@, path) && !crate::roots::lists(before.status.visible@, path)
            ==> batch is Some,
        shown(before.windows.panes@, path) && crate::roots::names_shown(
            before.status.visible@,
            before.windows.panes@,
        ) ==> (batch is Some <==> (before.status.due matches Some(due) && due <= time)),
        crate::roots::lists(after.status.visible@, path) <==> shown(before.windows.panes@, path),
        after == (App { status: after.status, ..before }),
{
}

/// What is unsaved in a repository is what is unsaved below its root, by the rest
/// of its path.
pub proof fn law_unsaved_files_are_those_below_the_root(
    root: Seq<u8>,
    dirty: Seq<Seq<u8>>,
    rest: Seq<u8>,
)
    requires
        rest.len() > 0,
        root.len() > 0,
        root.last() != 0,
    ensures
        unsaved_below(root, dirty).contains(rest) <==> dirty.contains(root.push(0) + rest),
    decreases dirty.len(),
{
    let whole = root.push(0) + rest;
    if dirty.len() > 0 {
        let some = dirty.drop_last();
        law_unsaved_files_are_those_below_the_root(root, some, rest);
        let kept = unsaved_below(root, some);
        let all = unsaved_below(root, dirty);
        let path = dirty.last();
        let stem = root.push(0);
        if path == whole {
            assert(path.take(stem.len() as int) =~= stem);
            assert(path.skip(stem.len() as int) =~= rest);
            assert(path != root);
            assert(all[all.len() - 1] == rest);
            assert(dirty[dirty.len() - 1] == whole);
        } else if all.contains(rest) {
            let i = choose|i: int| 0 <= i < all.len() && all[i] == rest;
            if i < kept.len() {
                assert(kept[i] == rest);
            } else {
                assert(below(path, root) == Some(rest));
                assert(path =~= whole);
            }
        }
        if some.contains(whole) {
            let i = choose|i: int| 0 <= i < some.len() && some[i] == whole;
            assert(dirty[i] == whole);
        }
        if dirty.contains(whole) {
            let i = choose|i: int| 0 <= i < dirty.len() && dirty[i] == whole;
            if i < some.len() {
                assert(some[i] == whole);
            }
        }
        if kept.contains(rest) {
            let i = choose|i: int| 0 <= i < kept.len() && kept[i] == rest;
            assert(all[i] == rest);
        }
    }
}

} // verus!
