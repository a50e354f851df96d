//! Checkpoints, locations and the documents that windows go to.

use crate::app::App;
use crate::browser::{directory_browsed, find_left, Browser, Left, Start};
use crate::buffers::{
    definition_shown, jump_finished, jump_planned, jump_reached, picked_file_shown, JumpPlan,
};
use crate::editor::{FileId, Mode, Time};
use crate::effect::Effect;
use crate::error::Error;
use crate::find::lemma_is_first;
use crate::jumps::{belongs_to, find_trail, trail_of, Jump, Spot};
use crate::laws::choosing::{opens, puts_away};
use crate::message::Message;
use crate::navigation::{location_loaded, location_shown};
use crate::picker::{JumpLocation, Rows, Source, Target};
use crate::picking::Ranked;
use crate::refresh::{
    jump_location_accepted, locations_taken, problem_accepted, problems_taken, Found, Problem,
};
use crate::selection::{Ranges, Selection};
use crate::windows::{find_buffer, lemma_has_buffer, Prepared, Screen};
use vstd::prelude::*;

verus! {

/// Whether this is the history of the active window.
pub open spec fn is_own(app: App, at: int) -> bool {
    &&& 0 <= at < app.jumps@.len()
    &&& app.jumps@[at].0 == app.window()
    &&& forall|i: int| 0 <= i < at ==> (#[trigger] app.jumps@[i]).0 != app.window()
}

/// The place that the editor is at.
pub open spec fn here(app: App) -> Spot {
    Spot { document: app.editor.document, selections: app.editor.selections@ }
}

pub proof fn lemma_own(app: App, at: int)
    requires
        is_own(app, at),
    ensures
        find_trail(app.jumps@, app.window()) == at,
        trail_of(app.jumps@, app.window()) == app.jumps@[at].1,
{
    assert forall|i: int| 0 <= i < at implies !belongs_to(app.window())(
        #[trigger] app.jumps@[i],
    ) by {}
    lemma_is_first(app.jumps@, belongs_to(app.window()), at);
}

/// Going forth leads to a checkpoint later in the history, as many as asked for,
/// and nowhere past its end. The checkpoints stay.
pub proof fn law_going_forth_leads_to_later_checkpoints(
    app: App,
    count: usize,
    plan: Option<JumpPlan>,
    at: int,
)
    requires
        jump_planned(app, true, count, plan),
        is_own(app, at),
    ensures
        ({
            let trail = app.jumps@[at].1;
            &&& plan is Some <==> trail.cursor + count < trail.entries.len()
            &&& plan matches Some(plan) ==> {
                &&& plan.jump@ == trail.entries[trail.cursor + count]
                &&& plan.history@.entries == trail.entries
                &&& plan.history@.cursor == trail.cursor + count
                &&& plan.select <==> app.editor.mode == Mode::Select
            }
        }),
{
    lemma_own(app, at);
}

/// Going back inside the history leads to an earlier checkpoint, as many as asked
/// for, or the one before it where that is where the editor is already.
pub proof fn law_going_back_leads_to_earlier_checkpoints(
    app: App,
    count: usize,
    plan: Option<JumpPlan>,
    at: int,
)
    requires
        jump_planned(app, false, count, plan),
        is_own(app, at),
        app.jumps@[at].1.valid(),
        app.jumps@[at].1.cursor < app.jumps@[at].1.entries.len(),
    ensures
        ({
            let trail = app.jumps@[at].1;
            let target = trail.cursor - count;
            let stays = target >= 0 && trail.entries[target] == here(app);
            &&& plan is Some <==> target >= 0 && (stays ==> target > 0)
            &&& plan matches Some(plan) ==> {
                let reached = if stays { target - 1 } else { target };
                &&& plan.jump@ == trail.entries[reached]
                &&& plan.history@.entries == trail.entries
                &&& plan.history@.cursor == reached
                &&& plan.select <==> app.editor.mode == Mode::Select
            }
        }),
{
    lemma_own(app, at);
}

/// Going back from behind the history records the place first, as its newest
/// checkpoint, so that going forth returns to it. Where that is so already
/// nothing is recorded; the oldest checkpoint gives way to a new one in a full
/// history.
pub proof fn law_going_back_keeps_the_way_forth(
    app: App,
    count: usize,
    plan: Option<JumpPlan>,
    at: int,
)
    requires
        jump_planned(app, false, count, plan),
        is_own(app, at),
        app.jumps@[at].1.valid(),
        app.jumps@[at].1.cursor == app.jumps@[at].1.entries.len(),
    ensures
        ({
            let trail = app.jumps@[at].1;
            let known = trail.entries.len() > 0 && trail.entries.last() == here(app);
            &&& count > trail.entries.len() ==> plan is None
            &&& plan matches Some(plan) ==> {
                let entries = plan.history@.entries;
                let reached = plan.history@.cursor;
                let aimed = if known {
                    entries.len() - count
                } else if entries.len() - 1 >= count {
                    entries.len() - 1 - count
                } else {
                    0
                };
                &&& entries == if known {
                    trail.entries
                } else if trail.entries.len() == 32 {
                    trail.entries.drop_first().push(here(app))
                } else {
                    trail.entries.push(here(app))
                }
                &&& 0 <= reached < entries.len()
                &&& plan.jump@ == entries[reached]
                &&& reached == aimed && entries[aimed] != here(app) || reached == aimed - 1
                    && entries[aimed] == here(app)
            }
        }),
{
    lemma_own(app, at);
    let trail = app.jumps@[at].1;
    assert(trail.entries.take(trail.cursor) =~= trail.entries);
    if trail.entries.len() == 32 {
        assert(trail.entries.skip(1) =~= trail.entries.drop_first());
    }
    assert(trail.entries.skip(0) =~= trail.entries);
}

/// The history moves once the checkpoint was reached, and stays where it was not.
/// Other windows keep theirs.
pub proof fn law_histories_move_with_the_editor(
    before: App,
    plan: JumpPlan,
    outcome: Result<(), Error>,
    after: App,
    result: Result<(), Error>,
    at: int,
)
    requires
        jump_finished(before, plan, outcome, after, result),
        is_own(before, at),
    ensures
        result is Ok <==> outcome is Ok,
        outcome matches Err(error) ==> result == Err::<(), Error>(error) && after == before,
        outcome is Ok ==> {
            &&& after.jumps@.len() == before.jumps@.len()
            &&& after.jumps@[at] == (before.window(), plan.history@)
            &&& forall|i: int|
                0 <= i < before.jumps@.len() && i != at ==> #[trigger] after.jumps@[i]
                    == before.jumps@[i]
            &&& after.message is Empty
            &&& !after.error
            &&& after.editor == before.editor
        },
{
    lemma_own(before, at);
    assert(after.screen().trails == after.jumps@);
    assert(after.screen().app.editor == after.editor);
    assert(after.screen().app.message == after.message);
    assert(after.screen().app.error == after.error);
}

/// The active window shows the document of the checkpoint; one that is closed is
/// an error.
pub proof fn law_jumps_show_their_document(
    before: App,
    plan: JumpPlan,
    after: App,
    asked: Seq<Effect>,
    asks: Seq<Effect>,
    result: Result<(), Error>,
)
    requires
        jump_reached(before, plan, after, asked, asks, result),
        before.screen().valid(),
    ensures
        ({
            let document = plan.jump.document;
            let open = document == before.editor.document || exists|i: int|
                0 <= i < before.windows.buffers@.len() && (
                #[trigger] before.windows.buffers@[i]).editor.document == document;
            &&& result is Ok <==> open
            &&& result matches Err(error) ==> error is JumpBufferClosed && after == before && asks
                == asked
            &&& result is Ok ==> after.editor.document == document && after.jumps@ == before.jumps@
        }),
{
    reveal(Screen::replaced);
    assert(before.screen().buffers == before.windows.buffers@);
    assert(after.screen().trails == after.jumps@);
    assert(after.screen().app.editor == after.editor);
    let document = plan.jump.document;
    if before.screen().is_open(document) && document != before.editor.document {
        lemma_has_buffer(before.screen().buffers, document);
    }
}

/// Going to another document records the place before it as the newest checkpoint
/// of the window; what is shown already is not recorded. A definition without its
/// place in the document is an error.
pub proof fn law_going_elsewhere_records_the_place(
    before: App,
    prepared: Prepared,
    offset: Option<usize>,
    after: App,
    asked: Seq<Effect>,
    asks: Seq<Effect>,
    result: Result<usize, Error>,
    done: Result<(), Error>,
    at: int,
)
    requires
        before.screen().valid(),
        before.screen().accepts(prepared),
        is_own(before, at),
        before.jumps@[at].1.valid(),
    ensures
        definition_shown(before, prepared, offset, after, asked, asks, result) ==> match offset {
            Some(place) => {
                &&& result == Ok::<usize, Error>(place)
                &&& goes_to(before, prepared, after, at)
            },
            None => {
                &&& result matches Err(error) && error is InvalidDefinitionPosition
                &&& after == before
                &&& asks == asked
            },
        },
        picked_file_shown(before, prepared, after, asked, asks, done) ==> done is Ok && goes_to(
            before,
            prepared,
            after,
            at,
        ),
{
    reveal(Screen::replaced);
    lemma_own(before, at);
    assert(after.screen().trails == after.jumps@);
    assert(before.screen().trails == before.jumps@);
    assert(after.screen().app.editor == after.editor);
    let trail = before.jumps@[at].1;
    if let Prepared::Existing(document) = prepared {
        if document != before.editor.document {
            lemma_has_buffer(before.screen().buffers, document);
        }
    }
    if trail.cursor > 0 && trail.entries[trail.cursor - 1] == here(before) {
        assert(trail.entries.take(trail.cursor).last() == here(before));
    }
}

/// Whether the window shows a document, and remembers where it came from.
pub open spec fn goes_to(before: App, prepared: Prepared, after: App, at: int) -> bool {
    let document = match prepared {
        Prepared::Existing(document) => document,
        Prepared::New(buffer) => buffer.editor.document,
    };
    &&& after.editor.document == document
    &&& document == before.editor.document && prepared is Existing ==> after.jumps@
        == before.jumps@
    &&& prepared matches Prepared::New(buffer) ==> after.editor == buffer.editor
    &&& document != before.editor.document ==> {
        let trail = after.jumps@[at].1;
        &&& after.jumps@[at].0 == before.window()
        &&& trail.entries.len() > 0
        &&& trail.entries.last() == here(before)
        &&& trail.cursor == trail.entries.len()
        &&& forall|i: int|
            0 <= i < before.jumps@.len() && i != at ==> #[trigger] after.jumps@[i]
                == before.jumps@[i]
    }
}

/// A document that its window leaves stays open while another window shows it, it
/// has unsaved changes, it is a commit message or a checkpoint leads to it; it is
/// closed otherwise.
pub proof fn law_documents_stay_open_while_needed(screen: Screen, prepared: Prepared)
    requires
        screen.valid(),
        screen.accepts(prepared),
        prepared != Prepared::Existing(screen.app.editor.document),
    ensures
        ({
            let after = screen.replaced(prepared);
            let left = screen.app.editor.document;
            let shown_elsewhere = crate::windows::views(screen.panes, left) > 1;
            let led_to = exists|i: int, j: int|
                0 <= i < screen.trails.len() && 0 <= j < screen.trails[i].1.entries.len()
                    && #[trigger] screen.trails[i].1.entries[j].document == left;
            let draft = crate::git_write::is_draft(screen.app.git_write.drafts@, left);
            let kept = exists|i: int|
                0 <= i < after.buffers.len() && (#[trigger] after.buffers[i]).editor
                    == screen.app.editor;
            &&& shown_elsewhere || screen.app.editor.dirty || led_to || draft ==> kept
            &&& kept ==> shown_elsewhere || screen.app.editor.dirty || led_to || draft
            &&& after.app.viewport.top_line == 0
            &&& after.app.prompt is None
        }),
{
    reveal(Screen::replaced);
    reveal(Screen::keeps_document);
    let after = screen.replaced(prepared);
    let left = screen.app.editor.document;
    if let Prepared::Existing(document) = prepared {
        lemma_has_buffer(screen.buffers, document);
    }
    if screen.keeps_document() {
        assert(after.buffers.last().editor == screen.app.editor);
    } else {
        assert forall|i: int| 0 <= i < after.buffers.len() implies (
        #[trigger] after.buffers[i]).editor.document != left by {
            let (_, rest) = crate::windows::taken(screen.buffers, prepared);
            assert(after.buffers == rest);
            if let Prepared::Existing(document) = prepared {
                let at = find_buffer(screen.buffers, document);
                assert(rest[i] == screen.buffers[if i < at { i } else { i + 1 }]);
            } else {
                assert(rest[i] == screen.buffers[i]);
            }
        }
    }
    let mentioned = crate::jumps::mentions(screen.trails, left);
    if mentioned {
        let i = choose|i: int|
            0 <= i < screen.trails.len() && #[trigger] screen.trails[i].1.mentions(left);
        let j = choose|j: int|
            0 <= j < screen.trails[i].1.entries.len() && (
            #[trigger] screen.trails[i].1.entries[j]).document == left;
        assert(screen.trails[i].1.entries[j].document == left);
    }
    if exists|i: int, j: int|
        0 <= i < screen.trails.len() && 0 <= j < screen.trails[i].1.entries.len()
            && #[trigger] screen.trails[i].1.entries[j].document == left {
        let (i, j) = choose|i: int, j: int|
            0 <= i < screen.trails.len() && 0 <= j < screen.trails[i].1.entries.len()
                && #[trigger] screen.trails[i].1.entries[j].document == left;
        assert(screen.trails[i].1.mentions(left));
    }
}

/// Selections that reach past the end of a text end where it does; the others
/// stay as they are.
pub proof fn law_selections_end_with_the_text(ranges: Ranges, length: usize, i: int)
    requires
        0 <= i < ranges.ranges.len(),
    ensures
        ({
            let range = ranges.ranges[i];
            let now = ranges.clamped(length).ranges[i];
            &&& now.anchor <= length && now.head <= length
            &&& range.anchor <= length ==> now.anchor == range.anchor
            &&& range.head <= length ==> now.head == range.head
            &&& range.anchor > length ==> now.anchor == length
            &&& range.head > length ==> now.head == length
            &&& ranges.clamped(length).primary == ranges.primary
            &&& ranges.clamped(length).ranges.len() == ranges.ranges.len()
        }),
{
}

/// The ends of a selection: the lesser is its start.
pub proof fn law_a_selection_starts_before_its_end(range: Selection)
    ensures
        range.spec_start() <= range.spec_end(),
        range.spec_start() == range.anchor && range.spec_end() == range.head || range.spec_start()
            == range.head && range.spec_end() == range.anchor,
{
}

/// A location that was loaded is shown where it is the one awaited and the editor
/// is where it was asked from; the place there becomes the newest checkpoint. One
/// that could not be shown is reported.
pub proof fn law_locations_are_shown_from_their_place(
    before: App,
    id: u64,
    cancelled: bool,
    after: App,
    outcome: (bool, Option<Jump>),
)
    requires
        location_loaded(before, id, cancelled, after, outcome),
    ensures
        outcome.0 <==> (before.navigation.pending matches Some(pending) && pending.id == id),
        !outcome.0 ==> after == before && outcome.1 is None,
        outcome.0 ==> after.navigation.pending is None && after.editor == before.editor,
        outcome.1 is Some <==> (before.navigation.pending matches Some(pending) && pending.id == id
            && !cancelled && pending.window == before.window() && pending.origin.document
            == before.editor.document && pending.revision == before.editor.revision
            && pending.origin.selections@ == before.editor.selections@ && pending.mode
            == before.editor.mode),
        outcome.1 matches Some(origin) ==> origin == before.navigation.pending->0.origin,
{
}

/// What was shown records the place it was asked from; what failed is reported.
pub proof fn law_shown_locations_are_recorded(
    before: App,
    origin: Jump,
    outcome: Result<(), Error>,
    after: App,
    asked: Seq<Effect>,
    asks: Seq<Effect>,
    at: int,
)
    requires
        location_shown(before, origin, outcome, after, asked, asks),
        is_own(before, at),
        before.jumps@[at].1.valid(),
    ensures
        outcome is Ok ==> {
            &&& after.jumps@[at].1.entries.len() > 0
            &&& after.jumps@[at].1.entries.last() == origin@
            &&& after.jumps@[at].1.cursor == after.jumps@[at].1.entries.len()
            &&& after.message is Empty
            &&& asks == asked.push(Effect::CancelKeys)
        },
        outcome matches Err(error) ==> after == (App {
            message: Message::Failed { error },
            error: true,
            ..before
        }) && asks == asked,
{
    lemma_own(before, at);
    assert(after.screen().trails == after.jumps@);
    assert(before.screen().trails == before.jumps@);
    assert(after.screen().app.message == after.message);
    let trail = before.jumps@[at].1;
    if trail.cursor > 0 && trail.entries[trail.cursor - 1] == origin@ {
        assert(trail.entries.take(trail.cursor).last() == origin@);
    }
}

/// No location is a message, one alone is gone to, and several are offered in a
/// picker, also where some of them could not be used.
pub proof fn law_locations_are_offered_by_their_number(
    before: App,
    after: App,
    asked: Seq<Effect>,
    asks: Seq<Effect>,
    title: Seq<char>,
    found: Found,
    view: Rows,
)
    requires
        locations_taken(before, after, asked, asks, title, found, view),
        before.navigation.next < u64::MAX,
        before.picker.next_session < u64::MAX,
        before.picker.captures < u64::MAX,
    ensures
        ({
            let alone = found.items == 1 && !found.limited && found.skipped == 0;
            &&& found.items == 0 ==> {
                &&& after.picker == before.picker
                &&& after.navigation == before.navigation
                &&& found.skipped == 0 ==> after.message is NoLocations
                &&& found.skipped > 0 ==> (after.message matches Message::NoUsableLocations {
                    skipped,
                    ..
                } && skipped == found.skipped)
            }
            &&& alone ==> {
                &&& after.picker == before.picker
                &&& after.navigation.job matches Some(job) && job.destination == found.first
                    && job.id == before.navigation.next + 1
                &&& after.navigation.pending matches Some(pending) && pending.id
                    == before.navigation.next + 1 && pending.origin@ == here(before)
                    && pending.window == before.window() && pending.mode == before.editor.mode
                &&& after.message is OpeningLocation
            }
            &&& found.items > 0 && !alone ==> {
                &&& opens(before, after, view)
                &&& after.picker.active->0.source matches Source::Locations {
                    catalog,
                    document,
                    revision,
                } && document == before.editor.document && revision == before.editor.revision
                    && catalog == before.picker.captures + 1
                &&& after.navigation == before.navigation
            }
        }),
{
}

/// A listed checkpoint is gone to from here while its document is as it was when
/// it was listed; a closed or changed one is an error, and changed ones are listed
/// anew.
pub proof fn law_listed_checkpoints_must_be_current(
    before: App,
    location: JumpLocation,
    listed: bool,
    time: Time,
    after: App,
    asked: Seq<Effect>,
    asks: Seq<Effect>,
    origin: Result<Jump, Error>,
)
    requires
        jump_location_accepted(before, location, listed, time, after, asked, asks, origin),
        location.document == before.editor.document,
    ensures
        origin is Ok <==> location.revision == before.editor.revision,
        origin matches Ok(jump) ==> jump@ == here(before) && after == before && asks == asked,
        origin matches Err(error) ==> error is JumpBufferChanged,
        origin is Err && (before.picker.active is None || !listed) ==> after == before,
{
}

/// A problem is gone to where it was found: in the present text of an open
/// document. One that was found in another text is asked for again.
pub proof fn law_problems_are_gone_to_where_they_are(
    before: App,
    problem: Problem,
    time: Time,
    after: App,
    asked: Seq<Effect>,
    asks: Seq<Effect>,
)
    requires
        problem_accepted(before, problem, time, after, asked, asks),
        before.editor.file == Some(problem.destination.file),
        before.navigation.next < u64::MAX,
        before.picker.active matches Some(active) && active.source is Diagnostics
            && active.revision < u64::MAX,
        before.picker.captures < u64::MAX,
    ensures
        ({
            let current = match problem.version {
                Some(found) => found.document == before.editor.document && found.revision
                    == before.editor.revision,
                None => before.editor.revision == 0,
            };
            &&& current ==> {
                &&& puts_away(after.picker, before.picker.active->0)
                &&& after.navigation.job matches Some(job) && job.destination
                    == problem.destination
            }
            &&& !current ==> {
                &&& after.navigation == before.navigation
                &&& after.picker.active matches Some(now) && now.revision
                    == before.picker.active->0.revision + 1 && now.source is Diagnostics
                &&& after.picker.captures == before.picker.captures + 1
            }
        }),
{
    reveal(App::query_submitted);
}

/// Problems of an older report are asked for again; those of the present one are
/// shown as they were ranked.
pub proof fn law_outdated_problems_are_asked_for_again(
    before: App,
    rows: Ranked,
    generation: u64,
    room: bool,
    time: Time,
    after: App,
    asked: Seq<Effect>,
    asks: Seq<Effect>,
    taken: (bool, Option<Target>),
)
    requires
        problems_taken(before, rows, generation, room, time, after, asked, asks, taken),
        before.picker.active matches Some(active) && active.source is Diagnostics
            && active.revision < u64::MAX,
        before.picker.captures < u64::MAX,
    ensures
        ({
            let active = before.picker.active->0;
            let awaited = active.session == rows.session && active.revision == rows.revision
                && !active.cancelled;
            let current = generation == before.language.catalog_generation;
            &&& taken.0 <==> awaited
            &&& !awaited ==> after == before && asks == asked && taken.1 is None
            &&& awaited && !current ==> {
                &&& taken.1 is None
                &&& after.picker.active matches Some(now) && now.revision == active.revision + 1
                    && now.accept_pending == active.accept_pending && now.view.items
                    == active.view.items
            }
            &&& awaited && current && !active.accept_pending ==> {
                &&& taken.1 is None
                &&& after.picker.active matches Some(now) && now.view.items == rows.items
                    && now.view.selected == rows.selected && now.revision == active.revision
                    && !now.view.pending
            }
        }),
{
    reveal(App::query_submitted);
    reveal(App::preview_requested);
    reveal(Screen::accepted);
    assert(after.screen().app.picker == after.picker);
}

/// Browsing another directory remembers the one that is left, newest last, with
/// what it showed. A directory that was seen before shows what it showed then,
/// the one above selects where it was come from, and any other begins at the top.
pub proof fn law_directories_are_remembered(
    before: App,
    directory: FileId,
    parent: Option<FileId>,
    bookmark: u64,
    view: Rows,
    after: App,
    asked: Seq<Effect>,
    asks: Seq<Effect>,
    start: Option<Start>,
    seen: Option<int>,
)
    requires
        directory_browsed(before, directory, parent, bookmark, view, after, asked, asks, start),
        before.picker.active is Some,
        before.picker.active->0.revision < u64::MAX,
        before.picker.active->0.source matches Source::Browser(browser) && browser.history@.len()
            <= 64 && match seen {
            Some(at) => {
                &&& 0 <= at < browser.history@.len()
                &&& browser.history@[at].directory == directory
                &&& forall|i: int|
                    0 <= i < at ==> (#[trigger] browser.history@[i]).directory != directory
            },
            None => forall|i: int|
                0 <= i < browser.history@.len() ==> (#[trigger] browser.history@[i]).directory
                    != directory,
        },
    ensures
        ({
            let browser = before.picker.active->0.source->Browser_0;
            let moves = directory != browser.directory;
            &&& !moves ==> start is None && after == before && asks == asked
            &&& moves ==> {
                &&& start == Some(
                    match seen {
                        Some(at) => Start::Restore(browser.history@[at].bookmark),
                        None => if parent == Some(directory) {
                            Start::Select(browser.directory)
                        } else {
                            Start::Top
                        },
                    },
                )
                &&& after.picker.active matches Some(now) && now.revision
                    == before.picker.active->0.revision + 1 && now.view == view && (
                now.source matches Source::Browser(next) && next.directory == directory
                    && next.history@.len() > 0 && next.history@.len() <= 64
                    && next.history@.last() == (Left { directory: browser.directory, bookmark }))
                &&& after.picker.browser_job matches Some(job) && job.query == Some(view.query)
                    && job.revision == before.picker.active->0.revision + 1
            }
        }),
{
    let browser = before.picker.active->0.source->Browser_0;
    let test = |left: Left| left.directory == directory;
    let at: int = match seen {
        Some(at) => at,
        None => browser.history@.len() as int,
    };
    assert forall|i: int| 0 <= i < at implies !test(#[trigger] browser.history@[i]) by {}
    lemma_is_first(browser.history@, test, at);
    assert(find_left(browser.history@, directory) == at);
}

} // verus!
