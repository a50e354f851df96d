//! Pickers by their queries, rows and the entries that are opened.

use crate::app::App;
use crate::editor::{FileId, Time};
use crate::effect::{Effect, Job};
use crate::error::Error;
use crate::event::Event;
use crate::message::Message;
use crate::picker::{
    Active, Catalog, Notice, Position, PreviewState, QueryJob, Rows, Source, State, Target,
};
use crate::pickers::{picker_event_taken, picker_reopened};
use crate::picking::{acceptance_ended, Action, Ranked};
use crate::sources::{
    buffer_picker_opened, diagnostic_picker_opened, file_picker_opened, found_lines_taken,
    jump_picker_opened, preview_taken, rows_taken, search_handed_out, search_started, Sort,
};
use crate::symbols::symbol_picker_opened;
use crate::windows::Screen;
use vstd::prelude::*;

verus! {

/// Whether entries come from a list.
pub open spec fn is_list(source: Source, sort: Sort) -> bool {
    match sort {
        Sort::Files => source is Files,
        Sort::Symbols => source is Symbols,
        Sort::Locations => source is Locations,
        Sort::Buffers => source is Buffers,
        Sort::Jumps => source is Jumps,
        Sort::Search => source is Search,
        Sort::Browser => source is Browser,
        Sort::Diagnostics => source is Diagnostics,
    }
}

/// The query that waits for the worker of a list.
pub open spec fn waiting_query(state: State, source: Source) -> Option<QueryJob> {
    match source {
        Source::Files { .. } => state.file_job,
        Source::Symbols(_) => state.symbol_job,
        Source::Locations { .. } => state.location_job,
        Source::Buffers { .. } => state.buffer_job,
        Source::Jumps { .. } => state.jump_job,
        Source::Search { .. } => state.search_job,
        Source::Browser { .. } => state.browser_job,
        Source::Diagnostics { .. } => state.diagnostic_job,
    }
}

/// Whether a list is waiting to be ranked by what is typed: not one that has yet
/// to come from a server.
pub open spec fn has_entries(source: Source) -> bool {
    source matches Source::Symbols(symbols) ==> !symbols.workspace && symbols.catalog is Some
}

/// Whether what was asked for in an open picker is given up.
pub open spec fn gives_up(asks: Seq<Effect>, from: int, active: Active) -> bool {
    &&& asks.len() >= from + 2
    &&& asks[from] == Effect::Cancel(Job::Query(active.session, active.revision))
    &&& asks[from + 1] == Effect::Cancel(Job::Preview(active.session, active.preview_request))
}

/// Whether the picker that was open is closed and kept to be opened again.
pub open spec fn puts_away(state: State, active: Active) -> bool {
    &&& state.active is None
    &&& state.last matches Some(last) && last.view == active.view && last.session == active.session
        && last.cancelled && last.preview_cancelled && !last.accept_pending && last.revision
        == active.revision
    &&& state.preview_job is None
    &&& state.symbol_job is None
    &&& state.location_job is None
    &&& state.buffer_job is None
    &&& state.jump_job is None
    &&& state.search_job is None
    &&& state.browser_job is None
    &&& state.diagnostic_job is None
}

/// Whether a new query was taken over from the one before.
pub open spec fn asks_anew(active: Active, now: Active) -> bool {
    &&& now.session == active.session
    &&& now.revision == active.revision + 1
    &&& now.view.query == active.view.query
    &&& !now.cancelled
    &&& !now.accept_pending
    &&& now.preview_target is None
    &&& now.preview_cancelled
}

/// A new query goes to the worker of the picker's own list and to no other, and
/// what was asked for before is given up. A search waits until typing pauses, and
/// so do symbols of the workspace, which are asked for again.
pub proof fn law_queries_go_to_their_own_list(app: App, time: Time, other: Source)
    requires
        app.picker.active is Some,
        app.picker.active->0.revision < u64::MAX,
        time + 150_000_000 <= u64::MAX,
    ensures
        ({
            let active = app.picker.active->0;
            let after = app.query_submitted(time);
            let asks = app.query_effects();
            &&& gives_up(asks, 0, active)
            &&& after.picker.active matches Some(now) && {
                &&& asks_anew(active, now)
                &&& has_entries(active.source) ==> (waiting_query(after.picker, active.source)
                    matches Some(job) && job.session == active.session && job.revision
                    == active.revision + 1 && job.query == Some(active.view.query))
                &&& now.source matches Source::Search { due, .. } ==> due == time + 150_000_000
                    && !now.view.current
                &&& active.source matches Source::Symbols(symbols) ==> {
                    now.source matches Source::Symbols(kept) && (symbols.workspace ==> kept.due
                        == Some((time + 150_000_000) as u64) && kept.catalog is None && !kept.loading)
                }
                &&& forall|sort: Sort| #[trigger]
                    is_list(active.source, sort) <==> is_list(now.source, sort)
            }
            &&& after.picker.preview_job is None
            &&& after.picker.last == app.picker.last
            &&& after.editor == app.editor
            &&& (exists|sort: Sort| #[trigger] is_list(other, sort) && !is_list(active.source, sort))
                ==> waiting_query(after.picker, other) == waiting_query(app.picker, other)
        }),
{
    reveal(App::query_submitted);
    let active = app.picker.active->0;
    let now = app.query_submitted(time).picker.active->0;
    assert forall|sort: Sort| #[trigger]
        is_list(active.source, sort) <==> is_list(now.source, sort) by {}
    if exists|sort: Sort| #[trigger] is_list(other, sort) && !is_list(active.source, sort) {
        let sort = choose|sort: Sort| #[trigger]
            is_list(other, sort) && !is_list(active.source, sort);
        assert(is_list(other, sort) && !is_list(active.source, sort));
    }
}

/// The preview shows the selected entry, at the place that it leads to, where
/// there is room; it is asked for once, and what it showed before is given up.
pub proof fn law_previews_show_the_selected_entry(app: App, screen: Screen, room: bool)
    requires
        app.picker.active is Some,
        app.picker.active->0.preview_request < u64::MAX,
    ensures
        ({
            let active = app.picker.active->0;
            let wanted = if room { active.view.selected } else { None };
            let after = app.preview_requested(screen, room);
            let asks = app.preview_effects(room);
            &&& after.picker.active matches Some(now) && {
                &&& now.preview_target == wanted
                &&& now.view.selected == active.view.selected
                &&& now.revision == active.revision
                &&& wanted != active.preview_target ==> now.view.preview == if wanted is Some {
                    PreviewState::Loading
                } else {
                    PreviewState::Empty
                }
            }
            &&& wanted == active.preview_target ==> after == app && asks == Seq::<Effect>::empty()
            &&& wanted != active.preview_target ==> asks == seq![
                Effect::Cancel(Job::Preview(active.session, active.preview_request)),
            ]
            &&& wanted != active.preview_target && wanted is None ==> after.picker.preview_job
                is None
            &&& wanted != active.preview_target && after.picker.preview_job is Some ==> {
                let job = after.picker.preview_job->0;
                &&& job.session == active.session
                &&& job.request == active.preview_request + 1
                &&& wanted == Some(job.target)
                &&& match job.target {
                    Target::Jump(place) => job.position matches Some(position) && position.line
                        == place.line && position.character == 0 && screen.is_open(place.document),
                    Target::Buffer(id) => job.position is None && screen.is_open(id),
                    Target::File(_) => job.position is None,
                    Target::Directory(_) => job.position is None,
                    Target::Symbol(_, place) => job.position == Some(place),
                    Target::Location(place) => job.position == Some(place.start),
                    Target::Search(hit) => job.position == Some(
                        Position { line: hit.first_line as u32, character: 0 },
                    ),
                }
            }
            &&& wanted != active.preview_target && wanted is Some && after.picker.preview_job is None
                ==> match wanted->0 {
                Target::Jump(place) => !screen.is_open(place.document) || place.line > u32::MAX,
                Target::Buffer(id) => !screen.is_open(id),
                _ => false,
            }
        }),
{
    reveal(App::preview_requested);
}

/// A preview is shown when it is the one that was asked for last, and no other.
pub proof fn law_late_previews_are_dropped(
    before: App,
    session: u64,
    request: u64,
    redraw: bool,
    after: App,
)
    requires
        preview_taken(before, session, request, redraw, after),
    ensures
        !redraw ==> after == before,
        redraw ==> (before.picker.active matches Some(active) && active.session == session
            && active.preview_request == request && !active.preview_cancelled),
        redraw ==> after.picker.active->0.view.preview == PreviewState::Shown,
        (before.picker.active matches Some(active) && active.session == session
            && active.preview_request == request && !active.preview_cancelled
            && active.preview_target is Some) ==> redraw,
{
}

/// Rows are shown where they answer the present query of a picker of their own
/// list, and are dropped otherwise. They are shown as they were ranked.
pub proof fn law_rows_answer_the_present_query(
    before: App,
    sort: Sort,
    rows: Ranked,
    pending: bool,
    room: bool,
    after: App,
    asked: Seq<Effect>,
    asks: Seq<Effect>,
    taken: (bool, Option<Target>),
)
    requires
        rows_taken(before, sort, rows, pending, room, after, asked, asks, taken),
    ensures
        taken.0 <==> (before.picker.active matches Some(active) && is_list(active.source, sort)
            && active.session == rows.session && active.revision == rows.revision
            && !active.cancelled),
        !taken.0 ==> after == before && asks == asked && taken.1 is None,
        taken.0 && !before.picker.active->0.accept_pending ==> {
            &&& taken.1 is None
            &&& after.picker.active matches Some(now) && now.view.items == rows.items
                && now.view.selected == rows.selected && now.view.matched == rows.matched
                && now.view.total == rows.total && now.view.notice == rows.notice
                && now.view.pending == pending && now.view.query
                == before.picker.active->0.view.query && now.preview_target == if room {
                rows.selected
            } else {
                None
            }
        },
{
    reveal(App::preview_requested);
    reveal(Screen::accepted);
    assert(after.screen().app.picker == after.picker);
}

/// An entry that was accepted before its rows had come is opened when they come:
/// the one that is then selected. Files are waited for until all were seen, and a
/// directory until something is in it.
pub proof fn law_early_acceptance_takes_the_new_rows(
    before: App,
    sort: Sort,
    rows: Ranked,
    pending: bool,
    room: bool,
    after: App,
    asked: Seq<Effect>,
    asks: Seq<Effect>,
    taken: (bool, Option<Target>),
)
    requires
        rows_taken(before, sort, rows, pending, room, after, asked, asks, taken),
        taken.0,
        before.picker.active matches Some(active) && active.accept_pending,
    ensures
        taken.1 matches Some(target) ==> rows.selected == Some(target) && !(target is Location),
        ({
            let waits = sort == Sort::Files && pending || sort == Sort::Browser && rows.items == 0;
            &&& waits ==> taken.1 is None
            &&& !waits && (rows.selected matches Some(target) && !(target is Location)) ==> taken.1
                == rows.selected
            &&& !waits && rows.selected is None ==> (after.picker.active matches Some(now)
                && now.view.notice is NoMatch && !now.accept_pending)
            &&& !waits && rows.selected is Some ==> (after.picker.active matches Some(now)
                ==> !now.accept_pending)
        }),
{
    reveal(App::preview_requested);
    reveal(Screen::accepted);
    assert(after.screen().app.picker == after.picker);
}

/// Lines that a search has found are shown with whether they are those of the
/// present query; counts come with new lines only. One accepted early is opened as
/// soon as a line of the present query is there, and a search that ends without
/// one says so.
pub proof fn law_found_lines_are_shown(
    before: App,
    rows: Ranked,
    replaced: bool,
    current: bool,
    scanning: bool,
    room: bool,
    after: App,
    asked: Seq<Effect>,
    asks: Seq<Effect>,
    taken: (bool, Option<Target>),
)
    requires
        found_lines_taken(
            before,
            rows,
            replaced,
            current,
            scanning,
            room,
            after,
            asked,
            asks,
            taken,
        ),
        rows.selected matches Some(target) ==> target is Search,
        rows.items > 0 ==> rows.selected is Some,
    ensures
        taken.0 <==> (before.picker.active matches Some(active) && active.source is Search
            && active.session == rows.session && active.revision == rows.revision
            && !active.cancelled),
        !taken.0 ==> after == before && asks == asked && taken.1 is None,
        taken.0 ==> {
            let active = before.picker.active->0;
            let found = rows.items > 0;
            &&& taken.1 == if active.accept_pending && found && (current || !scanning) {
                rows.selected
            } else {
                None
            }
            &&& after.picker.active matches Some(now) && {
                &&& now.view.items == rows.items
                &&& now.view.selected == rows.selected
                &&& now.view.current == current
                &&& now.view.pending == scanning
                &&& now.view.matched == if replaced { rows.matched } else { active.view.matched }
                &&& now.view.total == if replaced { rows.total } else { active.view.total }
                &&& now.accept_pending == (active.accept_pending && scanning && !(current && found))
                &&& active.accept_pending && !scanning && !found ==> now.view.notice
                    == if rows.notice is Empty { Notice::NoLines } else { rows.notice }
                &&& !active.accept_pending ==> now.view.notice == rows.notice
            }
        },
{
    reveal(Active::searched);
    reveal(App::preview_requested);
    reveal(Screen::accepted);
    assert(after.screen().app.picker == after.picker);
}

/// A search runs once it is due, or at once where its lines are waited for; it is
/// handed out once.
pub proof fn law_searches_wait_for_a_pause(
    before: App,
    time: Time,
    job: Option<QueryJob>,
    after: App,
)
    requires
        search_handed_out(before, time, job, after),
        before.picker.active matches Some(active) && active.source is Search,
        before.picker.search_job is Some,
    ensures
        ({
            let active = before.picker.active->0;
            let due = active.source->Search_due;
            let runs = due <= time || active.accept_pending;
            &&& job == if runs { before.picker.search_job } else { None }
            &&& after.picker.search_job == if runs { None } else { before.picker.search_job }
            &&& after.picker.active == before.picker.active
        }),
{
}

/// Esc closes the picker and keeps it for later; another key's query, selection
/// or register is dealt with as such, and a key that was let go of does nothing.
pub proof fn law_picker_keys_do_what_they_name(
    before: App,
    event: Event,
    action: Action,
    time: Time,
    room: bool,
    after: App,
    asked: Seq<Effect>,
    asks: Seq<Effect>,
    handled: (Option<bool>, Option<Target>),
)
    requires
        picker_event_taken(before, event, action, time, room, after, asked, asks, handled),
        before.picker.active matches Some(active) && !(active.source is Symbols)
            && active.revision < u64::MAX && active.preview_request < u64::MAX,
        time + 150_000_000 <= u64::MAX,
    ensures
        ({
            let active = before.picker.active->0;
            let pressed = event matches Event::Key(press) && !press.released && press.key is Some;
            &&& pressed || event is Paste ==> handled.0 == Some(true)
            &&& event is Key && !pressed || event is Mouse ==> {
                handled == (Some(false), None::<Target>) && after == before && asks == asked
            }
            &&& event is Resize || event is FocusGained || event is FocusLost ==> {
                handled == (None::<bool>, None::<Target>) && after == before && asks == asked
            }
            &&& event is Paste || pressed && (action is Query || action is Inserted) ==> {
                &&& after.picker.active matches Some(now) && asks_anew(active, now)
                &&& gives_up(asks, asked.len() as int, active)
                &&& handled.1 is None
            }
            &&& pressed && action is Cancel ==> {
                &&& puts_away(after.picker, active)
                &&& asks.len() == asked.len() + 2
                &&& gives_up(asks, asked.len() as int, active)
                &&& handled.1 is None
                &&& after.prompt == before.prompt
                &&& after.editor == before.editor
            }
            &&& pressed && action is Selection ==> {
                &&& after.picker.active matches Some(now) && now.revision == active.revision
                    && now.preview_target == if room { active.view.selected } else { None }
                &&& handled.1 is None
            }
            &&& pressed && action is Unreadable ==> {
                &&& after == (App {
                    message: Message::Failed { error: action->Unreadable_0 },
                    error: true,
                    ..before
                })
                &&& asks == asked
            }
            &&& pressed && action is Clipboard ==> {
                after == before && asks == asked.push(
                    Effect::PickerClipboard(action->Clipboard_0),
                )
            }
            &&& pressed && action is Idle ==> after == before && handled.1 is None
            &&& handled.1 is Some ==> pressed && action is Accept
        }),
{
    reveal(App::query_submitted);
    reveal(App::preview_requested);
    let active = before.picker.active->0;
    assert(asked + Seq::<Effect>::empty() =~= asked);
    if action is Clipboard {
        assert(asked + seq![Effect::PickerClipboard(action->Clipboard_0)] =~= asked.push(
            Effect::PickerClipboard(action->Clipboard_0),
        ));
    }
}

/// Accepting opens the selected entry: the picker says that nothing matches where
/// there is none, waits where the rows are those of an older query, and begins to
/// load a place itself, once it has closed.
pub proof fn law_accepting_opens_the_selected_entry(
    before: App,
    event: Event,
    time: Time,
    room: bool,
    after: App,
    asked: Seq<Effect>,
    asks: Seq<Effect>,
    handled: (Option<bool>, Option<Target>),
)
    requires
        picker_event_taken(before, event, Action::Accept, time, room, after, asked, asks, handled),
        before.picker.active matches Some(active) && !(active.source is Symbols),
        before.navigation.next < u64::MAX,
        event matches Event::Key(press) && !press.released && press.key is Some,
    ensures
        ({
            let active = before.picker.active->0;
            let old_rows = active.view.pending && (active.view.items == 0 || active.source is Jumps
                || active.source is Locations || active.source is Search && !active.view.current);
            &&& old_rows ==> handled.1 is None && (after.picker.active matches Some(now)
                && now.accept_pending && now.view == active.view) && asks == asked
            &&& !old_rows && active.view.selected is None ==> handled.1 is None && (
            after.picker.active matches Some(now) && now.view.notice is NoMatch)
            &&& !old_rows && (active.view.selected matches Some(target) && !(target is Location))
                ==> handled.1 == active.view.selected && after.picker == before.picker && asks
                == asked
            &&& !old_rows && (active.view.selected matches Some(target) && target is Location) ==> {
                &&& handled.1 is None
                &&& puts_away(after.picker, active)
                &&& after.navigation.pending is Some
                &&& after.navigation.next == before.navigation.next + 1
            }
        }),
{
    reveal(Screen::accepted);
    assert(asked + Seq::<Effect>::empty() =~= asked);
    assert(after.screen().app.picker == after.picker);
    assert(after.screen().app.navigation == after.navigation);
}

/// What was opened from a picker closes it; what could not be opened leaves it
/// open, with the reason below its rows.
pub proof fn law_pickers_close_behind_what_they_open(
    before: App,
    outcome: Result<(), Error>,
    after: App,
    asked: Seq<Effect>,
    asks: Seq<Effect>,
)
    requires
        acceptance_ended(before, outcome, after, asked, asks),
        before.picker.active is Some,
    ensures
        outcome is Ok ==> {
            &&& puts_away(after.picker, before.picker.active->0)
            &&& after.message is Empty
            &&& !after.error
            &&& asks.last() == Effect::ApplyAction
            &&& gives_up(asks, asked.len() as int, before.picker.active->0)
        },
        outcome is Err ==> {
            &&& after.picker.active matches Some(now) && (now.view.notice matches Notice::Failed(
                why,
            ) && *why == outcome->Err_0) && now.view.items == before.picker.active->0.view.items
            &&& asks == asked
            &&& after.message == before.message
        },
{
}

/// Whether a new picker is open, with a query for its own list, and the one
/// before it is kept.
pub open spec fn opens(before: App, after: App, view: Rows) -> bool {
    &&& after.picker.active matches Some(now) && now.session == before.picker.next_session + 1
        && now.revision == 1 && now.view.query == view.query && !now.cancelled
        && !now.accept_pending && (waiting_query(after.picker, now.source) matches Some(job)
        && job.session == now.session && job.revision == now.revision && job.query == Some(
        view.query,
    ))
    &&& after.picker.next_session == before.picker.next_session + 1
    &&& before.picker.active matches Some(active) ==> (after.picker.last matches Some(last)
        && last.session == active.session && last.cancelled)
    &&& after.prompt is None
    &&& after.completion.active is None
    &&& after.editor == before.editor
}

/// Pickers offer what they are named for: files of the directory, the open
/// documents, the checkpoints or the problems; the list is the one captured as
/// they open.
pub proof fn law_pickers_offer_what_they_name(
    before: App,
    view: Rows,
    directory: Result<FileId, Error>,
    workspace: bool,
    after: App,
    asked: Seq<Effect>,
    asks: Seq<Effect>,
    result: Result<(), Error>,
)
    requires
        before.picker.next_session < u64::MAX,
        before.picker.captures < u64::MAX,
    ensures
        file_picker_opened(before, view, directory, after, asked, asks) ==> match directory {
            Ok(root) => opens(before, after, view) && after.picker.active->0.source
                == (Source::Files { origin: before.editor.file, directory: root }),
            Err(error) => after == (App {
                message: Message::Failed { error },
                error: true,
                ..before
            }) && asks == asked,
        },
        buffer_picker_opened(before, view, after, asked, asks) ==> {
            &&& opens(before, after, view)
            &&& after.picker.active->0.source matches Source::Buffers { catalog }
                && asks.contains(Effect::Capture(Catalog::Buffers, catalog)) && catalog
                > before.picker.captures && after.picker.captures == catalog
        },
        jump_picker_opened(before, view, after, asked, asks) ==> {
            &&& opens(before, after, view)
            &&& after.picker.active->0.source matches Source::Jumps { captured: Some(catalog) }
                && asks.contains(Effect::Capture(Catalog::Jumps, catalog)) && catalog
                > before.picker.captures && after.picker.captures == catalog
        },
        diagnostic_picker_opened(before, workspace, view, after, asked, asks, result) ==> {
            &&& result is Ok <==> workspace || before.editor.file is Some
            &&& result is Err ==> result->Err_0 is NoFilePath && after == before && asks == asked
            &&& result is Ok ==> opens(before, after, view)
            &&& result is Ok ==> (after.picker.active->0.source matches Source::Diagnostics {
                workspace: whole,
                catalog,
                ..
            } && whole == workspace && asks.contains(Effect::Capture(Catalog::Documents, catalog))
                && after.picker.captures == catalog)
        },
{
    let at = (asked + before.prepare_effects()).len() as int;
    let catalog = (before.picker.captures + 1) as u64;
    if buffer_picker_opened(before, view, after, asked, asks) {
        assert(asks[at] == Effect::Capture(Catalog::Buffers, catalog));
    }
    if jump_picker_opened(before, view, after, asked, asks) {
        assert(asks[at] == Effect::Capture(Catalog::Jumps, catalog));
    }
    if diagnostic_picker_opened(before, workspace, view, after, asked, asks, result)
        && result is Ok {
        assert(asks[at] == Effect::Capture(Catalog::Documents, catalog));
    }
}

/// A search looks through the directory that it was begun in and keeps the
/// register of its prompt; symbols are those of the present place and are asked
/// for at once.
pub proof fn law_searches_and_symbols_begin_here(
    before: App,
    root: FileId,
    register: char,
    workspace: bool,
    view: Rows,
    time: Time,
    after: App,
    asked: Seq<Effect>,
    asks: Seq<Effect>,
)
    requires
        before.picker.next_session < u64::MAX,
        before.picker.captures < u64::MAX,
        time + 150_000_000 <= u64::MAX,
    ensures
        search_started(before, root, register, view, time, after, asked, asks) ==> {
            &&& opens(before, after, view)
            &&& after.picker.active->0.source matches Source::Search {
                root: here,
                documents,
                register: kept,
                due,
            } && here == root && kept == register && due == time + 150_000_000 && documents == Some(
                after.picker.captures,
            )
        },
        symbol_picker_opened(before, workspace, view, time, after, asked, asks) ==> {
            &&& after.picker.active matches Some(now) && now.view == view && now.session
                == before.picker.next_session + 1 && (now.source matches Source::Symbols(symbols)
                && symbols.workspace == workspace && symbols.document == before.editor.document
                && symbols.revision == before.editor.revision && symbols.file
                == before.editor.file && symbols.due == Some(time) && symbols.catalog is None)
            &&& after.message is Empty
            &&& after.prompt is None
        },
{
}

/// The picker that was closed last opens again with the query that it had, on
/// lists that are captured anew; without one that is an error.
pub proof fn law_the_last_picker_opens_again(
    before: App,
    time: Time,
    room: bool,
    after: App,
    asked: Seq<Effect>,
    asks: Seq<Effect>,
    result: Result<(), Error>,
    sort: Sort,
)
    requires
        picker_reopened(before, time, room, after, asked, asks, result),
        before.picker.next_session < u64::MAX,
        before.picker.captures < u64::MAX,
        before.picker.last matches Some(last) ==> last.revision < u64::MAX && last.preview_request
            < u64::MAX,
        before.picker.active is None,
        time + 150_000_000 <= u64::MAX,
    ensures
        before.picker.last is None ==> result == Err::<(), Error>(Error::NoPreviousPicker) && after
            == before && asks == asked,
        before.picker.last matches Some(last) ==> {
            &&& result is Ok
            &&& after.picker.last is None
            &&& after.message is Empty
            &&& after.picker.active matches Some(now) && {
                &&& now.view.query == last.view.query
                &&& now.view.selected == last.view.selected
                &&& now.session == before.picker.next_session + 1
                &&& is_list(now.source, sort) <==> is_list(last.source, sort)
                &&& !now.cancelled
                &&& !now.accept_pending
                &&& has_entries(last.source) ==> (waiting_query(after.picker, now.source) matches Some(
                    job,
                ) && job.session == now.session && job.query == Some(last.view.query))
                &&& match now.source {
                    Source::Buffers { catalog } => catalog == before.picker.captures + 1,
                    Source::Jumps { captured } => captured == Some(
                        (before.picker.captures + 1) as u64,
                    ) && now.view.pending,
                    Source::Search { documents, .. } => documents == Some(
                        (before.picker.captures + 1) as u64,
                    ) && now.source->Search_root == last.source->Search_root,
                    Source::Locations { document, revision, .. } => document
                        == before.editor.document && revision == before.editor.revision
                        && now.view.pending,
                    _ => after.picker.captures == before.picker.captures,
                }
            }
        },
{
    reveal(App::reopened);
    reveal(App::reopened_query);
    reveal(App::query_submitted);
    reveal(App::preview_requested);
}

} // verus!
