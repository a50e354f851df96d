//! Queries, previews and acceptance, shared by every picker.

use crate::app::App;
use crate::editor::{FileId, Time};
use crate::effect::{ClipboardKind, Effect, Job};
use crate::error::Error;
use crate::language::same_id;
use crate::picker::{
    Active, Notice, Position, PreviewJob, PreviewState, Rows, Source, State, Target,
};
use crate::symbols::QUERY_DELAY;
use crate::windows::Screen;
use std::sync::Arc;
use vstd::prelude::*;

verus! {

/// What a picker's view makes of a key.
#[derive(Debug)]
pub enum Action {
    /// Nothing that matters here.
    Idle,
    Cancel,
    /// The query has changed.
    Query,
    /// Another entry is selected.
    Selection,
    Accept,
    /// A clipboard is to be inserted into the query.
    Clipboard(ClipboardKind),
    /// A register was inserted into the query.
    Inserted,
    /// The register to insert could not be read.
    Unreadable(Error),
}

/// Rows that a worker has ranked.
#[derive(Debug)]
pub struct Ranked {
    pub session: u64,
    pub revision: u64,
    pub items: usize,
    pub selected: Option<Target>,
    pub matched: usize,
    pub total: usize,
    pub notice: Notice,
}

/// Whether two targets, where there are any, are the same.
fn same_target(a: Option<Target>, b: Option<Target>) -> (same: bool)
    ensures
        same == (a == b),
{
    match (a, b) {
        (Some(a), Some(b)) => a == b,
        (None, None) => true,
        _ => false,
    }
}

impl Active {
    /// Whether rows are those of the present query.
    pub open spec fn awaits(self, session: u64, revision: u64) -> bool {
        self.session == session && self.revision == revision && !self.cancelled
    }

    /// The picker with the rows of its query.
    pub open spec fn ranked(self, rows: Ranked, pending: bool) -> Active {
        Active {
            view: Rows {
                items: rows.items,
                selected: rows.selected,
                matched: rows.matched,
                total: rows.total,
                notice: rows.notice,
                pending,
                ..self.view
            },
            ..self
        }
    }

    pub fn awaiting(&self, rows: &Ranked) -> (yes: bool)
        ensures
            yes == self.awaits(rows.session, rows.revision),
    {
        self.session == rows.session && self.revision == rows.revision && !self.cancelled
    }

    pub fn show(&mut self, rows: Ranked, pending: bool)
        ensures
            *final(self) == old(self).ranked(rows, pending),
    {
        self.view.items = rows.items;
        self.view.selected = rows.selected;
        self.view.matched = rows.matched;
        self.view.total = rows.total;
        self.view.notice = rows.notice;
        self.view.pending = pending;
    }
}

/// The preview of a target as a job. A target in a buffer has none once the
/// buffer is closed.
pub open spec fn preview_of(
    screen: Screen,
    target: Target,
    session: u64,
    request: u64,
) -> Option<PreviewJob> {
    let job = PreviewJob { session, request, target, position: None };
    match target {
        Target::Jump(location) => if screen.is_open(location.document) && location.line
            <= u32::MAX {
            Some(
                PreviewJob {
                    position: Some(Position { line: location.line as u32, character: 0 }),
                    ..job
                },
            )
        } else {
            None
        },
        Target::Buffer(id) => if screen.is_open(id) { Some(job) } else { None },
        Target::File(_) => Some(job),
        Target::Directory(_) => Some(job),
        Target::Symbol(_, position) => Some(PreviewJob { position: Some(position), ..job }),
        Target::Location(destination) => Some(
            PreviewJob { position: Some(destination.start), ..job },
        ),
        Target::Search(hit) => Some(
            PreviewJob {
                position: Some(Position { line: hit.first_line as u32, character: 0 }),
                ..job
            },
        ),
    }
}

impl App {
    /// What the preview is to show: the selected entry, where there is room
    /// for a preview.
    pub open spec fn preview_wanted(self, room: bool) -> Option<Target> {
        match self.picker.active {
            Some(active) => if room { active.view.selected } else { None },
            None => None,
        }
    }

    /// Whether the preview shows something else than it is to show.
    pub open spec fn preview_changes(self, room: bool) -> bool {
        match self.picker.active {
            Some(active) => self.preview_wanted(room) != active.preview_target,
            None => false,
        }
    }

    /// The application that asks for another preview.
    #[verifier::opaque]
    pub open spec fn preview_requested(self, screen: Screen, room: bool) -> App {
        if self.preview_changes(room) {
            let active = self.picker.active->0;
            let target = self.preview_wanted(room);
            let request = (active.preview_request + 1) as u64;
            let app = self.with_picker(
                Active {
                    preview_cancelled: false,
                    preview_request: request,
                    preview_target: target,
                    view: Rows {
                        preview: if target is Some {
                            PreviewState::Loading
                        } else {
                            PreviewState::Empty
                        },
                        ..active.view
                    },
                    ..active
                },
            );
            App {
                picker: State {
                    preview_job: match target {
                        Some(target) => preview_of(screen, target, active.session, request),
                        None => None,
                    },
                    ..app.picker
                },
                ..app
            }
        } else {
            self
        }
    }

    /// What asking for another preview gives up.
    pub open spec fn preview_effects(self, room: bool) -> Seq<Effect> {
        if self.preview_changes(room) {
            let active = self.picker.active->0;
            seq![Effect::Cancel(Job::Preview(active.session, active.preview_request))]
        } else {
            seq![]
        }
    }

    /// Asks for the preview of the selected entry, where `room` is left for
    /// one and it is not shown already.
    pub fn request_picker_preview(&mut self, room: bool, out: &mut Vec<Effect>)
        requires
            old(self).picker.active is Some ==> old(self).picker.active->0.preview_request
                < u64::MAX,
        ensures
            *final(self) == old(self).preview_requested(old(self).screen(), room),
            final(out)@ == old(out)@ + old(self).preview_effects(room),
    {
        proof {
            reveal(App::preview_requested);
        }
        assert(out@ =~= old(out)@ + Seq::<Effect>::empty());
        let (target, session, request) = match &mut self.picker.active {
            Some(active) => {
                let target = if room { active.view.selected } else { None };
                if same_target(target, active.preview_target) {
                    return;
                }
                out.push(Effect::Cancel(Job::Preview(active.session, active.preview_request)));
                active.preview_cancelled = false;
                active.preview_request = active.preview_request + 1;
                active.preview_target = target;
                active.view.preview = if target.is_some() {
                    PreviewState::Loading
                } else {
                    PreviewState::Empty
                };
                (target, active.session, active.preview_request)
            },
            None => {
                return;
            },
        };
        assert(out@ =~= old(out)@ + old(self).preview_effects(room));
        self.picker.preview_job = match target {
            Some(target) => self.preview_job(target, session, request),
            None => None,
        };
    }

    fn preview_job(&self, target: Target, session: u64, request: u64) -> (job: Option<PreviewJob>)
        ensures
            job == preview_of(self.screen(), target, session, request),
    {
        let job = PreviewJob { session, request, target, position: None };
        match target {
            Target::Jump(location) => if self.document_open(location.document) && location.line
                <= u32::MAX as usize {
                Some(
                    PreviewJob {
                        position: Some(Position { line: location.line as u32, character: 0 }),
                        ..job
                    },
                )
            } else {
                None
            },
            Target::Buffer(id) => if self.document_open(id) { Some(job) } else { None },
            Target::File(_) => Some(job),
            Target::Directory(_) => Some(job),
            Target::Symbol(_, position) => Some(PreviewJob { position: Some(position), ..job }),
            Target::Location(destination) => Some(
                PreviewJob { position: Some(destination.start), ..job },
            ),
            Target::Search(hit) => Some(
                PreviewJob {
                    position: Some(
                        Position { line: #[verifier::truncate] (hit.first_line as u32), character: 0 },
                    ),
                    ..job
                },
            ),
        }
    }

    /// The application after the query of a workspace search changed: it runs
    /// once typing pauses.
    pub open spec fn search_submitted(self, now: Time) -> App {
        let active = self.picker.active->0.requeried();
        let active = Active {
            source: match active.source {
                Source::Search { root, documents, register, due } => Source::Search {
                    root,
                    documents,
                    register,
                    due: (now + QUERY_DELAY) as u64,
                },
                other => other,
            },
            view: Rows { current: false, ..active.view },
            ..active
        };
        App {
            picker: State {
                active: Some(active),
                preview_job: None,
                search_job: Some(active.job()),
                ..self.picker
            },
            ..self
        }
    }

    /// Whether the open picker is a workspace search.
    pub open spec fn searching(self) -> bool {
        match self.picker.active {
            Some(active) => active.source is Search,
            None => false,
        }
    }

    pub fn workspace_search_active(&self) -> (active: bool)
        ensures
            active == self.searching(),
    {
        match &self.picker.active {
            Some(active) => match &active.source {
                Source::Search { .. } => true,
                _ => false,
            },
            None => false,
        }
    }

    pub fn submit_workspace_query(&mut self, now: Time, out: &mut Vec<Effect>)
        requires
            old(self).searching(),
            old(self).picker.active->0.revision < u64::MAX,
            now + QUERY_DELAY <= u64::MAX,
        ensures
            *final(self) == old(self).search_submitted(now),
            final(out)@ == old(out)@ + old(self).picker.active->0.cancel_effects().push(
                Effect::BeginUpdate,
            ),
    {
        let active = match &mut self.picker.active {
            Some(active) => active,
            None => {
                return;
            },
        };
        active.push_cancel(out);
        active.cancelled = false;
        active.preview_cancelled = true;
        active.revision = active.revision + 1;
        active.preview_target = None;
        active.accept_pending = false;
        active.view.current = false;
        out.push(Effect::BeginUpdate);
        match &mut active.source {
            Source::Search { root, documents, register, due } => {
                *due = now + QUERY_DELAY;
            },
            _ => {},
        }
        self.picker.preview_job = None;
        self.picker.search_job = Some(active.query_job());
        assert(out@ =~= old(out)@ + old(self).picker.active->0.cancel_effects().push(
            Effect::BeginUpdate,
        ));
    }

    /// The application after the query of its picker changed.
    #[verifier::opaque]
    pub open spec fn query_submitted(self, now: Time) -> App {
        if self.searching() {
            self.search_submitted(now)
        } else if self.symbol_source() is Some {
            self.symbol_query_submitted(now)
        } else {
            self.ranking_submitted()
        }
    }

    /// What changing the query asks for.
    pub open spec fn query_effects(self) -> Seq<Effect> {
        if self.searching() {
            self.picker.active->0.cancel_effects().push(Effect::BeginUpdate)
        } else if self.symbol_source() is Some {
            self.symbol_query_effects()
        } else {
            self.picker.active->0.cancel_effects()
        }
    }

    /// Takes the new query of the picker. Whatever was asked for before is
    /// given up.
    pub fn submit_picker_query(&mut self, now: Time, out: &mut Vec<Effect>)
        requires
            old(self).picker.active is Some,
            old(self).picker.active->0.revision < u64::MAX,
            now + QUERY_DELAY <= u64::MAX,
        ensures
            *final(self) == old(self).query_submitted(now),
            final(out)@ == old(out)@ + old(self).query_effects(),
            final(self).picker.active is Some,
            final(self).picker.active->0.preview_request
                == old(self).picker.active->0.preview_request,
            final(self).editor == old(self).editor,
            final(self).windows == old(self).windows,
            final(self).completion == old(self).completion,
            final(self).actions == old(self).actions || final(self).actions
                == crate::actions::State::idle(),
    {
        proof {
            reveal(App::query_submitted);
        }
        if self.workspace_search_active() {
            self.submit_workspace_query(now, out);
        } else if self.symbol_picker_active() {
            self.submit_symbol_query(now, out);
        } else {
            self.submit_ranking(out);
        }
    }

    /// The entry that accepting opens, where another component has to.
    pub open spec fn picked(self) -> Option<Target> {
        match self.picker.active {
            Some(active) => match active.view.selected {
                Some(Target::Location(_)) => None,
                other => other,
            },
            None => None,
        }
    }

    /// The application after its picker was accepted: without an entry it says
    /// so, and the loading of a location begins once the picker is closed, so
    /// that closing it cannot give up the load.
    pub open spec fn picker_accepted(self) -> App {
        match self.picker.active {
            Some(active) => match active.view.selected {
                Some(Target::Location(destination)) => self.picker_closed().navigation_begun(
                    destination,
                ),
                Some(_) => self,
                None => self.with_picker(
                    Active { view: Rows { notice: Notice::NoMatch, ..active.view }, ..active },
                ),
            },
            None => self,
        }
    }

    /// What accepting the picker asks for.
    pub open spec fn accept_effects(self) -> Seq<Effect> {
        match self.picker.active {
            Some(active) => match active.view.selected {
                Some(Target::Location(_)) => self.close_effects()
                    + self.picker_closed().navigation.cancel_effects(),
                _ => seq![],
            },
            None => seq![],
        }
    }

    /// Accepts the selected entry. Returns it where another component opens
    /// it; `finish_accept` then ends the matter.
    pub fn accept_picker(&mut self, out: &mut Vec<Effect>) -> (target: Option<Target>)
        requires
            old(self).screen().valid(),
            old(self).navigation.next < u64::MAX,
        ensures
            target == old(self).picked(),
            final(self).is(old(self).screen().accepted()),
            final(out)@ == old(out)@ + old(self).accept_effects(),
    {
        proof {
            reveal(Screen::accepted);
        }
        assert(out@ =~= old(out)@ + Seq::<Effect>::empty());
        let selected = match &mut self.picker.active {
            Some(active) => {
                if active.view.selected.is_none() {
                    active.view.notice = Notice::NoMatch;
                    return None;
                }
                active.view.selected
            },
            None => {
                return None;
            },
        };
        match selected {
            Some(Target::Location(destination)) => {
                self.close_picker(out);
                self.begin_location_navigation(destination, out);
                assert(out@ =~= old(out)@ + old(self).accept_effects());
                None
            },
            Some(Target::Buffer(id)) => {
                if id != self.editor.document {
                    self.record_jump();
                }
                selected
            },
            _ => selected,
        }
    }

    /// Ends the opening of the accepted entry: the picker closes, or says why
    /// it could not be opened.
    pub fn finish_accept(&mut self, outcome: Result<(), Error>, out: &mut Vec<Effect>)
        requires
            outcome is Err ==> old(self).picker.active is Some,
        ensures
            acceptance_ended(*old(self), outcome, *final(self), old(out)@, final(out)@),
    {
        match outcome {
            Ok(()) => {
                self.close_picker(out);
                self.clear_message();
                out.push(Effect::ApplyAction);
                assert(out@ =~= old(out)@ + old(self).close_effects().push(Effect::ApplyAction));
            },
            Err(error) => match &mut self.picker.active {
                Some(active) => {
                    active.view.notice = Notice::Failed(Arc::new(error));
                },
                None => {},
            },
        }
    }

    /// Whether a picked file still has to be opened. `is_file` says what stands
    /// at its path now: an outdated entry must not become an unrelated empty
    /// buffer.
    pub fn open_picked_file(&self, file: FileId, is_file: Result<bool, Error>) -> (open: Result<
        bool,
        Error,
    >)
        ensures
            picked_file_checked(*self, file, is_file, open),
    {
        if same_id(self.editor.file, Some(file)) {
            return Ok(false);
        }
        match is_file {
            Ok(true) => Ok(true),
            Ok(false) => Err(Error::PickedNotAFile),
            Err(error) => Err(error),
        }
    }
}

impl Screen {
    /// The screen after its picker was accepted; going to another buffer
    /// records the place before.
    #[verifier::opaque]
    pub open spec fn accepted(self) -> Screen {
        let leaves = match self.app.picked() {
            Some(Target::Buffer(id)) => id != self.app.editor.document,
            _ => false,
        };
        let screen = if leaves { self.recorded(self.spot()) } else { self };
        Screen { app: screen.app.picker_accepted(), ..screen }
    }

    /// The screen after rows were shown: a picker whose acceptance waited for
    /// them is accepted, and otherwise the preview follows.
    pub open spec fn settled(self, accept: bool, room: bool) -> Screen {
        if accept {
            let active = self.app.picker.active->0;
            Screen {
                app: self.app.with_picker(Active { accept_pending: false, ..active }),
                ..self
            }.accepted()
        } else {
            Screen { app: self.app.preview_requested(self, room), ..self }
        }
    }
}

impl App {
    /// What showing rows asks for.
    pub open spec fn settle_effects(self, accept: bool, room: bool) -> Seq<Effect> {
        if accept { self.accept_effects() } else { self.preview_effects(room) }
    }

    /// Goes on after rows were shown.
    pub(crate) fn settle(&mut self, accept: bool, room: bool, out: &mut Vec<Effect>) -> (target:
        Option<Target>)
        requires
            old(self).screen().valid(),
            old(self).navigation.next < u64::MAX,
            old(self).picker.active is Some,
            old(self).picker.active->0.preview_request < u64::MAX,
        ensures
            target == if accept { old(self).picked() } else { None },
            final(self).is(old(self).screen().settled(accept, room)),
            final(out)@ == old(out)@ + old(self).settle_effects(accept, room),
    {
        if accept {
            match &mut self.picker.active {
                Some(active) => {
                    active.accept_pending = false;
                },
                None => {},
            }
            assert(self.screen() == (Screen {
                app: old(self).screen().app.with_picker(
                    Active { accept_pending: false, ..old(self).picker.active->0 },
                ),
                ..old(self).screen()
            }));
            self.accept_picker(out)
        } else {
            proof {
                lemma_preview_screen(*self, room);
            }
            self.request_picker_preview(room, out);
            None
        }
    }
}

/// The preview depends on the lists of the screen only through what is open.
proof fn lemma_preview_screen(app: App, room: bool)
    ensures
        app.preview_requested(app.screen(), room).screen() == (Screen {
            app: app.screen().app.preview_requested(app.screen(), room),
            ..app.screen()
        }),
{
    reveal(App::preview_requested);
}

/// Whether the opening of the accepted entry was ended as it should be.
pub open spec fn acceptance_ended(
    before: App,
    outcome: Result<(), Error>,
    now: App,
    asked: Seq<Effect>,
    asks: Seq<Effect>,
) -> bool {
    match outcome {
        Ok(()) => {
            &&& now == before.picker_closed().cleared()
            &&& asks == asked + before.close_effects().push(
                Effect::ApplyAction,
            )
        },
        Err(error) => {
            let active = before.picker.active->0;
            &&& now == before.with_picker(
                Active {
                    view: Rows { notice: Notice::Failed(Arc::new(error)), ..active.view },
                    ..active
                },
            )
            &&& asks == asked
        },
    }
}

/// Whether a picked file is opened or refused as it should be.
pub open spec fn picked_file_checked(
    before: App,
    file: FileId,
    is_file: Result<bool, Error>,
    open: Result<bool, Error>,
) -> bool {
    open == if before.editor.file == Some(file) {
        Ok::<bool, Error>(false)
    } else {
        match is_file {
            Ok(true) => Ok::<bool, Error>(true),
            Ok(false) => Err::<bool, Error>(Error::PickedNotAFile),
            Err(error) => Err::<bool, Error>(error),
        }
    }
}

} // verus!
