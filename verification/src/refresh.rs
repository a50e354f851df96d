//! Keeping the lists of open pickers up with edits, and what accepting their
//! entries checks.

use crate::app::App;
use crate::editor::{FileId, Snapshot, Time};
use crate::effect::Effect;
use crate::error::Error;
use crate::jumps::Jump;
use crate::message::Message;
use crate::picker::{
    Active, Catalog, Destination, JumpLocation, Rows, Source, State, Target,
};
use crate::picking::Ranked;
use crate::selection::{DocumentId, Revision};
use crate::sources::Sort;
use crate::symbols::QUERY_DELAY;
use crate::text::lowercase;
use crate::windows::{find_buffer, Screen};
use vstd::prelude::*;

verus! {

/// The locations that a server found.
#[derive(Debug)]
pub struct Found {
    /// How many of them can be opened, and the first of these.
    pub items: usize,
    pub first: Destination,
    /// Whether there are more.
    pub limited: bool,
    /// How many cannot be opened.
    pub skipped: u64,
}

/// A problem offered by the diagnostic picker.
#[derive(Clone, Copy, Debug, PartialEq, Eq, Structural)]
pub struct Problem {
    pub destination: Destination,
    /// The version of the open document that the problem was found in.
    pub version: Option<Snapshot>,
}

impl Screen {
    /// The revision of an open document.
    pub open spec fn revision_of(self, document: DocumentId) -> Option<Revision> {
        if document == self.app.editor.document {
            Some(self.app.editor.revision)
        } else if find_buffer(self.buffers, document) < self.buffers.len() {
            Some(self.buffers[find_buffer(self.buffers, document)].editor.revision)
        } else {
            None
        }
    }

    /// The text of an open file as it is now.
    pub open spec fn snapshot_of(self, file: FileId) -> Option<Snapshot> {
        match self.document_of(Some(file)) {
            Some(document) => Some(
                Snapshot {
                    document,
                    revision: if self.app.editor.file == Some(file) {
                        self.app.editor.revision
                    } else {
                        self.buffers[crate::travel::find_file(
                            self.buffers,
                            Some(file),
                        )].editor.revision
                    },
                },
            ),
            None => None,
        }
    }

    /// Whether a problem is still where it was found: its document has not
    /// changed, or, where the problem was found in the file, is not open or not
    /// edited.
    pub open spec fn still_there(self, problem: Problem) -> bool {
        match (problem.version, self.snapshot_of(problem.destination.file)) {
            (Some(found), Some(now)) => found == now,
            (Some(_), None) => false,
            (None, Some(now)) => now.revision == 0,
            (None, None) => true,
        }
    }
}

impl App {
    /// The application whose picker asks for its rows again, with a newly
    /// captured list; acceptance that waits goes on waiting.
    pub open spec fn refreshed(self, source: Source, pending: bool, now: Time) -> App {
        let active = self.picker.active->0;
        let app = self.captured().with_picker(
            Active {
                source,
                view: Rows { pending: pending || active.view.pending, ..active.view },
                ..active
            },
        ).query_submitted(now);
        app.with_picker(
            Active { accept_pending: active.accept_pending, ..app.picker.active->0 },
        )
    }

    fn refresh_with(
        &mut self,
        source: Source,
        pending: bool,
        now: Time,
        out: &mut Vec<Effect>,
    )
        requires
            old(self).picker.active is Some,
            old(self).picker.active->0.revision < u64::MAX,
            now + QUERY_DELAY <= u64::MAX,
        ensures
            ({
                let active = old(self).picker.active->0;
                let before = old(self).with_picker(
                    Active {
                        source,
                        view: Rows { pending: pending || active.view.pending, ..active.view },
                        ..active
                    },
                );
                let app = before.query_submitted(now);
                &&& *final(self) == app.with_picker(
                    Active { accept_pending: active.accept_pending, ..app.picker.active->0 },
                )
                &&& final(out)@ == old(out)@ + before.query_effects()
            }),
            final(self).completion == old(self).completion,
            final(self).actions == old(self).actions || final(self).actions
                == crate::actions::State::idle(),
    {
        let accept = match &mut self.picker.active {
            Some(active) => {
                active.source = source;
                if pending {
                    active.view.pending = true;
                }
                active.accept_pending
            },
            None => false,
        };
        self.submit_picker_query(now, out);
        match &mut self.picker.active {
            Some(active) => {
                active.accept_pending = accept;
            },
            None => {},
        }
    }

    /// Whether the open picker offers checkpoints.
    pub open spec fn jump_picking(self) -> bool {
        self.picker.active matches Some(active) && active.source is Jumps
    }

    /// Captures the checkpoints anew after an edit of a document that some of
    /// them lie in, as `listed` says. Early Enter waits for the new rows too.
    pub fn refresh_jump_picker(
        &mut self,
        listed: bool,
        now: Time,
        out: &mut Vec<Effect>,
    ) -> (refreshed: bool)
        requires
            old(self).picker.active is Some ==> old(self).picker.active->0.revision < u64::MAX,
            old(self).picker.captures < u64::MAX,
            now + QUERY_DELAY <= u64::MAX,
        ensures
            refreshed == (old(self).jump_picking() && listed),
            if refreshed {
                let catalog = (old(self).picker.captures + 1) as u64;
                let source = Source::Jumps { captured: Some(catalog) };
                &&& *final(self) == old(self).refreshed(source, true, now)
                &&& final(out)@ == old(out)@ + seq![
                    Effect::Capture(Catalog::Jumps, catalog),
                    Effect::ResumeRows,
                ] + old(self).picker.active->0.cancel_effects()
            } else {
                *final(self) == *old(self) && final(out)@ == old(out)@
            },
    {
        let offered = match &self.picker.active {
            Some(active) => match &active.source {
                Source::Jumps { .. } => true,
                _ => false,
            },
            None => false,
        };
        if !offered || !listed {
            return false;
        }
        let catalog = self.capture(Catalog::Jumps, out);
        out.push(Effect::ResumeRows);
        assert(out@ =~= old(out)@ + seq![
            Effect::Capture(Catalog::Jumps, catalog),
            Effect::ResumeRows,
        ]);
        self.refresh_with(Source::Jumps { captured: Some(catalog) }, true, now, out);
        true
    }

    /// Searches the workspace anew after an edit.
    pub fn refresh_workspace_search(&mut self, now: Time, out: &mut Vec<Effect>)
        requires
            old(self).searching(),
            old(self).picker.active->0.revision < u64::MAX,
            old(self).picker.captures < u64::MAX,
            now + QUERY_DELAY <= u64::MAX,
        ensures
            ({
                let catalog = (old(self).picker.captures + 1) as u64;
                let source = match old(self).picker.active->0.source {
                    Source::Search { root, documents, register, due } => Source::Search {
                        root,
                        documents: Some(catalog),
                        register,
                        due,
                    },
                    other => other,
                };
                &&& *final(self) == old(self).refreshed(source, false, now)
                &&& final(out)@ == old(out)@ + seq![
                    Effect::Capture(Catalog::Documents, catalog),
                    Effect::ResumeRows,
                ] + old(self).picker.active->0.cancel_effects().push(Effect::BeginUpdate)
            }),
    {
        let catalog = self.capture(Catalog::Documents, out);
        out.push(Effect::ResumeRows);
        assert(out@ =~= old(out)@ + seq![
            Effect::Capture(Catalog::Documents, catalog),
            Effect::ResumeRows,
        ]);
        let source = match &self.picker.active {
            Some(active) => match &active.source {
                Source::Search { root, documents, register, due } => Source::Search {
                    root: *root,
                    documents: Some(catalog),
                    register: *register,
                    due: *due,
                },
                _ => {
                    return;
                },
            },
            None => {
                return;
            },
        };
        self.refresh_with(source, false, now, out);
    }

    /// Whether the preview shows a document.
    pub open spec fn previews(self, screen: Screen, document: DocumentId) -> bool {
        match self.picker.active {
            Some(active) => match active.preview_target {
                Some(Target::Buffer(id)) => id == document,
                Some(Target::File(file)) | Some(Target::Symbol(file, _)) => screen.document_of(
                    Some(file),
                ) == Some(document),
                Some(Target::Location(destination)) => screen.document_of(
                    Some(destination.file),
                ) == Some(document),
                _ => false,
            },
            None => false,
        }
    }

    fn shows_document(&self, document: DocumentId) -> (shows: bool)
        ensures
            shows == self.previews(self.screen(), document),
    {
        let target = match &self.picker.active {
            Some(active) => active.preview_target,
            None => None,
        };
        let file = match target {
            Some(Target::Buffer(id)) => {
                return id == document;
            },
            Some(Target::File(file)) => file,
            Some(Target::Symbol(file, _)) => file,
            Some(Target::Location(destination)) => destination.file,
            _ => {
                return false;
            },
        };
        match self.document_with_file(Some(file)) {
            Some(found) => found == document,
            None => false,
        }
    }

    /// What keeping up with an edit asks for.
    pub open spec fn picker_refresh_effects(
        self,
        document: DocumentId,
        listed: bool,
        room: bool,
    ) -> Seq<Effect> {
        let catalog = (self.picker.captures + 1) as u64;
        let active = self.picker.active->0;
        if self.jump_picking() && listed {
            seq![Effect::Capture(Catalog::Jumps, catalog), Effect::ResumeRows]
                + active.cancel_effects()
        } else if self.searching() {
            seq![Effect::Capture(Catalog::Documents, catalog), Effect::ResumeRows]
                + active.cancel_effects().push(Effect::BeginUpdate)
        } else if self.previews(self.screen(), document) {
            self.with_picker(Active { preview_target: None, ..active }).preview_effects(room)
        } else {
            seq![]
        }
    }

    /// Lets the open picker keep up with an edit of a document.
    pub fn refresh_picker_buffer(
        &mut self,
        document: DocumentId,
        listed: bool,
        room: bool,
        now: Time,
        out: &mut Vec<Effect>,
    )
        requires
            old(self).picker.active is Some ==> old(self).picker.active->0.revision < u64::MAX
                && old(self).picker.active->0.preview_request < u64::MAX,
            old(self).picker.captures < u64::MAX,
            now + QUERY_DELAY <= u64::MAX,
        ensures
            buffer_refreshed(
                *old(self),
                document,
                listed,
                room,
                now,
                *final(self),
            ),
            final(out)@ == old(out)@ + old(self).picker_refresh_effects(document, listed, room),
    {
        assert(old(out)@ + Seq::<Effect>::empty() =~= old(out)@);
        if self.refresh_jump_picker(listed, now, out) {
            assert(out@ =~= old(out)@ + old(self).picker_refresh_effects(document, listed, room));
            return;
        }
        if self.workspace_search_active() {
            self.refresh_workspace_search(now, out);
            assert(out@ =~= old(out)@ + old(self).picker_refresh_effects(document, listed, room));
            return;
        }
        if self.shows_document(document) {
            match &mut self.picker.active {
                Some(active) => {
                    active.preview_target = None;
                },
                None => {},
            }
            let ghost reset = *self;
            self.request_picker_preview(room, out);
            proof {
                crate::pickers::lemma_preview_same(
                    reset,
                    reset.screen(),
                    old(self).screen(),
                    room,
                );
            }
        }
    }

    /// The revision of an open document.
    pub fn document_revision(&self, document: DocumentId) -> (revision: Option<Revision>)
        ensures
            revision == self.screen().revision_of(document),
    {
        if document == self.editor.document {
            return Some(self.editor.revision);
        }
        let i = self.buffer_index(document);
        if i < self.windows.buffers.len() {
            Some(self.windows.buffers[i].editor.revision)
        } else {
            None
        }
    }

    /// Whether a checkpoint can be gone to: its buffer is open and has not
    /// changed since it was listed. One that has changed is listed anew.
    pub fn accept_jump_location(
        &mut self,
        location: JumpLocation,
        listed: bool,
        now: Time,
        out: &mut Vec<Effect>,
    ) -> (origin: Result<Jump, Error>)
        requires
            old(self).picker.active is Some ==> old(self).picker.active->0.revision < u64::MAX,
            old(self).picker.captures < u64::MAX,
            now + QUERY_DELAY <= u64::MAX,
        ensures
            jump_location_accepted(
                *old(self),
                location,
                listed,
                now,
                *final(self),
                old(out)@,
                final(out)@,
                origin,
            ),
    {
        match self.document_revision(location.document) {
            None => Err(Error::JumpBufferClosed),
            Some(revision) => if revision != location.revision {
                self.refresh_jump_picker(listed, now, out);
                Err(Error::JumpBufferChanged)
            } else {
                Ok(self.current_jump())
            },
        }
    }

    /// Whether the open picker offers problems.
    pub open spec fn problem_picking(self) -> bool {
        self.picker.active matches Some(active) && active.source is Diagnostics
    }

    /// Whether the open picker's problems are to be asked for again: forced, or
    /// since the servers reported others.
    pub open spec fn problems_outdated(self, force: bool) -> bool {
        match self.picker.active {
            Some(active) => match active.source {
                Source::Diagnostics { workspace, catalog, generation } => force || generation
                    != self.language.catalog_generation,
                _ => false,
            },
            None => false,
        }
    }

    /// Where the refreshed problems come from: documents are captured anew
    /// where the refresh is forced.
    pub open spec fn refreshed_problems(self, force: bool) -> Source {
        match self.picker.active->0.source {
            Source::Diagnostics { workspace, catalog, generation } => Source::Diagnostics {
                workspace,
                catalog: if force { (self.picker.captures + 1) as u64 } else { catalog },
                generation,
            },
            other => other,
        }
    }

    /// The application whose problem picker, where one is open, asks for its
    /// rows again where they are outdated.
    pub open spec fn problems_refreshed(self, force: bool, now: Time) -> App {
        if self.problems_outdated(force) {
            let active = self.picker.active->0;
            let base = if force { self.captured() } else { self };
            let app = base.with_picker(
                Active { source: self.refreshed_problems(force), ..active },
            ).query_submitted(now);
            app.with_picker(
                Active { accept_pending: active.accept_pending, ..app.picker.active->0 },
            )
        } else {
            self
        }
    }

    /// What refreshing the problem picker asks for.
    pub open spec fn problem_refresh_effects(self, force: bool) -> Seq<Effect> {
        if self.problems_outdated(force) {
            (if force {
                seq![Effect::Capture(Catalog::Documents, (self.picker.captures + 1) as u64)]
            } else {
                seq![]
            }) + self.picker.active->0.cancel_effects()
        } else {
            seq![]
        }
    }

    #[verifier::rlimit(40)]
    pub fn refresh_diagnostic_picker(
        &mut self,
        force: bool,
        now: Time,
        out: &mut Vec<Effect>,
    ) -> (open: bool)
        requires
            old(self).picker.active is Some ==> old(self).picker.active->0.revision < u64::MAX,
            old(self).picker.captures < u64::MAX,
            now + QUERY_DELAY <= u64::MAX,
        ensures
            open == old(self).problem_picking(),
            *final(self) == old(self).problems_refreshed(force, now),
            final(out)@ == old(out)@ + old(self).problem_refresh_effects(force),
            final(self).completion == old(self).completion,
            final(self).actions == old(self).actions || final(self).actions
                == crate::actions::State::idle(),
    {
        assert(out@ =~= old(out)@ + Seq::<Effect>::empty());
        let (workspace, catalog, generation) = match &self.picker.active {
            Some(active) => match &active.source {
                Source::Diagnostics { workspace, catalog, generation } => (
                    *workspace,
                    *catalog,
                    *generation,
                ),
                _ => {
                    return false;
                },
            },
            None => {
                return false;
            },
        };
        if !force && generation == self.language.catalog_generation {
            return true;
        }
        let catalog = if force { self.capture(Catalog::Documents, out) } else { catalog };
        self.refresh_with(
            Source::Diagnostics { workspace, catalog, generation },
            false,
            now,
            out,
        );
        assert(out@ =~= old(out)@ + old(self).problem_refresh_effects(force));
        true
    }

    /// Takes the ranked problems of a diagnostic picker. Those of an older
    /// report are asked for again.
    pub fn handle_diagnostic_result(
        &mut self,
        rows: Ranked,
        generation: u64,
        room: bool,
        now: Time,
        out: &mut Vec<Effect>,
    ) -> (taken: (bool, Option<Target>))
        requires
            old(self).screen().valid(),
            old(self).navigation.next < u64::MAX,
            old(self).picker.active is Some ==> old(self).picker.active->0.preview_request
                < u64::MAX && old(self).picker.active->0.revision < u64::MAX,
            old(self).picker.captures < u64::MAX,
            now + QUERY_DELAY <= u64::MAX,
        ensures
            problems_taken(
                *old(self),
                rows,
                generation,
                room,
                now,
                *final(self),
                old(out)@,
                final(out)@,
                taken,
            ),
    {
        let current = match &self.picker.active {
            Some(active) => {
                let offered = match &active.source {
                    Source::Diagnostics { .. } => true,
                    _ => false,
                };
                offered && active.awaiting(&rows)
            },
            None => false,
        };
        if !current {
            return (false, None);
        }
        if generation != self.language.catalog_generation {
            self.refresh_diagnostic_picker(true, now, out);
            return (true, None);
        }
        self.receive_rows(Sort::Diagnostics, rows, false, room, out)
    }

    /// Goes to a picked problem, or asks for the problems again where the
    /// document has changed since.
    pub fn accept_diagnostic(&mut self, problem: Problem, now: Time, out: &mut Vec<Effect>)
        requires
            old(self).navigation.next < u64::MAX,
            old(self).picker.active is Some ==> old(self).picker.active->0.revision < u64::MAX,
            old(self).picker.captures < u64::MAX,
            now + QUERY_DELAY <= u64::MAX,
        ensures
            problem_accepted(*old(self), problem, now, *final(self), old(out)@, final(out)@),
    {
        let current = self.snapshot_for_path(problem.destination.file);
        let valid = match (problem.version, current) {
            (Some(found), Some(now)) => found == now,
            (Some(_), None) => false,
            (None, Some(now)) => now.revision == 0,
            (None, None) => true,
        };
        if !valid {
            self.refresh_diagnostic_picker(true, now, out);
            return;
        }
        self.close_picker(out);
        self.begin_location_navigation(problem.destination, out);
    }

    /// Remembers the query of a search whose hit was opened.
    pub fn accept_workspace_hit(&mut self, out: &mut Vec<Effect>)
        requires
            old(self).searching(),
            old(self).prompt_history.valid(),
        ensures
            hit_remembered(*old(self), *final(self), old(out)@, final(out)@),
            final(self).prompt_history.valid(),
            *final(self) == (App { prompt_history: final(self).prompt_history, ..*old(self) }),
    {
        match &self.picker.active {
            Some(active) => match &active.source {
                Source::Search { root, documents, register, due } => {
                    self.prompt_history.push(*register, active.view.query.as_str());
                    out.push(Effect::RememberSearch(*register, active.view.query.clone()));
                },
                _ => {},
            },
            None => {},
        }
    }

    /// The application ready for a list of locations.
    pub open spec fn locations_prepared(self) -> App {
        App { prompt: None, ..self.picker_closed().dismissed() }.cleared()
    }

    /// Takes the locations that the server found: one alone is opened at once,
    /// several are offered in a picker. `title` names what was looked for.
    pub fn receive_locations(
        &mut self,
        title: &str,
        found: Found,
        view: Rows,
        out: &mut Vec<Effect>,
    )
        requires
            old(self).navigation.next < u64::MAX,
            old(self).picker.next_session < u64::MAX,
            old(self).picker.captures < u64::MAX,
        ensures
            locations_taken(*old(self), *final(self), old(out)@, final(out)@, title@, found, view),
    {
        if found.items == 0 {
            let what = title.to_lowercase();
            self.message = if found.skipped > 0 {
                Message::NoUsableLocations { what, skipped: found.skipped }
            } else {
                Message::NoLocations { what }
            };
            return;
        }
        if found.items == 1 && !found.limited && found.skipped == 0 {
            self.begin_location_navigation(found.first, out);
            return;
        }
        self.close_picker(out);
        self.dismiss_language_help(out);
        out.push(Effect::CancelKeys);
        self.prompt = None;
        self.clear_message();
        let catalog = self.capture(Catalog::Locations, out);
        let source = Source::Locations {
            catalog,
            document: self.editor.document,
            revision: self.editor.revision,
        };
        self.begin_picker(view, source);
        self.submit_ranking(out);
        assert(out@ =~= old(out)@ + old(self).close_effects()
            + old(self).picker_closed().language.cancel_effects() + seq![
            Effect::CancelKeys,
            Effect::Capture(Catalog::Locations, catalog),
        ] + old(self).locations_prepared().captured().picker_begun(
            view,
            source,
        ).picker.active->0.cancel_effects());
    }
}

/// Whether the locations that a server found were taken as they should be.
pub open spec fn locations_taken(
    before: App,
    after: App,
    asked: Seq<Effect>,
    asks: Seq<Effect>,
    title: Seq<char>,
    found: Found,
    view: Rows,
) -> bool {
    if found.items == 0 {
        &&& after == (App { message: after.message, ..before })
        &&& asks == asked
        &&& match after.message {
            Message::NoUsableLocations { what, skipped } => found.skipped > 0 && skipped
                == found.skipped && what@ == lowercase(title),
            Message::NoLocations { what } => found.skipped == 0 && what@ == lowercase(title),
            _ => false,
        }
    } else if found.items == 1 && !found.limited && found.skipped == 0 {
        &&& after == before.navigation_begun(found.first)
        &&& asks == asked + before.navigation.cancel_effects()
    } else {
        let catalog = (before.picker.captures + 1) as u64;
        let source = Source::Locations {
            catalog,
            document: before.editor.document,
            revision: before.editor.revision,
        };
        let begun = before.locations_prepared().captured().picker_begun(view, source);
        &&& after == begun.ranking_submitted()
        &&& asks == asked + before.close_effects() + before.picker_closed().language.cancel_effects()
            + seq![Effect::CancelKeys, Effect::Capture(Catalog::Locations, catalog)]
            + begun.picker.active->0.cancel_effects()
    }
}

/// A problem found in a version of a document is never gone to once the
/// document has changed or closed.
pub proof fn law_outdated_problems_are_not_visited(screen: Screen, problem: Problem)
    requires
        problem.version is Some,
        screen.still_there(problem),
    ensures
        screen.snapshot_of(problem.destination.file) == problem.version,
{
}

/// Whether the open picker kept up with an edit of a document.
pub open spec fn buffer_refreshed(
    before: App,
    document: DocumentId,
    listed: bool,
    room: bool,
    now: Time,
    after: App,
) -> bool {
    let catalog = (before.picker.captures + 1) as u64;
    let active = before.picker.active->0;
    if before.jump_picking() && listed {
        let source = Source::Jumps { captured: Some(catalog) };
        after == before.refreshed(source, true, now)
    } else if before.searching() {
        let source = match active.source {
            Source::Search { root, documents, register, due } => Source::Search {
                root,
                documents: Some(catalog),
                register,
                due,
            },
            other => other,
        };
        after == before.refreshed(source, false, now)
    } else if before.previews(before.screen(), document) {
        after == before.with_picker(
            Active { preview_target: None, ..active },
        ).preview_requested(before.screen(), room)
    } else {
        after == before
    }
}

/// Whether a listed checkpoint was accepted as it should be.
pub open spec fn jump_location_accepted(
    before: App,
    location: JumpLocation,
    listed: bool,
    time: Time,
    now: App,
    asked: Seq<Effect>,
    asks: Seq<Effect>,
    origin: Result<Jump, Error>,
) -> bool {
    match before.screen().revision_of(location.document) {
        None => {
            &&& origin == Err::<Jump, Error>(Error::JumpBufferClosed)
            &&& now == before
            &&& asks == asked
        },
        Some(revision) => if revision != location.revision {
            let source = Source::Jumps {
                captured: Some((before.picker.captures + 1) as u64),
            };
            &&& origin == Err::<Jump, Error>(Error::JumpBufferChanged)
            &&& if before.jump_picking() && listed {
                &&& now == before.refreshed(source, true, time)
                &&& asks == asked + seq![
                    Effect::Capture(
                        Catalog::Jumps,
                        (before.picker.captures + 1) as u64,
                    ),
                    Effect::ResumeRows,
                ] + before.picker.active->0.cancel_effects()
            } else {
                now == before && asks == asked
            }
        } else {
            &&& origin == Ok::<Jump, Error>(
                Jump {
                    document: before.editor.document,
                    selections: before.editor.selections,
                },
            )
            &&& now == before
            &&& asks == asked
        },
    }
}

/// Whether a picked problem was accepted as it should be.
pub open spec fn problem_accepted(
    before: App,
    problem: Problem,
    time: Time,
    now: App,
    asked: Seq<Effect>,
    asks: Seq<Effect>,
) -> bool {
    if before.screen().still_there(problem) {
        &&& now == before.picker_closed().navigation_begun(problem.destination)
        &&& asks == asked + before.close_effects()
            + before.picker_closed().navigation.cancel_effects()
    } else {
        &&& now == before.problems_refreshed(true, time)
        &&& asks == asked + before.problem_refresh_effects(true)
    }
}

/// Whether ranked problems were taken as they should be.
pub open spec fn problems_taken(
    before: App,
    rows: Ranked,
    generation: u64,
    room: bool,
    time: Time,
    now: App,
    asked: Seq<Effect>,
    asks: Seq<Effect>,
    taken: (bool, Option<Target>),
) -> bool {
    if !before.takes_rows(Sort::Diagnostics, rows.session, rows.revision) {
        &&& taken == (false, None::<Target>)
        &&& now == before
        &&& asks == asked
    } else if generation != before.language.catalog_generation {
        &&& taken == (true, None::<Target>)
        &&& now == before.problems_refreshed(true, time)
        &&& asks == asked + before.problem_refresh_effects(true)
    } else {
        let accept = before.picker.active->0.accept_pending;
        let shown = before.rows_shown(Sort::Diagnostics, rows, false);
        &&& taken.0
        &&& taken.1 == if accept { shown.picked() } else { None }
        &&& now.is(shown.screen().settled(accept, room))
        &&& asks == asked + shown.settle_effects(accept, room)
    }
}

/// Whether the query of a search whose hit was opened was remembered.
pub open spec fn hit_remembered(before: App, now: App, asked: Seq<Effect>, asks: Seq<Effect>) -> bool {
    let active = before.picker.active->0;
    match active.source {
        Source::Search { root, documents, register, due } => {
            &&& asks == asked.push(
                Effect::RememberSearch(register, active.view.query),
            )
            &&& now.prompt_history@ == if crate::prompt::recordable(
                before.prompt_history@,
                register,
                active.view.query@,
            ) {
                crate::prompt::trimmed(
                    before.prompt_history@.push((register, active.view.query@)),
                )
            } else {
                before.prompt_history@
            }
        },
        _ => false,
    }
}

} // verus!
