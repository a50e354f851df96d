//! Opening the pickers and taking what their workers found.

use crate::app::App;
use crate::editor::{FileId, Time};
use crate::effect::Effect;
use crate::error::Error;
use crate::picker::{Active, Catalog, Notice, PreviewState, QueryJob, Rows, Source, State, Target};
use crate::picking::Ranked;
use crate::symbols::QUERY_DELAY;
use vstd::prelude::*;

verus! {

/// The kinds of pickers.
#[derive(Clone, Copy, Debug, PartialEq, Eq, Structural)]
pub enum Sort {
    Files,
    Symbols,
    Locations,
    Buffers,
    Jumps,
    Search,
    Browser,
    Diagnostics,
}

impl Source {
    /// Which kind of picker has these entries.
    pub open spec fn sort(self) -> Sort {
        match self {
            Source::Files { .. } => Sort::Files,
            Source::Symbols(_) => Sort::Symbols,
            Source::Locations { .. } => Sort::Locations,
            Source::Buffers { .. } => Sort::Buffers,
            Source::Jumps { .. } => Sort::Jumps,
            Source::Search { .. } => Sort::Search,
            Source::Browser { .. } => Sort::Browser,
            Source::Diagnostics { .. } => Sort::Diagnostics,
        }
    }

    fn is_sort(&self, sort: Sort) -> (yes: bool)
        ensures
            yes == (self.sort() == sort),
    {
        let own = match self {
            Source::Files { .. } => Sort::Files,
            Source::Symbols(_) => Sort::Symbols,
            Source::Locations { .. } => Sort::Locations,
            Source::Buffers { .. } => Sort::Buffers,
            Source::Jumps { .. } => Sort::Jumps,
            Source::Search { .. } => Sort::Search,
            Source::Browser { .. } => Sort::Browser,
            Source::Diagnostics { .. } => Sort::Diagnostics,
        };
        own == sort
    }
}

impl Active {
    /// Whether rows are those of the present query of this kind of picker.
    pub open spec fn takes(self, sort: Sort, session: u64, revision: u64) -> bool {
        self.source.sort() == sort && self.awaits(session, revision)
    }

    /// The picker with the rows of its query. The rows of a reopened list of
    /// checkpoints keep their identity while their places move, so its preview
    /// is shown anew.
    pub open spec fn shown(self, sort: Sort, rows: Ranked, pending: bool) -> Active {
        let active = self.ranked(rows, pending);
        match sort {
            Sort::Jumps => Active { preview_target: None, ..active },
            Sort::Browser => Active { accept_pending: false, ..active },
            _ => active,
        }
    }

    /// Whether acceptance waited for these rows: a list of files is complete
    /// first, and a directory has entries.
    pub open spec fn accepts_with(self, sort: Sort, rows: Ranked, pending: bool) -> bool {
        &&& self.accept_pending
        &&& sort == Sort::Files ==> !pending
        &&& sort == Sort::Browser ==> rows.items > 0
    }
}

impl App {
    /// Whether rows are those of the present query.
    pub open spec fn takes_rows(self, sort: Sort, session: u64, revision: u64) -> bool {
        match self.picker.active {
            Some(active) => active.takes(sort, session, revision),
            None => false,
        }
    }

    /// The application with the rows of a query.
    pub open spec fn rows_shown(self, sort: Sort, rows: Ranked, pending: bool) -> App {
        self.with_picker(self.picker.active->0.shown(sort, rows, pending))
    }

    /// Takes rows that a worker has ranked. Those of an older query, or of
    /// another picker, change nothing. Returns whether to redraw, and the entry
    /// to open where acceptance waited for the rows.
    pub fn receive_rows(
        &mut self,
        sort: Sort,
        rows: Ranked,
        pending: bool,
        room: bool,
        out: &mut Vec<Effect>,
    ) -> (taken: (bool, Option<Target>))
        requires
            old(self).screen().valid(),
            old(self).navigation.next < u64::MAX,
            old(self).picker.active is Some ==> old(self).picker.active->0.preview_request
                < u64::MAX,
        ensures
            rows_taken(
                *old(self),
                sort,
                rows,
                pending,
                room,
                *final(self),
                old(out)@,
                final(out)@,
                taken,
            ),
    {
        let accept = match &mut self.picker.active {
            Some(active) => {
                if !active.source.is_sort(sort) || !active.awaiting(&rows) {
                    return (false, None);
                }
                let items = rows.items;
                let waited = active.accept_pending;
                active.show(rows, pending);
                match sort {
                    Sort::Jumps => {
                        active.preview_target = None;
                        waited
                    },
                    Sort::Browser => {
                        active.accept_pending = false;
                        waited && items > 0
                    },
                    Sort::Files => waited && !pending,
                    _ => waited,
                }
            },
            None => {
                return (false, None);
            },
        };
        assert(*self == old(self).rows_shown(sort, rows, pending));
        let target = self.settle(accept, room, out);
        (true, target)
    }

    /// Whether the editor has left the place of a location picker.
    pub open spec fn locations_stale(self) -> bool {
        match self.picker.active {
            Some(active) => match active.source {
                Source::Locations { catalog, document, revision } => document
                    != self.editor.document || revision != self.editor.revision,
                _ => false,
            },
            None => false,
        }
    }

    /// The application without a location picker for a place the editor has
    /// left.
    pub open spec fn locations_checked(self) -> App {
        if self.locations_stale() { self.picker_closed() } else { self }
    }

    /// What checking the location picker asks for.
    pub open spec fn locations_check_effects(self) -> Seq<Effect> {
        if self.locations_stale() { self.close_effects() } else { seq![] }
    }

    pub fn invalidate_location_picker(&mut self, out: &mut Vec<Effect>)
        ensures
            *final(self) == old(self).locations_checked(),
            final(out)@ == old(out)@ + old(self).locations_check_effects(),
    {
        let stale = match &self.picker.active {
            Some(active) => match &active.source {
                Source::Locations { catalog, document, revision } => *document
                    != self.editor.document || *revision != self.editor.revision,
                _ => false,
            },
            None => false,
        };
        if stale {
            self.close_picker(out);
        }
        assert(out@ =~= old(out)@ + old(self).locations_check_effects());
    }

    /// Takes the ranked files of a file picker; `scanning` says that more may
    /// come.
    pub fn handle_picker_result(
        &mut self,
        rows: Ranked,
        scanning: bool,
        room: bool,
        out: &mut Vec<Effect>,
    ) -> (taken: (bool, Option<Target>))
        requires
            old(self).screen().valid(),
            old(self).navigation.next < u64::MAX,
            old(self).picker.active is Some ==> old(self).picker.active->0.preview_request
                < u64::MAX,
        ensures
            rows_taken(
                *old(self),
                Sort::Files,
                rows,
                scanning,
                room,
                *final(self),
                old(out)@,
                final(out)@,
                taken,
            ),
    {
        self.receive_rows(Sort::Files, rows, scanning, room, out)
    }

    /// Takes the ranked buffers of a buffer picker.
    pub fn handle_buffer_result(
        &mut self,
        rows: Ranked,
        room: bool,
        out: &mut Vec<Effect>,
    ) -> (taken: (bool, Option<Target>))
        requires
            old(self).screen().valid(),
            old(self).navigation.next < u64::MAX,
            old(self).picker.active is Some ==> old(self).picker.active->0.preview_request
                < u64::MAX,
        ensures
            rows_taken(
                *old(self),
                Sort::Buffers,
                rows,
                false,
                room,
                *final(self),
                old(out)@,
                final(out)@,
                taken,
            ),
    {
        self.receive_rows(Sort::Buffers, rows, false, room, out)
    }

    /// Takes the ranked checkpoints of a jump picker.
    pub fn handle_jump_result(
        &mut self,
        rows: Ranked,
        room: bool,
        out: &mut Vec<Effect>,
    ) -> (taken: (bool, Option<Target>))
        requires
            old(self).screen().valid(),
            old(self).navigation.next < u64::MAX,
            old(self).picker.active is Some ==> old(self).picker.active->0.preview_request
                < u64::MAX,
        ensures
            rows_taken(
                *old(self),
                Sort::Jumps,
                rows,
                false,
                room,
                *final(self),
                old(out)@,
                final(out)@,
                taken,
            ),
    {
        self.receive_rows(Sort::Jumps, rows, false, room, out)
    }

    /// Takes the ranked symbols of a symbol picker; `limited` says that there
    /// are more than were ranked.
    pub fn handle_symbol_result(
        &mut self,
        rows: Ranked,
        limited: bool,
        room: bool,
        out: &mut Vec<Effect>,
    ) -> (taken: (bool, Option<Target>))
        requires
            old(self).screen().valid(),
            old(self).navigation.next < u64::MAX,
            old(self).picker.active is Some ==> old(self).picker.active->0.preview_request
                < u64::MAX,
        ensures
            rows_taken(
                old(self).symbols_checked(),
                Sort::Symbols,
                (Ranked {
                    notice: if limited { Notice::SymbolLimit } else { Notice::Empty },
                    ..rows
                }),
                false,
                room,
                *final(self),
                old(out)@ + old(self).symbols_check_effects(),
                final(out)@,
                taken,
            ),
    {
        self.invalidate_symbol_picker(out);
        let rows = Ranked {
            notice: if limited { Notice::SymbolLimit } else { Notice::Empty },
            ..rows
        };
        self.receive_rows(Sort::Symbols, rows, false, room, out)
    }

    /// Takes the ranked locations of a location picker.
    pub fn handle_location_result(
        &mut self,
        rows: Ranked,
        room: bool,
        out: &mut Vec<Effect>,
    ) -> (taken: (bool, Option<Target>))
        requires
            old(self).screen().valid(),
            old(self).navigation.next < u64::MAX,
            old(self).picker.active is Some ==> old(self).picker.active->0.preview_request
                < u64::MAX,
        ensures
            rows_taken(
                old(self).locations_checked(),
                Sort::Locations,
                rows,
                false,
                room,
                *final(self),
                old(out)@ + old(self).locations_check_effects(),
                final(out)@,
                taken,
            ),
    {
        self.invalidate_location_picker(out);
        self.receive_rows(Sort::Locations, rows, false, room, out)
    }

    /// Takes the preview that was asked for last.
    pub fn handle_preview_result(&mut self, session: u64, request: u64) -> (redraw: bool)
        ensures
            preview_taken(*old(self), session, request, redraw, *final(self)),
    {
        match &mut self.picker.active {
            Some(active) => {
                if active.session != session || active.preview_request != request
                    || active.preview_target.is_none() || active.preview_cancelled {
                    return false;
                }
                active.view.preview = PreviewState::Shown;
                true
            },
            None => false,
        }
    }

    /// The application that has captured another list.
    pub open spec fn captured(self) -> App {
        App {
            picker: State { captures: (self.picker.captures + 1) as u64, ..self.picker },
            ..self
        }
    }

    pub(crate) fn capture(&mut self, catalog: Catalog, out: &mut Vec<Effect>) -> (id: u64)
        requires
            old(self).picker.captures < u64::MAX,
        ensures
            id == old(self).picker.captures + 1,
            *final(self) == old(self).captured(),
            final(out)@ == old(out)@.push(Effect::Capture(catalog, id)),
    {
        let id = self.picker.captures + 1;
        self.picker.captures = id;
        out.push(Effect::Capture(catalog, id));
        id
    }

    /// Opens a picker of the files of the project. `directory` is where the
    /// application works, where that is known.
    pub fn open_file_picker(
        &mut self,
        view: Rows,
        directory: Result<FileId, Error>,
        now: Time,
        out: &mut Vec<Effect>,
    )
        requires
            old(self).picker.next_session < u64::MAX,
            now + QUERY_DELAY <= u64::MAX,
        ensures
            file_picker_opened(*old(self), view, directory, *final(self), old(out)@, final(out)@),
    {
        let directory = match directory {
            Ok(directory) => directory,
            Err(error) => {
                self.fail(error);
                return;
            },
        };
        self.prepare_picker(out);
        let origin = self.editor.file;
        self.begin_picker(view, Source::Files { origin, directory });
        self.submit_ranking(out);
    }

    /// Opens a picker of the open documents.
    pub fn open_buffer_picker(&mut self, view: Rows, out: &mut Vec<Effect>)
        requires
            old(self).picker.next_session < u64::MAX,
            old(self).picker.captures < u64::MAX,
        ensures
            buffer_picker_opened(*old(self), view, *final(self), old(out)@, final(out)@),
    {
        self.prepare_picker(out);
        let ghost prepared = out@;
        let catalog = self.capture(Catalog::Buffers, out);
        assert(out@ =~= old(out)@ + old(self).prepare_effects().push(
            Effect::Capture(Catalog::Buffers, catalog),
        ));
        self.begin_picker(view, Source::Buffers { catalog });
        self.submit_ranking(out);
    }

    /// Opens a picker of the checkpoints of every pane.
    pub fn open_jump_picker(&mut self, view: Rows, out: &mut Vec<Effect>)
        requires
            old(self).picker.next_session < u64::MAX,
            old(self).picker.captures < u64::MAX,
        ensures
            jump_picker_opened(*old(self), view, *final(self), old(out)@, final(out)@),
    {
        self.prepare_picker(out);
        let catalog = self.capture(Catalog::Jumps, out);
        assert(out@ =~= old(out)@ + old(self).prepare_effects().push(
            Effect::Capture(Catalog::Jumps, catalog),
        ));
        self.begin_picker(view, Source::Jumps { captured: Some(catalog) });
        self.submit_ranking(out);
    }

    /// Opens a picker of the problems of the document or the workspace.
    pub fn open_diagnostic_picker(
        &mut self,
        workspace: bool,
        view: Rows,
        out: &mut Vec<Effect>,
    ) -> (result: Result<(), Error>)
        requires
            old(self).picker.next_session < u64::MAX,
            old(self).picker.captures < u64::MAX,
        ensures
            diagnostic_picker_opened(
                *old(self),
                workspace,
                view,
                *final(self),
                old(out)@,
                final(out)@,
                result,
            ),
    {
        if !workspace && self.editor.file.is_none() {
            return Err(Error::NoFilePath);
        }
        self.prepare_picker(out);
        self.clear_message();
        let catalog = self.capture(Catalog::Documents, out);
        assert(out@ =~= old(out)@ + old(self).prepare_effects().push(
            Effect::Capture(Catalog::Documents, catalog),
        ));
        self.begin_picker(view, Source::Diagnostics { workspace, catalog, generation: 0 });
        self.submit_ranking(out);
        Ok(())
    }

    /// Begins a search of the workspace.
    pub fn start_workspace_search(
        &mut self,
        root: FileId,
        register: char,
        view: Rows,
        now: Time,
        out: &mut Vec<Effect>,
    )
        requires
            old(self).picker.next_session < u64::MAX,
            old(self).picker.captures < u64::MAX,
            now + QUERY_DELAY <= u64::MAX,
        ensures
            search_started(
                *old(self),
                root,
                register,
                view,
                now,
                *final(self),
                old(out)@,
                final(out)@,
            ),
    {
        self.prepare_picker(out);
        let catalog = self.capture(Catalog::Documents, out);
        assert(out@ =~= old(out)@ + old(self).prepare_effects().push(
            Effect::Capture(Catalog::Documents, catalog),
        ));
        self.begin_picker(
            view,
            Source::Search { root, documents: Some(catalog), register, due: now },
        );
        self.submit_workspace_query(now, out);
    }

    /// Opens a search of the directory that the application works in.
    pub fn open_workspace_search(
        &mut self,
        register: char,
        directory: Result<FileId, Error>,
        view: Rows,
        now: Time,
        out: &mut Vec<Effect>,
    ) -> (result: Result<(), Error>)
        requires
            old(self).picker.next_session < u64::MAX,
            old(self).picker.captures < u64::MAX,
            now + QUERY_DELAY <= u64::MAX,
        ensures
            match directory {
                Ok(root) => {
                    let catalog = (old(self).picker.captures + 1) as u64;
                    let begun = old(self).picker_prepared().captured().picker_begun(
                        view,
                        Source::Search { root, documents: Some(catalog), register, due: now },
                    );
                    &&& result is Ok
                    &&& *final(self) == begun.search_submitted(now)
                    &&& final(out)@ == old(out)@ + old(self).prepare_effects().push(
                        Effect::Capture(Catalog::Documents, catalog),
                    ) + begun.picker.active->0.cancel_effects().push(Effect::BeginUpdate)
                },
                Err(error) => {
                    &&& result == Err::<(), Error>(error)
                    &&& *final(self) == *old(self)
                    &&& final(out)@ == old(out)@
                },
            },
    {
        match directory {
            Ok(root) => {
                self.start_workspace_search(root, register, view, now, out);
                Ok(())
            },
            Err(error) => Err(error),
        }
    }

    /// When the search of the workspace is to run.
    pub fn workspace_search_deadline(&self) -> (due: Option<Time>)
        ensures
            due == self.search_due(),
    {
        if self.picker.search_job.is_none() {
            return None;
        }
        match &self.picker.active {
            Some(active) => match &active.source {
                Source::Search { root, documents, register, due } => Some(*due),
                _ => None,
            },
            None => None,
        }
    }

    /// When the search of the workspace is to run.
    pub open spec fn search_due(self) -> Option<Time> {
        match (self.picker.search_job, self.picker.active) {
            (Some(_), Some(active)) => match active.source {
                Source::Search { root, documents, register, due } => Some(due),
                _ => None,
            },
            _ => None,
        }
    }

    /// Whether the search of the workspace runs now: typing has paused, or its
    /// rows are waited for.
    pub open spec fn search_ready(self, now: Time) -> bool {
        match self.picker.active {
            Some(active) => active.accept_pending || match self.search_due() {
                Some(due) => due <= now,
                None => false,
            },
            None => false,
        }
    }

    /// Hands out the search of the workspace once typing has paused.
    pub fn take_workspace_search_job(&mut self, now: Time) -> (job: Option<QueryJob>)
        ensures
            search_handed_out(*old(self), now, job, *final(self)),
    {
        let waited = match &self.picker.active {
            Some(active) => active.accept_pending,
            None => {
                return None;
            },
        };
        let due = match self.workspace_search_deadline() {
            Some(due) => due <= now,
            None => false,
        };
        if !waited && !due {
            return None;
        }
        self.picker.search_job.take()
    }

    /// Takes what the search of the workspace has found so far. `replaced` says
    /// whether the rows are new ones, and `current` whether they are those of
    /// the present query.
    pub fn handle_workspace_search_result(
        &mut self,
        rows: Ranked,
        replaced: bool,
        current: bool,
        scanning: bool,
        room: bool,
        out: &mut Vec<Effect>,
    ) -> (taken: (bool, Option<Target>))
        requires
            old(self).screen().valid(),
            old(self).navigation.next < u64::MAX,
            old(self).picker.active is Some ==> old(self).picker.active->0.preview_request
                < u64::MAX,
        ensures
            found_lines_taken(
                *old(self),
                rows,
                replaced,
                current,
                scanning,
                room,
                *final(self),
                old(out)@,
                final(out)@,
                taken,
            ),
    {
        let accept = match &mut self.picker.active {
            Some(active) => {
                if !active.source.is_sort(Sort::Search) || !active.awaiting(&rows) {
                    return (false, None);
                }
                active.show_found(rows, replaced, current, scanning)
            },
            None => {
                return (false, None);
            },
        };
        let target = self.settle(accept, room, out);
        (true, target)
    }
}

impl Active {
    /// Whether acceptance waited for what a search has found: a row of the
    /// present query, or the end of the search.
    pub open spec fn search_ends(self, rows: Ranked, current: bool, scanning: bool) -> bool {
        self.accept_pending && (current && rows.items > 0 || !scanning)
    }

    /// The picker with what a search has found. The counts stay with rows that
    /// are not replaced, and a search that was waited for in vain says so.
    #[verifier::opaque]
    pub open spec fn searched(
        self,
        rows: Ranked,
        replaced: bool,
        current: bool,
        scanning: bool,
    ) -> Active {
        let counted = if replaced {
            rows
        } else {
            Ranked { matched: self.view.matched, total: self.view.total, ..rows }
        };
        let ranked = self.ranked(counted, scanning);
        let active = Active { view: Rows { current, ..ranked.view }, ..ranked };
        if self.search_ends(rows, current, scanning) && rows.items == 0 {
            Active {
                accept_pending: false,
                view: Rows {
                    notice: if rows.notice is Empty { Notice::NoLines } else { rows.notice },
                    ..active.view
                },
                ..active
            }
        } else {
            active
        }
    }

    fn show_found(&mut self, rows: Ranked, replaced: bool, current: bool, scanning: bool) -> (accept:
        bool)
        ensures
            *final(self) == old(self).searched(rows, replaced, current, scanning),
            accept == (old(self).search_ends(rows, current, scanning) && rows.items > 0),
            final(self).preview_request == old(self).preview_request,
    {
        proof {
            reveal(Active::searched);
        }
        let quiet = match &rows.notice {
            Notice::Empty => true,
            _ => false,
        };
        let items = rows.items;
        let ready = self.accept_pending && ((current && items > 0) || !scanning);
        let counted = if replaced {
            rows
        } else {
            Ranked { matched: self.view.matched, total: self.view.total, ..rows }
        };
        self.show(counted, scanning);
        self.view.current = current;
        if ready && items == 0 {
            self.accept_pending = false;
            if quiet {
                self.view.notice = Notice::NoLines;
            }
        }
        ready && items > 0
    }
}

/// Whether rows of a worker were taken as they should be.
pub open spec fn rows_taken(
    before: App,
    sort: Sort,
    rows: Ranked,
    pending: bool,
    room: bool,
    now: App,
    asked: Seq<Effect>,
    asks: Seq<Effect>,
    taken: (bool, Option<Target>),
) -> bool {
    if before.takes_rows(sort, rows.session, rows.revision) {
        let accept = before.picker.active->0.accepts_with(sort, rows, pending);
        let shown = before.rows_shown(sort, rows, pending);
        &&& taken.0
        &&& taken.1 == if accept { shown.picked() } else { None }
        &&& now.is(shown.screen().settled(accept, room))
        &&& asks == asked + shown.settle_effects(accept, room)
    } else {
        &&& taken == (false, None::<Target>)
        &&& now == before
        &&& asks == asked
    }
}

/// Whether a picker of files was opened, where the directory is known.
pub open spec fn file_picker_opened(
    before: App,
    view: Rows,
    directory: Result<FileId, Error>,
    now: App,
    asked: Seq<Effect>,
    asks: Seq<Effect>,
) -> bool {
    match directory {
        Ok(directory) => {
            let source = Source::Files { origin: before.editor.file, directory };
            let begun = before.picker_prepared().picker_begun(view, source);
            &&& now == begun.ranking_submitted()
            &&& asks == asked + before.prepare_effects()
                + begun.picker.active->0.cancel_effects()
        },
        Err(error) => {
            &&& now == before.failed(error)
            &&& asks == asked
        },
    }
}

/// Whether a picker of the open documents was opened.
pub open spec fn buffer_picker_opened(
    before: App,
    view: Rows,
    now: App,
    asked: Seq<Effect>,
    asks: Seq<Effect>,
) -> bool {
    let catalog = (before.picker.captures + 1) as u64;
    let begun = before.picker_prepared().captured().picker_begun(
        view,
        Source::Buffers { catalog },
    );
    &&& now == begun.ranking_submitted()
    &&& asks == asked + before.prepare_effects().push(
        Effect::Capture(Catalog::Buffers, catalog),
    ) + begun.picker.active->0.cancel_effects()
}

/// Whether a picker of the checkpoints was opened.
pub open spec fn jump_picker_opened(
    before: App,
    view: Rows,
    now: App,
    asked: Seq<Effect>,
    asks: Seq<Effect>,
) -> bool {
    let catalog = (before.picker.captures + 1) as u64;
    let begun = before.picker_prepared().captured().picker_begun(
        view,
        Source::Jumps { captured: Some(catalog) },
    );
    &&& now == begun.ranking_submitted()
    &&& asks == asked + before.prepare_effects().push(
        Effect::Capture(Catalog::Jumps, catalog),
    ) + begun.picker.active->0.cancel_effects()
}

/// Whether a picker of problems was opened, where there is a file to have some.
pub open spec fn diagnostic_picker_opened(
    before: App,
    workspace: bool,
    view: Rows,
    now: App,
    asked: Seq<Effect>,
    asks: Seq<Effect>,
    result: Result<(), Error>,
) -> bool {
    if !workspace && before.editor.file is None {
        &&& result == Err::<(), Error>(Error::NoFilePath)
        &&& now == before
        &&& asks == asked
    } else {
        let catalog = (before.picker.captures + 1) as u64;
        let begun = before.picker_prepared().cleared().captured().picker_begun(
            view,
            Source::Diagnostics { workspace, catalog, generation: 0 },
        );
        &&& result is Ok
        &&& now == begun.ranking_submitted()
        &&& asks == asked + before.prepare_effects().push(
            Effect::Capture(Catalog::Documents, catalog),
        ) + begun.picker.active->0.cancel_effects()
    }
}

/// Whether a search of the workspace was begun.
pub open spec fn search_started(
    before: App,
    root: FileId,
    register: char,
    view: Rows,
    time: Time,
    now: App,
    asked: Seq<Effect>,
    asks: Seq<Effect>,
) -> bool {
    let catalog = (before.picker.captures + 1) as u64;
    let begun = before.picker_prepared().captured().picker_begun(
        view,
        Source::Search { root, documents: Some(catalog), register, due: time },
    );
    &&& now == begun.search_submitted(time)
    &&& asks == asked + before.prepare_effects().push(
        Effect::Capture(Catalog::Documents, catalog),
    ) + begun.picker.active->0.cancel_effects().push(Effect::BeginUpdate)
}

/// Whether a preview was taken as it should be.
pub open spec fn preview_taken(
    before: App,
    session: u64,
    request: u64,
    redraw: bool,
    now: App,
) -> bool {
    let wanted = match before.picker.active {
        Some(active) => {
            &&& active.session == session
            &&& active.preview_request == request
            &&& active.preview_target is Some
            &&& !active.preview_cancelled
        },
        None => false,
    };
    let active = before.picker.active->0;
    &&& redraw == wanted
    &&& now == if wanted {
        before.with_picker(
            Active {
                view: Rows { preview: PreviewState::Shown, ..active.view },
                ..active
            },
        )
    } else {
        before
    }
}

/// Whether the search was handed out as it should be.
pub open spec fn search_handed_out(
    before: App,
    time: Time,
    job: Option<QueryJob>,
    now: App,
) -> bool {
    if before.search_ready(time) {
        &&& job == before.picker.search_job
        &&& now == (App {
            picker: State { search_job: None, ..before.picker },
            ..before
        })
    } else {
        job is None && now == before
    }
}

/// Whether what a search has found was taken as it should be.
pub open spec fn found_lines_taken(
    before: App,
    rows: Ranked,
    replaced: bool,
    current: bool,
    scanning: bool,
    room: bool,
    now: App,
    asked: Seq<Effect>,
    asks: Seq<Effect>,
    taken: (bool, Option<Target>),
) -> bool {
    if before.takes_rows(Sort::Search, rows.session, rows.revision) {
        let active = before.picker.active->0;
        let accept = active.search_ends(rows, current, scanning) && rows.items > 0;
        let shown = before.with_picker(active.searched(rows, replaced, current, scanning));
        &&& taken.0
        &&& taken.1 == if accept { shown.picked() } else { None }
        &&& now.is(shown.screen().settled(accept, room))
        &&& asks == asked + shown.settle_effects(accept, room)
    } else {
        &&& taken == (false, None::<Target>)
        &&& now == before
        &&& asks == asked
    }
}

} // verus!
