//! LSP symbol picker lifecycle. Catalogs and query generations remain separate:
//! typing in a document picker never discards an outstanding outline request.

use crate::app::App;
use crate::editor::Time;
use crate::effect::Effect;
use crate::error::Error;
use crate::language::{same_id, RequestKind};
use crate::picker::{Active, Notice, QueryJob, Rows, Source, State, SymbolSource};
use crate::shared::share;
use std::sync::Arc;
use vstd::prelude::*;

verus! {

/// Nanoseconds between typing and asking for workspace symbols.
pub const QUERY_DELAY: u64 = 150_000_000;

impl App {
    /// Whether the editor has left the place of a symbol picker.
    pub open spec fn symbols_stale(self, source: SymbolSource) -> bool {
        ||| source.document != self.editor.document
        ||| source.revision != self.editor.revision
        ||| source.language != self.editor.language
        ||| source.file != self.editor.file
        ||| source.selections@ != self.editor.selections@
        ||| source.mode != self.editor.mode
    }

    /// The symbols of the open picker, where it offers any.
    pub open spec fn symbol_source(self) -> Option<SymbolSource> {
        match self.picker.active {
            Some(active) => match active.source {
                Source::Symbols(source) => Some(source),
                _ => None,
            },
            None => None,
        }
    }

    /// The application without a symbol picker for a place the editor has
    /// left.
    pub open spec fn symbols_checked(self) -> App {
        match self.symbol_source() {
            Some(source) => if self.symbols_stale(source) { self.picker_closed() } else { self },
            None => self,
        }
    }

    /// What checking the symbol picker asks for.
    pub open spec fn symbols_check_effects(self) -> Seq<Effect> {
        match self.symbol_source() {
            Some(source) => if self.symbols_stale(source) { self.close_effects() } else { seq![] },
            None => seq![],
        }
    }

    pub fn symbol_picker_active(&self) -> (active: bool)
        ensures
            active == (self.symbol_source() is Some),
    {
        match &self.picker.active {
            Some(active) => match &active.source {
                Source::Symbols(_) => true,
                _ => false,
            },
            None => false,
        }
    }

    /// Closes a symbol picker for a place the editor has left.
    pub fn invalidate_symbol_picker(&mut self, out: &mut Vec<Effect>)
        ensures
            *final(self) == old(self).symbols_checked(),
            final(out)@ == old(out)@ + old(self).symbols_check_effects(),
    {
        let stale = match &self.picker.active {
            Some(active) => match &active.source {
                Source::Symbols(source) => source.document != self.editor.document
                    || source.revision != self.editor.revision || !same_id(
                    source.language,
                    self.editor.language,
                ) || !same_id(source.file, self.editor.file) || !source.selections.same(
                    &self.editor.selections,
                ) || source.mode != self.editor.mode,
                _ => false,
            },
            None => false,
        };
        if stale {
            self.close_picker(out);
        }
        assert(out@ =~= old(out)@ + old(self).symbols_check_effects());
    }

    /// The symbols of the present place, to be asked for at once.
    pub open spec fn fresh_symbols(self, workspace: bool, now: Time) -> SymbolSource {
        SymbolSource {
            workspace,
            document: self.editor.document,
            revision: self.editor.revision,
            language: self.editor.language,
            file: self.editor.file,
            selections: self.editor.selections,
            mode: self.editor.mode,
            catalog: None,
            due: Some(now),
            loading: false,
            error: None,
        }
    }

    /// Opens a picker of the symbols of the document or the workspace.
    pub fn open_symbol_picker(
        &mut self,
        workspace: bool,
        view: Rows,
        now: Time,
        out: &mut Vec<Effect>,
    )
        requires
            old(self).picker.next_session < u64::MAX,
        ensures
            symbol_picker_opened(
                *old(self),
                workspace,
                view,
                now,
                *final(self),
                old(out)@,
                final(out)@,
            ),
    {
        self.prepare_picker(out);
        self.clear_message();
        let source = SymbolSource {
            workspace,
            document: self.editor.document,
            revision: self.editor.revision,
            language: self.editor.language,
            file: self.editor.file,
            selections: share(&self.editor.selections),
            mode: self.editor.mode,
            catalog: None,
            due: Some(now),
            loading: false,
            error: None,
        };
        self.begin_picker(view, Source::Symbols(source));
    }

    /// When symbols are to be asked for.
    pub fn symbol_deadline(&self) -> (due: Option<Time>)
        ensures
            due == match self.symbol_source() {
                Some(source) => source.due,
                None => None,
            },
    {
        match &self.picker.active {
            Some(active) => match &active.source {
                Source::Symbols(source) => source.due,
                _ => None,
            },
            None => None,
        }
    }

    /// Whether symbols are to be asked for now.
    pub open spec fn symbols_due(self, now: Time) -> bool {
        match self.symbol_source() {
            Some(source) => match source.due {
                Some(due) => due <= now,
                None => false,
            },
            None => false,
        }
    }

    /// The application with other symbols in its picker.
    pub open spec fn with_symbols(self, source: SymbolSource) -> App {
        self.with_picker(
            Active { source: Source::Symbols(source), ..self.picker.active->0 },
        )
    }

    /// The application that asks for symbols.
    pub open spec fn symbols_asked(self, now: Time) -> App {
        if self.symbols_due(now) {
            self.with_symbols(
                SymbolSource { due: None, loading: true, ..self.symbol_source()->0 },
            )
        } else {
            self
        }
    }

    /// The request for symbols that is due.
    pub open spec fn symbol_request(self, now: Time) -> Option<RequestKind> {
        if self.symbols_due(now) {
            Some(
                if self.symbol_source()->0.workspace {
                    RequestKind::WorkspaceSymbols(self.picker.active->0.view.query)
                } else {
                    RequestKind::DocumentSymbols
                },
            )
        } else {
            None
        }
    }

    /// Takes the request for symbols, where it is due.
    pub fn take_symbol_request(&mut self, now: Time) -> (request: Option<RequestKind>)
        ensures
            request == old(self).symbol_request(now),
            *final(self) == old(self).symbols_asked(now),
    {
        match &mut self.picker.active {
            Some(active) => match &mut active.source {
                Source::Symbols(source) => {
                    match source.due {
                        Some(due) => if due > now {
                            return None;
                        },
                        None => {
                            return None;
                        },
                    }
                    source.due = None;
                    source.loading = true;
                    Some(
                        if source.workspace {
                            RequestKind::WorkspaceSymbols(active.view.query.clone())
                        } else {
                            RequestKind::DocumentSymbols
                        },
                    )
                },
                _ => None,
            },
            None => None,
        }
    }

    /// The application that has its symbols ranked, where it has any.
    pub open spec fn symbols_ranked(self) -> App {
        match self.symbol_source() {
            Some(source) => if source.catalog is Some {
                App {
                    picker: State {
                        symbol_job: Some(self.picker.active->0.job()),
                        ..self.picker
                    },
                    ..self
                }
            } else {
                self
            },
            None => self,
        }
    }

    fn rank_symbols(&mut self)
        ensures
            *final(self) == old(self).symbols_ranked(),
    {
        let job = match &self.picker.active {
            Some(active) => match &active.source {
                Source::Symbols(source) => if source.catalog.is_some() {
                    Some(
                        QueryJob {
                            session: active.session,
                            revision: active.revision,
                            query: Some(active.view.query.clone()),
                        },
                    )
                } else {
                    None
                },
                _ => None,
            },
            None => None,
        };
        if job.is_some() {
            self.picker.symbol_job = job;
        }
    }

    /// The application after something was typed at a symbol picker: workspace
    /// symbols are asked for again once typing pauses, those of a document are
    /// ranked again.
    pub open spec fn symbol_query_submitted(self, now: Time) -> App {
        let source = self.symbol_source()->0;
        let app = self.with_picker(self.picker.active->0.requeried());
        let app = App {
            picker: State { preview_job: None, symbol_job: None, ..app.picker },
            ..app
        };
        if source.workspace {
            app.with_symbols(
                SymbolSource {
                    catalog: None,
                    loading: false,
                    error: None,
                    due: Some((now + QUERY_DELAY) as u64),
                    ..source
                },
            ).request_cancelled()
        } else if source.catalog is Some {
            app.symbols_ranked()
        } else {
            match source.error {
                Some(error) => {
                    let active = app.picker.active->0;
                    app.with_picker(
                        Active {
                            view: Rows {
                                pending: false,
                                notice: Notice::Closing(error),
                                ..active.view
                            },
                            ..active
                        },
                    )
                },
                None => app,
            }
        }
    }

    /// What typing at a symbol picker asks for.
    pub open spec fn symbol_query_effects(self) -> Seq<Effect> {
        self.picker.active->0.cancel_effects() + if self.symbol_source()->0.workspace {
            self.language.cancel_effects()
        } else {
            seq![]
        }
    }

    /// Takes a new query of a symbol picker.
    pub fn submit_symbol_query(&mut self, now: Time, out: &mut Vec<Effect>)
        requires
            old(self).symbol_source() is Some,
            old(self).picker.active->0.revision < u64::MAX,
            now + QUERY_DELAY <= u64::MAX,
        ensures
            *final(self) == old(self).symbol_query_submitted(now),
            final(out)@ == old(out)@ + old(self).symbol_query_effects(),
    {
        let ghost before = *self;
        let (workspace, ranked) = match &mut self.picker.active {
            Some(active) => {
                active.push_cancel(out);
                active.cancelled = false;
                active.preview_cancelled = true;
                active.revision = active.revision + 1;
                active.preview_target = None;
                active.accept_pending = false;
                match &mut active.source {
                    Source::Symbols(source) => {
                        if source.workspace {
                            source.catalog = None;
                            source.loading = false;
                            source.error = None;
                            source.due = Some(now + QUERY_DELAY);
                            (true, false)
                        } else if source.catalog.is_some() {
                            (false, true)
                        } else {
                            match &source.error {
                                Some(error) => {
                                    active.view.pending = false;
                                    active.view.notice = Notice::Closing(share(error));
                                },
                                None => {},
                            }
                            (false, false)
                        }
                    },
                    _ => (false, false),
                }
            },
            None => (false, false),
        };
        self.picker.preview_job = None;
        self.picker.symbol_job = None;
        if workspace {
            self.cancel_language_request(out);
        } else if ranked {
            self.rank_symbols();
        }
        assert(out@ =~= old(out)@ + old(self).symbol_query_effects());
    }

    /// The application with the symbols that it asked for; ones that it did not
    /// ask for, or no longer wants, are dropped.
    pub open spec fn symbols_received(self, catalog: u64) -> App {
        match self.symbol_source() {
            Some(source) => if source.loading {
                self.with_symbols(
                    SymbolSource { loading: false, catalog: Some(catalog), ..source },
                ).cleared().symbols_ranked()
            } else {
                self
            },
            None => self,
        }
    }

    /// Takes a list of symbols from the server.
    pub fn receive_symbols(&mut self, catalog: u64)
        ensures
            *final(self) == old(self).symbols_received(catalog),
    {
        match &mut self.picker.active {
            Some(active) => match &mut active.source {
                Source::Symbols(source) => {
                    if !source.loading {
                        return;
                    }
                    source.loading = false;
                    source.catalog = Some(catalog);
                },
                _ => {
                    return;
                },
            },
            None => {
                return;
            },
        }
        self.clear_message();
        self.rank_symbols();
    }

    /// The application whose symbol picker, where one is open, shows an error.
    pub open spec fn symbols_failed(self, error: Arc<Error>) -> App {
        match self.symbol_source() {
            Some(source) => {
                let active = self.picker.active->0;
                let app = self.with_picker(
                    Active {
                        cancelled: true,
                        accept_pending: false,
                        view: Rows {
                            pending: false,
                            notice: Notice::Closing(error),
                            ..active.view
                        },
                        source: Source::Symbols(
                            SymbolSource {
                                error: Some(error),
                                loading: false,
                                due: None,
                                ..source
                            },
                        ),
                        ..active
                    },
                );
                App { picker: State { symbol_job: None, ..app.picker }, ..app }
            },
            None => self,
        }
    }

    /// What showing an error in the symbol picker asks for.
    pub open spec fn symbols_fail_effects(self) -> Seq<Effect> {
        match self.symbol_source() {
            Some(_) => seq![
                Effect::Cancel(
                    crate::effect::Job::Query(
                        self.picker.active->0.session,
                        self.picker.active->0.revision,
                    ),
                ),
            ],
            None => seq![],
        }
    }

    /// Shows an error in the symbol picker, where one is open.
    pub fn fail_symbol_picker(&mut self, error: &Arc<Error>, out: &mut Vec<Effect>) -> (shown: bool)
        ensures
            shown == (old(self).symbol_source() is Some),
            *final(self) == old(self).symbols_failed(*error),
            final(out)@ == old(out)@ + old(self).symbols_fail_effects(),
    {
        assert(out@ =~= old(out)@ + Seq::<Effect>::empty());
        match &mut self.picker.active {
            Some(active) => match &mut active.source {
                Source::Symbols(source) => {
                    out.push(
                        Effect::Cancel(crate::effect::Job::Query(active.session, active.revision)),
                    );
                    active.cancelled = true;
                    active.accept_pending = false;
                    active.view.pending = false;
                    active.view.notice = Notice::Closing(share(error));
                    source.error = Some(share(error));
                    source.loading = false;
                    source.due = None;
                },
                _ => {
                    return false;
                },
            },
            None => {
                return false;
            },
        }
        self.picker.symbol_job = None;
        assert(out@ =~= old(out)@ + old(self).symbols_fail_effects());
        true
    }

    /// The application whose reopened symbol picker belongs to the present
    /// place. A list that was kept remains useful after accepting an entry
    /// moved the editor; without one it is asked for again.
    pub open spec fn symbols_resumed(self, now: Time) -> App {
        match self.symbol_source() {
            Some(source) => self.with_symbols(
                SymbolSource {
                    document: self.editor.document,
                    revision: self.editor.revision,
                    language: self.editor.language,
                    file: self.editor.file,
                    selections: self.editor.selections,
                    mode: self.editor.mode,
                    loading: false,
                    due: if source.catalog is None { Some(now) } else { None },
                    ..source
                },
            ).symbols_ranked(),
            None => self,
        }
    }

    pub fn resume_symbol_picker(&mut self, now: Time)
        ensures
            *final(self) == old(self).symbols_resumed(now),
    {
        match &mut self.picker.active {
            Some(active) => match &mut active.source {
                Source::Symbols(source) => {
                    source.document = self.editor.document;
                    source.revision = self.editor.revision;
                    source.language = self.editor.language;
                    source.file = self.editor.file;
                    source.selections = share(&self.editor.selections);
                    source.mode = self.editor.mode;
                    source.loading = false;
                    source.due = if source.catalog.is_none() { Some(now) } else { None };
                },
                _ => {
                    return;
                },
            },
            None => {
                return;
            },
        }
        self.rank_symbols();
    }
}

/// Typing at a picker of document symbols keeps an outstanding request: only a
/// workspace query replaces it.
pub proof fn law_document_queries_keep_the_request(app: App, now: Time)
    requires
        app.symbol_source() is Some,
        !app.symbol_source()->0.workspace,
    ensures
        app.symbol_query_submitted(now).language == app.language,
        app.symbol_query_submitted(now).symbol_source()->0.loading
            == app.symbol_source()->0.loading,
        app.symbol_query_submitted(now).symbol_source()->0.catalog
            == app.symbol_source()->0.catalog,
{
}

/// Symbols that come after a newer query are dropped, and the error of a
/// request is shown until the picker closes.
pub proof fn law_late_symbols_are_dropped(app: App, now: Time, catalog: u64)
    requires
        app.symbol_source() is Some,
        app.symbol_source()->0.workspace,
    ensures
        app.symbol_query_submitted(now).symbols_received(catalog) == app.symbol_query_submitted(
            now,
        ),
{
}

/// Whether a picker of symbols was opened.
pub open spec fn symbol_picker_opened(
    before: App,
    workspace: bool,
    view: Rows,
    time: Time,
    now: App,
    asked: Seq<Effect>,
    asks: Seq<Effect>,
) -> bool {
    &&& now == before.picker_prepared().cleared().picker_begun(
        view,
        Source::Symbols(before.fresh_symbols(workspace, time)),
    )
    &&& asks == asked + before.prepare_effects()
}

} // verus!
