//! Lifecycle of the floating pickers.

use crate::app::App;
use crate::browser::Browser;
use crate::editor::{FileId, LanguageId, Mode, Time};
use crate::effect::{Effect, Job};
use crate::error::Error;
use crate::selection::{DocumentId, Revision, Selections};
use std::sync::Arc;
use vstd::prelude::*;

verus! {

/// A place in a file as language servers count it.
#[derive(Clone, Copy, Debug, PartialEq, Eq, Structural)]
pub struct Position {
    pub line: u32,
    pub character: u32,
}

/// A range of a file.
#[derive(Clone, Copy, Debug, PartialEq, Eq, Structural)]
pub struct Destination {
    pub file: FileId,
    pub start: Position,
    pub end: Position,
}

/// A checkpoint offered by the jump picker.
#[derive(Clone, Copy, Debug, PartialEq, Eq, Structural)]
pub struct JumpLocation {
    pub document: DocumentId,
    pub revision: Revision,
    /// The line of the checkpoint in that revision.
    pub line: usize,
    /// Which checkpoint of the captured list this is.
    pub checkpoint: u64,
}

/// Lines found by a workspace search.
#[derive(Clone, Copy, Debug, PartialEq, Eq, Structural)]
pub struct Hit {
    pub file: FileId,
    pub first_line: usize,
    pub last_line: usize,
}

/// What an entry of a picker leads to.
#[derive(Clone, Copy, Debug, PartialEq, Eq, Structural)]
pub enum Target {
    File(FileId),
    Directory(FileId),
    Symbol(FileId, Position),
    Location(Destination),
    Buffer(DocumentId),
    Jump(JumpLocation),
    Search(Hit),
}

/// A list that is captured when a picker opens.
#[derive(Clone, Copy, Debug, PartialEq, Eq, Structural)]
pub enum Catalog {
    Buffers,
    Jumps,
    Locations,
    Documents,
    Symbols,
}

/// The lists of symbols a picker offers and when it asks for them.
#[derive(Debug)]
pub struct SymbolSource {
    pub workspace: bool,
    pub document: DocumentId,
    pub revision: Revision,
    pub language: Option<LanguageId>,
    pub file: Option<FileId>,
    pub selections: Arc<Selections>,
    pub mode: Mode,
    pub catalog: Option<u64>,
    pub due: Option<Time>,
    pub loading: bool,
    pub error: Option<Arc<Error>>,
}

/// Where the entries of a picker come from.
#[derive(Debug)]
pub enum Source {
    Files { origin: Option<FileId>, directory: FileId },
    Symbols(SymbolSource),
    Locations { catalog: u64, document: DocumentId, revision: Revision },
    Buffers { catalog: u64 },
    Jumps { captured: Option<u64> },
    Search { root: FileId, documents: Option<u64>, register: char, due: Time },
    Browser(Browser),
    Diagnostics { workspace: bool, catalog: u64, generation: u64 },
}

/// The line below a picker.
#[derive(Debug)]
pub enum Notice {
    Empty,
    /// Text of the worker that ranked the entries.
    Text(String),
    /// Nothing matched.
    NoMatch,
    /// No line of the workspace matched.
    NoLines,
    /// More symbols matched than are shown.
    SymbolLimit,
    /// Opening the picked entry failed.
    Failed(Arc<Error>),
    /// Asking for the entries failed; only closing is left.
    Closing(Arc<Error>),
}

/// What stands in the preview.
#[derive(Clone, Copy, Debug, PartialEq, Eq, Structural)]
pub enum PreviewState {
    Empty,
    Loading,
    Shown,
}

/// The rows of a picker, as far as decisions depend on them.
#[derive(Debug)]
pub struct Rows {
    pub query: String,
    /// Whether a register's name is awaited to be inserted.
    pub register_pending: bool,
    /// Whether more rows may come.
    pub pending: bool,
    /// Whether the rows of a search are those of the present query, and not
    /// older ones that stand in for them.
    pub current: bool,
    pub items: usize,
    pub selected: Option<Target>,
    pub matched: usize,
    pub total: usize,
    pub notice: Notice,
    pub preview: PreviewState,
}

/// An open picker.
#[derive(Debug)]
pub struct Active {
    pub view: Rows,
    pub session: u64,
    pub revision: u64,
    pub source: Source,
    /// Whether the present query was given up.
    pub cancelled: bool,
    pub preview_cancelled: bool,
    pub preview_request: u64,
    pub preview_target: Option<Target>,
    /// Whether the selected entry is opened once the rows are current.
    pub accept_pending: bool,
}

/// A query for a worker, or, without a query, leave to forget its lists.
#[derive(Debug)]
pub struct QueryJob {
    pub session: u64,
    pub revision: u64,
    pub query: Option<String>,
}

/// A preview for a worker.
#[derive(Clone, Copy, Debug, PartialEq, Eq, Structural)]
pub struct PreviewJob {
    pub session: u64,
    pub request: u64,
    pub target: Target,
    /// The place to show, where the target has one.
    pub position: Option<Position>,
}

/// The pickers of the application and the jobs they wait to hand out.
#[derive(Debug)]
pub struct State {
    pub active: Option<Active>,
    pub last: Option<Active>,
    pub next_session: u64,
    pub captures: u64,
    pub file_job: Option<QueryJob>,
    pub preview_job: Option<PreviewJob>,
    pub symbol_job: Option<QueryJob>,
    pub location_job: Option<QueryJob>,
    pub buffer_job: Option<QueryJob>,
    pub jump_job: Option<QueryJob>,
    pub search_job: Option<QueryJob>,
    pub browser_job: Option<QueryJob>,
    pub diagnostic_job: Option<QueryJob>,
}

/// Where the entries of a closed picker come from: it keeps its rows, but no
/// document.
pub open spec fn closed_source(source: Source) -> Source {
    match source {
        Source::Search { root, documents, register, due } => Source::Search {
            root,
            documents: None,
            register,
            due,
        },
        Source::Jumps { captured } => Source::Jumps { captured: None },
        other => other,
    }
}

fn close_source(source: Source) -> (closed: Source)
    ensures
        closed == closed_source(source),
{
    match source {
        Source::Search { root, documents, register, due } => Source::Search {
            root,
            documents: None,
            register,
            due,
        },
        Source::Jumps { captured } => Source::Jumps { captured: None },
        other => other,
    }
}

impl Active {
    /// What giving up the query and the preview asks for.
    pub open spec fn cancel_effects(self) -> Seq<Effect> {
        seq![
            Effect::Cancel(Job::Query(self.session, self.revision)),
            Effect::Cancel(Job::Preview(self.session, self.preview_request)),
        ]
    }

    /// The picker as it is kept once it was closed.
    pub open spec fn closed(self) -> Active {
        Active {
            cancelled: true,
            preview_cancelled: true,
            accept_pending: false,
            source: closed_source(self.source),
            ..self
        }
    }

    /// The picker with a new query.
    pub open spec fn requeried(self) -> Active {
        Active {
            cancelled: false,
            preview_cancelled: true,
            revision: (self.revision + 1) as u64,
            preview_target: None,
            accept_pending: false,
            ..self
        }
    }

    /// The query of the picker as a job.
    pub open spec fn job(self) -> QueryJob {
        QueryJob {
            session: self.session,
            revision: self.revision,
            query: Some(self.view.query),
        }
    }

    pub fn query_job(&self) -> (job: QueryJob)
        ensures
            job == self.job(),
    {
        QueryJob {
            session: self.session,
            revision: self.revision,
            query: Some(self.view.query.clone()),
        }
    }

    pub fn push_cancel(&self, out: &mut Vec<Effect>)
        ensures
            final(out)@ == old(out)@ + self.cancel_effects(),
    {
        out.push(Effect::Cancel(Job::Query(self.session, self.revision)));
        out.push(Effect::Cancel(Job::Preview(self.session, self.preview_request)));
        assert(out@ =~= old(out)@ + self.cancel_effects());
    }
}

impl State {
    /// The state without jobs that wait to be handed out, the worker's leave
    /// to forget apart.
    pub open spec fn without_jobs(self) -> State {
        State {
            preview_job: None,
            symbol_job: None,
            location_job: None,
            buffer_job: None,
            jump_job: None,
            search_job: None,
            browser_job: None,
            diagnostic_job: None,
            ..self
        }
    }
}

impl App {
    /// The application without an open picker; the one that was open can be
    /// reopened.
    pub open spec fn picker_closed(self) -> App {
        let app = match self.picker.active {
            Some(active) => {
                let symbols = active.source is Symbols;
                let app = if symbols { self.request_cancelled() } else { self };
                App {
                    picker: State {
                        active: None,
                        last: Some(active.closed()),
                        file_job: if symbols {
                            app.picker.file_job
                        } else {
                            Some(
                                QueryJob {
                                    session: active.session,
                                    revision: active.revision,
                                    query: None,
                                },
                            )
                        },
                        ..app.picker
                    },
                    ..app
                }
            },
            None => self,
        };
        App { picker: app.picker.without_jobs(), ..app }
    }

    /// What closing the picker asks for.
    pub open spec fn close_effects(self) -> Seq<Effect> {
        match self.picker.active {
            Some(active) => active.cancel_effects() + if active.source is Symbols {
                self.language.cancel_effects()
            } else {
                seq![]
            },
            None => seq![],
        }
    }

    /// Closes the picker.
    pub fn close_picker(&mut self, out: &mut Vec<Effect>)
        ensures
            *final(self) == old(self).picker_closed(),
            final(out)@ == old(out)@ + old(self).close_effects(),
    {
        assert(out@ =~= old(out)@ + Seq::<Effect>::empty());
        match self.picker.active.take() {
            Some(active) => {
                active.push_cancel(out);
                let symbols = match &active.source {
                    Source::Symbols(_) => true,
                    _ => false,
                };
                if symbols {
                    self.cancel_language_request(out);
                } else {
                    self.picker.file_job = Some(
                        QueryJob {
                            session: active.session,
                            revision: active.revision,
                            query: None,
                        },
                    );
                }
                self.picker.last = Some(
                    Active {
                        cancelled: true,
                        preview_cancelled: true,
                        accept_pending: false,
                        source: close_source(active.source),
                        ..active
                    },
                );
                assert(out@ =~= old(out)@ + old(self).close_effects());
            },
            None => {},
        }
        self.picker.preview_job = None;
        self.picker.symbol_job = None;
        self.picker.location_job = None;
        self.picker.buffer_job = None;
        self.picker.jump_job = None;
        self.picker.search_job = None;
        self.picker.browser_job = None;
        self.picker.diagnostic_job = None;
    }

    /// The application ready for a picker to open: nothing else is.
    pub open spec fn picker_prepared(self) -> App {
        App { prompt: None, ..self.picker_closed().dismissed() }
    }

    /// What getting ready for a picker asks for.
    pub open spec fn prepare_effects(self) -> Seq<Effect> {
        self.close_effects() + self.picker_closed().language.cancel_effects() + (
        if self.editor.search_prompt is Some {
            seq![Effect::CancelKeys, Effect::CancelSearch]
        } else {
            seq![Effect::CancelKeys]
        })
    }

    /// Closes everything that a picker stands in front of.
    pub fn prepare_picker(&mut self, out: &mut Vec<Effect>)
        ensures
            *final(self) == old(self).picker_prepared(),
            final(out)@ == old(out)@ + old(self).prepare_effects(),
    {
        self.close_picker(out);
        self.dismiss_language_help(out);
        out.push(Effect::CancelKeys);
        self.prompt = None;
        if self.editor.search_prompt.is_some() {
            out.push(Effect::CancelSearch);
        }
        assert(out@ =~= old(out)@ + old(self).prepare_effects());
    }

    /// A picker that has just opened.
    pub open spec fn new_picker(self, view: Rows, source: Source) -> Active {
        Active {
            view,
            session: (self.picker.next_session + 1) as u64,
            revision: 0,
            source,
            cancelled: false,
            preview_cancelled: false,
            preview_request: 0,
            preview_target: None,
            accept_pending: false,
        }
    }

    /// The application with a new picker open.
    pub open spec fn picker_begun(self, view: Rows, source: Source) -> App {
        App {
            picker: State {
                next_session: (self.picker.next_session + 1) as u64,
                active: Some(self.new_picker(view, source)),
                ..self.picker
            },
            ..self
        }
    }

    pub(crate) fn begin_picker(&mut self, view: Rows, source: Source)
        requires
            old(self).picker.next_session < u64::MAX,
        ensures
            *final(self) == old(self).picker_begun(view, source),
    {
        self.picker.next_session = self.picker.next_session + 1;
        self.picker.active = Some(
            Active {
                view,
                session: self.picker.next_session,
                revision: 0,
                source,
                cancelled: false,
                preview_cancelled: false,
                preview_request: 0,
                preview_target: None,
                accept_pending: false,
            },
        );
    }

    /// The application with an open picker.
    pub open spec fn with_picker(self, active: Active) -> App {
        App { picker: State { active: Some(active), ..self.picker }, ..self }
    }

    /// The application after the query of a picker whose worker ranks a list
    /// was handed out.
    pub open spec fn ranking_submitted(self) -> App {
        let active = self.picker.active->0.requeried();
        let job = Some(active.job());
        let state = State { active: Some(active), preview_job: None, ..self.picker };
        App {
            picker: match active.source {
                Source::Locations { .. } => State { location_job: job, ..state },
                Source::Jumps { .. } => State { jump_job: job, ..state },
                Source::Buffers { .. } => State { buffer_job: job, ..state },
                Source::Browser { .. } => State { browser_job: job, ..state },
                Source::Diagnostics { .. } => State { diagnostic_job: job, ..state },
                _ => State { file_job: job, ..state },
            },
            ..self
        }
    }

    pub(crate) fn submit_ranking(&mut self, out: &mut Vec<Effect>)
        requires
            old(self).picker.active is Some,
            old(self).picker.active->0.revision < u64::MAX,
        ensures
            *final(self) == old(self).ranking_submitted(),
            final(out)@ == old(out)@ + old(self).picker.active->0.cancel_effects(),
    {
        let active = match &mut self.picker.active {
            Some(active) => active,
            None => {
                return;
            },
        };
        active.push_cancel(out);
        active.cancelled = false;
        active.preview_cancelled = true;
        active.revision = active.revision + 1;
        active.preview_target = None;
        active.accept_pending = false;
        let job = Some(active.query_job());
        self.picker.preview_job = None;
        match &active.source {
            Source::Locations { .. } => {
                self.picker.location_job = job;
            },
            Source::Jumps { .. } => {
                self.picker.jump_job = job;
            },
            Source::Buffers { .. } => {
                self.picker.buffer_job = job;
            },
            Source::Browser { .. } => {
                self.picker.browser_job = job;
            },
            Source::Diagnostics { .. } => {
                self.picker.diagnostic_job = job;
            },
            _ => {
                self.picker.file_job = job;
            },
        }
    }
}

impl App {
    /// Hands out the query of a file picker, once.
    pub fn take_picker_job(&mut self) -> (job: Option<QueryJob>)
        ensures
            job == old(self).picker.file_job,
            *final(self) == (App {
                picker: State { file_job: None, ..old(self).picker },
                ..*old(self)
            }),
    {
        self.picker.file_job.take()
    }

    /// Hands out the preview to load, once.
    pub fn take_preview_job(&mut self) -> (job: Option<PreviewJob>)
        ensures
            job == old(self).picker.preview_job,
            *final(self) == (App {
                picker: State { preview_job: None, ..old(self).picker },
                ..*old(self)
            }),
    {
        self.picker.preview_job.take()
    }

    /// Hands out the query of a symbol picker, once.
    pub fn take_symbol_job(&mut self) -> (job: Option<QueryJob>)
        ensures
            job == old(self).picker.symbol_job,
            *final(self) == (App {
                picker: State { symbol_job: None, ..old(self).picker },
                ..*old(self)
            }),
    {
        self.picker.symbol_job.take()
    }

    /// Hands out the query of a location picker, once.
    pub fn take_location_job(&mut self) -> (job: Option<QueryJob>)
        ensures
            job == old(self).picker.location_job,
            *final(self) == (App {
                picker: State { location_job: None, ..old(self).picker },
                ..*old(self)
            }),
    {
        self.picker.location_job.take()
    }

    /// Hands out the query of a buffer picker, once.
    pub fn take_buffer_job(&mut self) -> (job: Option<QueryJob>)
        ensures
            job == old(self).picker.buffer_job,
            *final(self) == (App {
                picker: State { buffer_job: None, ..old(self).picker },
                ..*old(self)
            }),
    {
        self.picker.buffer_job.take()
    }

    /// Hands out the query of a jump picker, once.
    pub fn take_jump_job(&mut self) -> (job: Option<QueryJob>)
        ensures
            job == old(self).picker.jump_job,
            *final(self) == (App {
                picker: State { jump_job: None, ..old(self).picker },
                ..*old(self)
            }),
    {
        self.picker.jump_job.take()
    }

    /// Hands out the directory to list, once.
    pub fn take_browser_job(&mut self) -> (job: Option<QueryJob>)
        ensures
            job == old(self).picker.browser_job,
            *final(self) == (App {
                picker: State { browser_job: None, ..old(self).picker },
                ..*old(self)
            }),
    {
        self.picker.browser_job.take()
    }

    /// Hands out the query of a problem picker, once.
    pub fn take_diagnostic_job(&mut self) -> (job: Option<QueryJob>)
        ensures
            job == old(self).picker.diagnostic_job,
            *final(self) == (App {
                picker: State { diagnostic_job: None, ..old(self).picker },
                ..*old(self)
            }),
    {
        self.picker.diagnostic_job.take()
    }
}

} // verus!
