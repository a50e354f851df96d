//! The application as it starts.

use crate::actions;
use crate::app::{App, Viewport};
use crate::clipboard;
use crate::completion;
use crate::editor::Editor;
use crate::error::Error;
use crate::formatting;
use crate::git;
use crate::git_write;
use crate::jumps::{has_trail, Histories, Jump, Trail};
use crate::language;
use crate::message::Message;
use crate::mouse;
use crate::navigation;
use crate::picker;
use crate::prompt::History;
use crate::reload;
use crate::rename;
use crate::signature;
use crate::status;
use crate::windows::{self, has_pane, Pane};
use vstd::prelude::*;

verus! {

/// Whether nothing has happened yet to an application that shows a document.
pub open spec fn fresh(app: App, editor: Editor, size: (u16, u16)) -> bool {
    &&& app.editor == editor
    &&& app.size == size
    &&& app.viewport == (Viewport { top_line: 0, left_column: 0 })
    &&& app.prompt is None
    &&& app.prompt_history@.len() == 0
    &&& app.message == Message::Welcome
    &&& !app.error
    &&& !app.quit
    &&& app.automatic_language
    &&& fresh_services(app)
    &&& app.picker == fresh_picker()
    &&& app.windows.layout.root == crate::layout::Node::Leaf(0)
    &&& app.windows.layout.active == 0
    &&& app.windows.layout.next == 1
    &&& app.windows.panes@ == seq![
        Pane {
            id: 0,
            git: None,
            document: editor.document,
            view: 0,
            viewport: (Viewport { top_line: 0, left_column: 0 }),
        },
    ]
    &&& app.windows.buffers@.len() == 0
    &&& app.windows.syntax_documents@.len() == 0
    &&& app.windows.next_view == 1
    &&& app.jumps@ == seq![(0u64, Trail { entries: seq![app.screen().spot()], cursor: 0 })]
}

/// A picker that was never opened.
pub open spec fn fresh_picker() -> picker::State {
    picker::State {
        active: None,
        last: None,
        next_session: 0,
        captures: 0,
        file_job: None,
        preview_job: None,
        symbol_job: None,
        location_job: None,
        buffer_job: None,
        jump_job: None,
        search_job: None,
        browser_job: None,
        diagnostic_job: None,
    }
}

/// Whether no service was asked for anything yet.
pub open spec fn fresh_services(app: App) -> bool {
    &&& app.language == (language::State {
        enabled: false,
        epoch: 0,
        document: None,
        force: false,
        next_request: 0,
        pending: None,
        command: None,
        workspace_generation: 0,
        catalog_generation: 0,
        diagnostics: None,
        diagnostic_revision: None,
        popup: None,
        status: language::Status::Absent,
        completion: None,
        saved: 0,
        saved_snapshot: None,
    })
    &&& app.completion == (completion::State {
        config: completion::Config { enabled: true, delay: 100, min_length: 2 },
        active: None,
        outgoing: None,
        scheduled: None,
    })
    &&& app.actions == actions::State::idle()
    &&& app.rename == rename::State::idle()
    &&& app.formatting == (formatting::State { context: None })
    &&& app.signature == (signature::State {
        observed: None,
        due: None,
        engaged: false,
        active: None,
    })
    &&& app.navigation == (navigation::State { pending: None, job: None, next: 0 })
    &&& app.mouse == (mouse::State {
        enabled: true,
        focused: true,
        drag: false,
        completion: None,
        hints: None,
    })
    &&& app.clipboard == (clipboard::State { next_id: 0, pending: None })
    &&& app.reload == (reload::State { due: None, request: 0, cancelled: false })
    &&& !app.git.enabled
    &&& app.git.seen@.len() == 0
    &&& app.git.results@.len() == 0
    &&& app.git == (git::State {
        enabled: false,
        seen: app.git.seen,
        due: None,
        first_edit: None,
        refresh_at: None,
        refresh: false,
        request: 0,
        cancelled: false,
        results: app.git.results,
    })
    &&& app.status.views@.len() == 0
    &&& app.status.visible@.len() == 0
    &&& app.status == (status::State {
        views: app.status.views,
        visible: app.status.visible,
        due: None,
        request: 0,
        cancelled: false,
    })
    &&& app.git_write.pending@.len() == 0
    &&& app.git_write.jobs@.len() == 0
    &&& app.git_write.drafts@.len() == 0
    &&& app.git_write == (git_write::State {
        next: 0,
        pending: app.git_write.pending,
        jobs: app.git_write.jobs,
        drafts: app.git_write.drafts,
        prefix: None,
        status_prefix: None,
    })
}

fn new_picker() -> (state: picker::State)
    ensures
        state == fresh_picker(),
{
    picker::State {
        active: None,
        last: None,
        next_session: 0,
        captures: 0,
        file_job: None,
        preview_job: None,
        symbol_job: None,
        location_job: None,
        buffer_job: None,
        jump_job: None,
        search_job: None,
        browser_job: None,
        diagnostic_job: None,
    }
}

fn new_language() -> (state: language::State)
    ensures
        state == (language::State {
            enabled: false,
            epoch: 0,
            document: None,
            force: false,
            next_request: 0,
            pending: None,
            command: None,
            workspace_generation: 0,
            catalog_generation: 0,
            diagnostics: None,
            diagnostic_revision: None,
            popup: None,
            status: language::Status::Absent,
            completion: None,
            saved: 0,
            saved_snapshot: None,
        }),
{
    language::State {
        enabled: false,
        epoch: 0,
        document: None,
        force: false,
        next_request: 0,
        pending: None,
        command: None,
        workspace_generation: 0,
        catalog_generation: 0,
        diagnostics: None,
        diagnostic_revision: None,
        popup: None,
        status: language::Status::Absent,
        completion: None,
        saved: 0,
        saved_snapshot: None,
    }
}

impl App {
    /// The application that shows a document in one window. The document has
    /// one view, which is the first.
    pub fn from_document(editor: Editor, size: (u16, u16)) -> (app: App)
        requires
            editor.view == 0,
        ensures
            fresh(app, editor, size),
            app.sound(),
            app.prompt_history.valid(),
    {
        let windows = windows::State::new(editor.document);
        let jumps = Histories::new(0, Jump::new(editor.document, &editor.selections));
        let app = App {
            editor,
            viewport: Viewport { top_line: 0, left_column: 0 },
            prompt: None,
            prompt_history: History::default(),
            message: Message::Welcome,
            error: false,
            quit: false,
            size,
            automatic_language: true,
            language: new_language(),
            picker: new_picker(),
            completion: completion::State {
                config: completion::Config::default(),
                active: None,
                outgoing: None,
                scheduled: None,
            },
            actions: actions::State { context: None, language: None, menu: None, request: None },
            rename: rename::State { context: None, request: None },
            formatting: formatting::State { context: None },
            signature: signature::State { observed: None, due: None, engaged: false, active: None },
            navigation: navigation::State { pending: None, job: None, next: 0 },
            windows,
            jumps,
            mouse: mouse::State::default(),
            clipboard: clipboard::State { next_id: 0, pending: None },
            git: git::State {
                enabled: false,
                seen: Vec::new(),
                due: None,
                first_edit: None,
                refresh_at: None,
                refresh: false,
                request: 0,
                cancelled: false,
                results: Vec::new(),
            },
            reload: reload::State { due: None, request: 0, cancelled: false },
            status: status::State {
                views: Vec::new(),
                visible: Vec::new(),
                due: None,
                request: 0,
                cancelled: false,
            },
            git_write: git_write::State {
                next: 0,
                pending: Vec::new(),
                jobs: Vec::new(),
                drafts: Vec::new(),
                prefix: None,
                status_prefix: None,
            },
        };
        proof {
            let screen = app.screen();
            assert(screen.trails[0].0 == 0);
            assert(has_trail(screen.trails, 0));
            assert forall|id: u64| #[trigger] has_pane(screen.panes, id) implies has_trail(
                screen.trails,
                id,
            ) by {
                let i = choose|i: int|
                    0 <= i < screen.panes.len() && (#[trigger] screen.panes[i]).id == id;
                assert(i == 0);
            }
        }
        app
    }

    /// The application that shows a loaded file, where it could be loaded.
    pub fn open(loaded: Result<Editor, Error>, size: (u16, u16)) -> (app: Result<App, Error>)
        requires
            loaded matches Ok(editor) ==> editor.view == 0,
        ensures
            match (loaded, app) {
                (Ok(editor), Ok(app)) => {
                    &&& fresh(app, editor, size)
                    &&& app.sound()
                    &&& app.prompt_history.valid()
                },
                (Err(error), Err(refused)) => refused == error,
                _ => false,
            },
    {
        match loaded {
            Ok(editor) => Ok(App::from_document(editor, size)),
            Err(error) => Err(error),
        }
    }
}

} // verus!
