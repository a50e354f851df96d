use std::sync::Arc;
use vex_term::answers::{Answer, ServerEvent};
use vex_term::app::App;
use vex_term::browser::{Browser, Start, HISTORY};
use vex_term::dispatch::{Handled, Inputs};
use vex_term::editor::{Editor, Mode, Server, MILLISECOND};
use vex_term::effect::{Effect, Job};
use vex_term::error::Error;
use vex_term::hints::{Hint, HintSource};
use vex_term::event::{Event, Key, KeyPress};
use vex_term::language::RequestKind;
use vex_term::mouse::Popups;
use vex_term::navigation::Found;
use vex_term::picker::{
    Destination, Hit, JumpLocation, Notice, Position, PreviewState, Rows, Source, Target,
};
use vex_term::picking::{Action, Ranked};
use vex_term::refresh;
use vex_term::selection::{Selection, Selections};
use vex_term::server::Update;
use vex_term::windows::{Buffer, Prepared};

fn editor(document: u64) -> Editor {
    Editor {
        document,
        revision: 0,
        view: 0,
        selections: Arc::new(Selections {
            ranges: vec![Selection { anchor: 0, head: 1 }],
            primary: 0,
        }),
        mode: Mode::Normal,
        cursor: 0,
        length: 0,
        bytes: 0,
        lines: 1,
        language: None,
        server: None,
        file: None,
        dirty: false,
        document_stamp: 0,
        workspace_stamp: 0,
        search_prompt: None,
        search_register: None,
        search_status: None,
        search_waiting: false,
        search_pending: false,
        repeat_pending: false,
        repeat_ready: false,
        keys_pending: false,
    }
}

fn rows() -> Rows {
    Rows {
        query: String::new(),
        register_pending: false,
        pending: true,
        current: false,
        items: 0,
        selected: None,
        matched: 0,
        total: 0,
        notice: Notice::Empty,
        preview: PreviewState::Empty,
    }
}

fn ranked(session: u64, revision: u64, selected: Option<Target>) -> Ranked {
    Ranked {
        session,
        revision,
        items: if selected.is_some() { 1 } else { 0 },
        selected,
        matched: 1,
        total: 3,
        notice: Notice::Empty,
    }
}

fn app() -> App {
    App::from_document(
        Editor { file: Some(1), length: 20, lines: 3, ..editor(1) },
        (120, 18),
    )
}

fn press(app: &mut App, key: Key, action: Action) -> (bool, Option<Target>, Vec<Effect>) {
    let mut out = Vec::new();
    let inputs = Inputs {
        now: 10_000 * MILLISECOND,
        action,
        room: true,
        counted: false,
        space: false,
        requested: false,
        popups: Popups { signature: None, completion: false, hover: None },
    };
    let event = Event::Key(KeyPress { released: false, key: Some(key) });
    match app.handle(event, inputs, &mut out) {
        Handled::Picker { redraw, target } => (redraw, target, out),
        other => panic!("{other:?}"),
    }
}

fn type_query(app: &mut App, query: &str) -> Vec<Effect> {
    app.picker.active.as_mut().unwrap().view.query = query.into();
    press(app, Key::Char('x'), Action::Query).2
}

/// The rows of a query that has changed are gone until new ones come.
fn begin_update(app: &mut App) {
    let view = &mut app.picker.active.as_mut().unwrap().view;
    view.pending = true;
    view.items = 0;
    view.selected = None;
}

const NOW: u64 = 10_000 * MILLISECOND;

#[test]
fn stale_query_preview_and_previous_session_results_cannot_replace_current_picker() {
    let mut app = app();
    let mut out = Vec::new();
    app.open_file_picker(rows(), Ok(9), NOW, &mut out);
    let old = app.take_picker_job().unwrap();
    let cancelled = type_query(&mut app, "beta");
    assert!(matches!(
        cancelled[0],
        Effect::Cancel(Job::Query(session, revision))
            if session == old.session && revision == old.revision
    ));
    let file = Some(Target::File(2));
    let late = ranked(old.session, old.revision, file);
    assert!(!app.handle_picker_result(late, false, true, &mut out).0);
    let job = app.take_picker_job().unwrap();
    assert_eq!(job.query.as_deref(), Some("beta"));
    let current = ranked(job.session, job.revision, file);
    assert!(app.handle_picker_result(current, false, true, &mut out).0);
    let preview = app.take_preview_job().unwrap();
    assert_eq!(preview.target, Target::File(2));
    type_query(&mut app, "bet");
    assert!(!app.handle_preview_result(preview.session, preview.request));
    let old = app.take_picker_job().unwrap();
    press(&mut app, Key::Escape, Action::Cancel);
    assert!(app.picker.active.is_none());
    app.open_file_picker(rows(), Ok(9), NOW, &mut out);
    let late = ranked(old.session, old.revision, file);
    assert!(!app.handle_picker_result(late, false, true, &mut out).0);
    assert_eq!(app.picker.active.as_ref().unwrap().view.items, 0);
}

#[test]
fn last_picker_restores_query_selection_and_rejects_old_session_results() {
    let mut app = app();
    let mut out = Vec::new();
    assert!(matches!(
        app.reopen_last_picker(NOW, true, &mut out),
        Err(Error::NoPreviousPicker)
    ));
    app.open_file_picker(rows(), Ok(9), NOW, &mut out);
    type_query(&mut app, "t");
    let job = app.take_picker_job().unwrap();
    let wanted = Some(Target::File(2));
    app.handle_picker_result(ranked(job.session, job.revision, wanted), false, true, &mut out);
    let late = app.take_preview_job().unwrap();
    let old_session = app.picker.active.as_ref().unwrap().session;
    let (_, target, _) = press(&mut app, Key::Enter, Action::Accept);
    assert_eq!(target, wanted);
    app.finish_accept(Ok(()), &mut out);
    assert!(app.picker.active.is_none());
    app.reopen_last_picker(NOW, true, &mut out).unwrap();
    let active = app.picker.active.as_ref().unwrap();
    assert_ne!(active.session, old_session);
    assert_eq!(active.view.query, "t");
    assert_eq!(active.view.selected, wanted);
    assert!(!app.handle_preview_result(late.session, late.request));
    let job = app.take_picker_job().unwrap();
    app.handle_picker_result(ranked(job.session, job.revision, wanted), false, true, &mut out);
    assert_eq!(app.picker.active.as_ref().unwrap().view.selected, wanted);
    press(&mut app, Key::Escape, Action::Cancel);
    app.reopen_last_picker(NOW, true, &mut out).unwrap();
    assert_eq!(app.picker.active.as_ref().unwrap().view.query, "t");
}

#[test]
fn early_enter_waits_for_the_rows_and_failures_keep_the_picker_open() {
    let mut app = app();
    let mut out = Vec::new();
    app.open_buffer_picker(rows(), &mut out);
    let job = app.take_buffer_job().unwrap();
    let (_, target, _) = press(&mut app, Key::Enter, Action::Accept);
    assert_eq!(target, None);
    assert!(app.input_waiting(false));
    let wanted = Some(Target::Buffer(1));
    let (redraw, target) =
        app.handle_buffer_result(ranked(job.session, job.revision, wanted), true, &mut out);
    assert!(redraw);
    assert_eq!(target, wanted);
    assert!(!app.input_waiting(false));
    app.finish_accept(Err(Error::PickedNotAFile), &mut out);
    let notice = &app.picker.active.as_ref().unwrap().view.notice;
    assert!(matches!(notice, Notice::Failed(_)));
    app.finish_accept(Ok(()), &mut out);
    assert!(app.picker.active.is_none());
    // Nothing matches: the picker says so and goes on.
    app.open_buffer_picker(rows(), &mut out);
    let job = app.take_buffer_job().unwrap();
    press(&mut app, Key::Enter, Action::Accept);
    app.handle_buffer_result(ranked(job.session, job.revision, None), true, &mut out);
    assert!(!app.input_waiting(false));
    let notice = &app.picker.active.as_ref().unwrap().view.notice;
    assert!(matches!(notice, Notice::NoMatch));
}

#[test]
fn file_lists_are_accepted_once_they_are_complete() {
    let mut app = app();
    let mut out = Vec::new();
    app.open_file_picker(rows(), Ok(9), NOW, &mut out);
    let job = app.take_picker_job().unwrap();
    press(&mut app, Key::Enter, Action::Accept);
    let file = Some(Target::File(2));
    let partial = ranked(job.session, job.revision, file);
    assert_eq!(app.handle_picker_result(partial, true, true, &mut out), (true, None));
    assert!(app.input_waiting(false));
    let complete = ranked(job.session, job.revision, file);
    assert_eq!(app.handle_picker_result(complete, false, true, &mut out), (true, file));
    assert!(matches!(app.open_picked_file(2, Ok(true)), Ok(true)));
    assert!(matches!(app.open_picked_file(2, Ok(false)), Err(Error::PickedNotAFile)));
    app.finish_accept(Ok(()), &mut out);
    app.open_file_picker(rows(), Err(Error::Other("no directory".into())), NOW, &mut out);
    assert!(app.picker.active.is_none());
    assert_eq!(app.message.show(), "no directory");
}

#[test]
fn previews_follow_the_selection_and_need_room() {
    let mut app = app();
    let mut out = Vec::new();
    app.open_file_picker(rows(), Ok(9), NOW, &mut out);
    let job = app.take_picker_job().unwrap();
    let first = Some(Target::File(2));
    app.handle_picker_result(ranked(job.session, job.revision, first), false, true, &mut out);
    let preview = app.take_preview_job().unwrap();
    assert!(app.handle_preview_result(preview.session, preview.request));
    assert_eq!(app.picker.active.as_ref().unwrap().view.preview, PreviewState::Shown);
    app.picker.active.as_mut().unwrap().view.selected = Some(Target::File(3));
    press(&mut app, Key::Down, Action::Selection);
    assert_eq!(app.picker.active.as_ref().unwrap().view.preview, PreviewState::Loading);
    assert!(!app.handle_preview_result(preview.session, preview.request));
    let preview = app.take_preview_job().unwrap();
    assert_eq!(preview.target, Target::File(3));
    app.request_picker_preview(false, &mut out);
    assert!(!app.handle_preview_result(preview.session, preview.request));
    assert_eq!(app.picker.active.as_ref().unwrap().view.preview, PreviewState::Empty);
}

#[test]
fn typing_debounces_without_copying_open_document_catalog_and_enter_dispatches_immediately() {
    let mut app = app();
    let mut out = Vec::new();
    app.start_workspace_search(9, '/', rows(), NOW, &mut out);
    type_query(&mut app, "nee");
    let catalog = open_documents(&app);
    assert!(catalog.is_some());
    let deadline = app.workspace_search_deadline().unwrap();
    assert!(app.take_workspace_search_job(deadline - 1).is_none());
    let old = app.picker.active.as_ref().unwrap().revision;
    let cancelled = type_query(&mut app, "needle");
    assert!(matches!(cancelled[0], Effect::Cancel(Job::Query(_, revision)) if revision == old));
    assert_eq!(open_documents(&app), catalog);
    let deadline = app.workspace_search_deadline().unwrap();
    let job = app.take_workspace_search_job(deadline).unwrap();
    assert_eq!(job.query.as_deref(), Some("needle"));
    assert!(app.workspace_search_deadline().is_none());
    type_query(&mut app, "needles");
    let before = app.workspace_search_deadline().unwrap() - 150 * MILLISECOND;
    press(&mut app, Key::Enter, Action::Accept);
    let job = app.take_workspace_search_job(before).unwrap();
    assert_eq!(job.query.as_deref(), Some("needles"));
    press(&mut app, Key::Escape, Action::Cancel);
    assert!(app.workspace_search_deadline().is_none());
    assert!(!app.input_waiting(false));
}

fn open_documents(app: &App) -> Option<u64> {
    match app.picker.active.as_ref().unwrap().source {
        Source::Search { documents, .. } => documents,
        _ => None,
    }
}

#[test]
fn empty_partial_scans_keep_old_rows_without_accepting_them_for_a_new_query() {
    let mut app = app();
    let mut out = Vec::new();
    app.start_workspace_search(9, '/', rows(), NOW, &mut out);
    type_query(&mut app, "needle");
    let job = app.take_workspace_search_job(NOW + 1000 * MILLISECOND).unwrap();
    let hit = Some(Target::Search(Hit { file: 1, first_line: 2, last_line: 2 }));
    let found = ranked(job.session, job.revision, hit);
    app.handle_workspace_search_result(found, true, true, false, true, &mut out);
    type_query(&mut app, "needlemissing");
    app.picker.active.as_mut().unwrap().view.pending = true;
    press(&mut app, Key::Enter, Action::Accept);
    assert!(app.input_waiting(false));
    let job = app.take_workspace_search_job(NOW).unwrap();
    // Nothing found yet: the rows of the query before stay.
    let partial = ranked(job.session, job.revision, hit);
    let (redraw, target) =
        app.handle_workspace_search_result(partial, false, false, true, true, &mut out);
    assert!(redraw);
    assert_eq!(target, None);
    assert_eq!(app.picker.active.as_ref().unwrap().view.selected, hit);
    assert!(app.picker.active.as_ref().unwrap().view.pending);
    assert!(app.input_waiting(false));
    let none = ranked(job.session, job.revision, None);
    let (_, target) =
        app.handle_workspace_search_result(none, true, true, false, true, &mut out);
    assert_eq!(target, None);
    assert!(!app.input_waiting(false));
    let view = &app.picker.active.as_ref().unwrap().view;
    assert!(view.items == 0 && !view.pending);
    assert!(matches!(view.notice, Notice::NoLines));
    assert_eq!(view.preview, PreviewState::Empty);
}

#[test]
fn checkpoints_of_changed_or_closed_documents_are_not_gone_to() {
    let mut app = app();
    let mut out = Vec::new();
    let location = JumpLocation { document: 1, revision: 0, line: 0, checkpoint: 0 };
    app.open_jump_picker(rows(), &mut out);
    assert!(app.accept_jump_location(location, true, NOW, &mut out).is_ok());
    app.editor.revision = 1;
    let session = app.picker.active.as_ref().unwrap().revision;
    assert!(matches!(
        app.accept_jump_location(location, true, NOW, &mut out),
        Err(Error::JumpBufferChanged)
    ));
    assert!(app.picker.active.as_ref().unwrap().revision > session);
    let closed = JumpLocation { document: 7, ..location };
    assert!(matches!(
        app.accept_jump_location(closed, true, NOW, &mut out),
        Err(Error::JumpBufferClosed)
    ));
}

#[test]
fn locations_load_in_the_background_and_record_where_they_were_asked_from() {
    let mut app = app();
    let mut out = Vec::new();
    let position = Position { line: 2, character: 3 };
    let destination = Destination { file: 5, start: position, end: position };
    app.begin_location_navigation(destination, &mut out);
    assert!(app.location_navigation_waiting());
    let job = app.take_location_navigation().unwrap();
    assert_eq!(job.destination, destination);
    let open = vec![4, 5];
    assert!(matches!(job.run(false, Ok(5), &open, Ok(true)), Ok(Found::Open(1))));
    assert!(matches!(job.run(false, Ok(6), &open, Ok(true)), Ok(Found::Load)));
    assert!(matches!(
        job.run(false, Ok(6), &open, Ok(false)),
        Err(Error::LocationNotAFile)
    ));
    assert!(matches!(
        job.run(true, Ok(5), &open, Ok(true)),
        Err(Error::NavigationCancelled)
    ));
    assert_eq!(app.handle_location_navigation(job.id + 1, false).0, false);
    let (redraw, origin) = app.handle_location_navigation(job.id, false);
    assert!(redraw);
    app.finish_location_navigation(origin.unwrap(), Ok(()), &mut out);
    assert!(!app.location_navigation_waiting());
    // Asked for from a place that was left since.
    app.begin_location_navigation(destination, &mut out);
    let job = app.take_location_navigation().unwrap();
    app.editor.selections =
        Arc::new(Selections { ranges: vec![Selection { anchor: 2, head: 3 }], primary: 0 });
    let (redraw, origin) = app.handle_location_navigation(job.id, false);
    assert!(redraw && origin.is_none());
}

#[test]
fn browsing_remembers_where_directories_were_left() {
    let mut browser = Browser::new(1);
    assert_eq!(browser.browse_directory(1, None, 0), None);
    assert_eq!(browser.browse_directory(2, Some(9), 10), Some(Start::Top));
    assert_eq!(browser.browse_directory(1, Some(1), 20), Some(Start::Restore(10)));
    assert_eq!(browser.browse_directory(2, Some(9), 30), Some(Start::Restore(20)));
    let mut fresh = Browser::new(5);
    assert_eq!(fresh.browse_directory(4, Some(4), 0), Some(Start::Select(5)));
    for directory in 100..300 {
        fresh.browse_directory(directory, None, directory);
    }
    assert_eq!(fresh.history.len(), HISTORY);
}

#[test]
fn stale_results_after_navigation_close_and_reopen_are_ignored() {
    let mut app = app();
    let mut out = Vec::new();
    assert!(matches!(
        app.open_browser(rows(), Err(Error::Other("gone".into())), true, &mut out),
        Err(Error::Other(_))
    ));
    assert!(matches!(app.open_browser(rows(), Ok(7), false, &mut out), Ok(Some(1))));
    let job = app.take_browser_job().unwrap();
    let entry = Some(Target::Directory(8));
    let listed = ranked(job.session, job.revision, entry);
    assert!(app.handle_browser_result(Some(77), listed, true, &mut out).0);
    match &app.picker.active.as_ref().unwrap().source {
        Source::Browser(browser) => assert_eq!(browser.directory, 77),
        other => panic!("{other:?}"),
    }
    assert_eq!(app.browse_directory(8, Some(77), 1, rows(), &mut out), Some(Start::Top));
    let old = app.take_browser_job().unwrap();
    assert_eq!(app.browser_parent(Some(77), 2, rows(), &mut out), Some(Start::Restore(1)));
    let late = ranked(old.session, old.revision, entry);
    assert!(!app.handle_browser_result(Some(8), late, true, &mut out).0);
    assert_eq!(app.browser_parent(None, 3, rows(), &mut out), None);
    let old = app.take_browser_job().unwrap();
    press(&mut app, Key::Escape, Action::Cancel);
    app.reopen_last_picker(NOW, true, &mut out).unwrap();
    let late = ranked(old.session, old.revision, entry);
    assert!(!app.handle_browser_result(Some(8), late, true, &mut out).0);
    let job = app.take_browser_job().unwrap();
    let listed = ranked(job.session, job.revision, entry);
    assert!(app.handle_browser_result(Some(77), listed, true, &mut out).0);
    match &app.picker.active.as_ref().unwrap().source {
        Source::Browser(browser) => assert_eq!(browser.directory, 77),
        other => panic!("{other:?}"),
    }
}

fn served() -> App {
    let mut app = App::from_document(
        Editor {
            file: Some(1),
            language: Some(0),
            server: Some(Server { label: "server".into(), command: "serve".into() }),
            length: 20,
            lines: 3,
            ..editor(1)
        },
        (140, 24),
    );
    app.enable_lsp();
    app.take_lsp_update(None, NOW, &mut Vec::new());
    app
}

fn update(app: &mut App, now: u64) -> (Option<Update>, Vec<Effect>) {
    let mut out = Vec::new();
    let update = app.take_lsp_update(None, now, &mut out);
    (update, out)
}

fn answer(app: &mut App, update: &Update, cancelled: bool, result: Result<Answer, Error>) -> bool {
    let document = update.document.as_ref().unwrap();
    let event = ServerEvent::Answer {
        epoch: document.epoch,
        revision: document.snapshot.revision,
        id: update.request.as_ref().unwrap().id,
        cancelled,
        result,
    };
    app.handle_lsp_event(event, NOW, &mut Vec::new()).0
}

#[test]
fn document_query_during_loading_uses_latest_filter_and_early_enter_jumps_back() {
    let mut app = served();
    let mut out = Vec::new();
    app.open_symbol_picker(false, rows(), NOW, &mut out);
    let request = update(&mut app, NOW).0.unwrap();
    assert!(matches!(
        request.request.as_ref().unwrap().kind,
        RequestKind::DocumentSymbols
    ));
    type_query(&mut app, "bet");
    assert!(update(&mut app, NOW).0.is_none());
    press(&mut app, Key::Enter, Action::Accept);
    assert!(app.input_waiting(false));
    assert!(answer(&mut app, &request, false, Ok(Answer::Symbols(5))));
    let job = app.take_symbol_job().unwrap();
    assert_eq!(job.query.as_deref(), Some("bet"));
    let symbol = Some(Target::Symbol(1, Position { line: 2, character: 3 }));
    let (redraw, target) = app.handle_symbol_result(
        ranked(job.session, job.revision, symbol),
        false,
        true,
        &mut out,
    );
    assert!(redraw);
    assert_eq!(target, symbol);
    app.record_jump();
    let opened = app.open_window_definition(Prepared::Existing(1), Some(15), &mut out);
    assert!(matches!(opened, Ok(15)));
    let there = Selection { anchor: 15, head: 16 };
    app.editor.selections = Arc::new(Selections { ranges: vec![there], primary: 0 });
    app.finish_accept(Ok(()), &mut out);
    assert!(!app.input_waiting(false));
    assert!(app.picker.active.is_none());
    let plan = app.navigate_jump(false, 1).unwrap();
    assert_eq!(plan.jump.document, 1);
    assert_eq!(App::jump_selections(&plan, 20).ranges[0].start(), 0);
}

#[test]
fn workspace_queries_debounce_and_reject_old_replies_rankings_and_previews() {
    let mut app = served();
    let mut out = Vec::new();
    app.open_symbol_picker(true, rows(), NOW, &mut out);
    let old = update(&mut app, NOW).0.unwrap();
    let id = old.request.as_ref().unwrap().id;
    let cancelled = type_query(&mut app, "al");
    assert!(cancelled
        .iter()
        .any(|effect| matches!(effect, Effect::Cancel(Job::Language(job)) if *job == id)));
    assert!(match update(&mut app, NOW).0 {
        Some(update) => update.request.is_none(),
        None => true,
    });
    let due = app.symbol_deadline().unwrap();
    assert!(app.take_symbol_request(due - MILLISECOND).is_none());
    let request = update(&mut app, due).0.unwrap();
    match &request.request.as_ref().unwrap().kind {
        RequestKind::WorkspaceSymbols(query) => assert_eq!(query, "al"),
        other => panic!("{other:?}"),
    }
    assert!(!answer(&mut app, &old, true, Ok(Answer::Symbols(1))));
    assert!(answer(&mut app, &request, false, Ok(Answer::Symbols(2))));
    let ranking = app.take_symbol_job().unwrap();
    type_query(&mut app, "alp");
    let first = Some(Target::Symbol(1, Position { line: 1, character: 3 }));
    let late = ranked(ranking.session, ranking.revision, first);
    assert!(!app.handle_symbol_result(late, false, true, &mut out).0);
    let due = app.symbol_deadline().unwrap();
    let request = update(&mut app, due).0.unwrap();
    assert!(answer(&mut app, &request, false, Ok(Answer::Symbols(3))));
    let job = app.take_symbol_job().unwrap();
    let current = ranked(job.session, job.revision, first);
    assert!(app.handle_symbol_result(current, false, true, &mut out).0);
    let preview = app.take_preview_job().unwrap();
    let second = Some(Target::Symbol(1, Position { line: 2, character: 3 }));
    app.picker.active.as_mut().unwrap().view.selected = second;
    press(&mut app, Key::Down, Action::Selection);
    // Different symbol, same file.
    assert!(!app.handle_preview_result(preview.session, preview.request));
    press(&mut app, Key::Escape, Action::Cancel);
    assert!(app.symbol_deadline().is_none());
    assert!(app.take_symbol_job().is_none());
}

#[test]
fn empty_errors_focus_loss_and_external_changes_release_pending_acceptance() {
    let mut app = served();
    let mut out = Vec::new();
    for success in [true, false] {
        app.open_symbol_picker(false, rows(), NOW, &mut out);
        let request = update(&mut app, NOW).0.unwrap();
        press(&mut app, Key::Enter, Action::Accept);
        assert!(app.input_waiting(false));
        let result = if success {
            Ok(Answer::Symbols(1))
        } else {
            Err(Error::Other("unsupported symbols".into()))
        };
        assert!(answer(&mut app, &request, false, result));
        if success {
            let job = app.take_symbol_job().unwrap();
            let none = ranked(job.session, job.revision, None);
            assert!(app.handle_symbol_result(none, false, true, &mut out).0);
        }
        assert!(!app.input_waiting(false));
        assert!(!app.picker.active.as_ref().unwrap().view.pending);
        press(&mut app, Key::Escape, Action::Cancel);
    }
    app.open_symbol_picker(false, rows(), NOW, &mut out);
    let request = update(&mut app, NOW).0.unwrap();
    let id = request.request.as_ref().unwrap().id;
    press(&mut app, Key::Enter, Action::Accept);
    let mut out = Vec::new();
    app.handle_picker_input(&Event::FocusLost, Action::Idle, NOW, true, &mut out);
    assert!(!app.input_waiting(false));
    assert!(out
        .iter()
        .any(|effect| matches!(effect, Effect::Cancel(Job::Language(job)) if *job == id)));
    assert!(!answer(&mut app, &request, true, Ok(Answer::Symbols(1))));
    app.open_symbol_picker(false, rows(), NOW, &mut out);
    let request = update(&mut app, NOW).0.unwrap();
    app.editor.revision += 1;
    update(&mut app, NOW);
    assert!(app.picker.active.is_none());
    assert!(!answer(&mut app, &request, true, Ok(Answer::Symbols(1))));
    let mut scratch = App::from_document(editor(1), (80, 24));
    scratch.enable_lsp();
    scratch.open_symbol_picker(false, rows(), NOW, &mut out);
    update(&mut scratch, NOW);
    let view = &scratch.picker.active.as_ref().unwrap().view;
    match &view.notice {
        Notice::Closing(error) => assert!(error.message().contains("named file")),
        other => panic!("{other:?}"),
    }
    assert!(!view.pending);
}

#[test]
fn one_location_is_gone_to_and_several_are_offered() {
    let mut app = app();
    let mut out = Vec::new();
    let position = Position { line: 2, character: 3 };
    let first = Destination { file: 5, start: position, end: position };
    let found = |items: usize, skipped: u64| refresh::Found { items, first, limited: false, skipped };
    app.receive_locations("References", found(0, 0), rows(), &mut out);
    assert_eq!(app.message.show(), "no references found");
    app.receive_locations("Type Definitions", found(0, 2), rows(), &mut out);
    assert_eq!(
        app.message.show(),
        "no usable type definitions (2 unsupported or invalid locations)"
    );
    app.receive_locations("References", found(1, 0), rows(), &mut out);
    assert_eq!(app.take_location_navigation().unwrap().destination, first);
    assert!(app.picker.active.is_none());
    app.receive_locations("References", found(3, 0), rows(), &mut out);
    assert!(matches!(
        app.picker.active.as_ref().unwrap().source,
        Source::Locations { .. }
    ));
    let job = app.take_location_job().unwrap();
    app.editor.revision += 1;
    let late = ranked(job.session, job.revision, Some(Target::Location(first)));
    assert!(!app.handle_location_result(late, true, &mut out).0);
    assert!(app.picker.active.is_none());
}

#[test]
fn reopened_picker_keeps_query_identity_and_preview_and_rejects_old_jobs() {
    let mut app = app();
    let mut out = Vec::new();
    app.open_jump_picker(rows(), &mut out);
    let stale = app.take_jump_job().unwrap();
    type_query(&mut app, "scratch");
    let late = ranked(stale.session, stale.revision, None);
    assert!(!app.handle_jump_result(late, true, &mut out).0);
    let job = app.take_jump_job().unwrap();
    let location = JumpLocation { document: 1, revision: 0, line: 1, checkpoint: 2 };
    let wanted = Some(Target::Jump(location));
    app.handle_jump_result(ranked(job.session, job.revision, wanted), true, &mut out);
    let preview = app.take_preview_job().unwrap();
    assert_eq!(preview.position.unwrap().line, 1);
    assert_eq!(preview.target, Target::Jump(location));
    let original = app.editor.selections.clone();
    press(&mut app, Key::Escape, Action::Cancel);
    assert_eq!(app.editor.selections.ranges, original.ranges);
    assert!(matches!(
        app.picker.last.as_ref().unwrap().source,
        Source::Jumps { captured: None }
    ));
    app.reopen_last_picker(NOW, true, &mut out).unwrap();
    assert!(!app.handle_preview_result(preview.session, preview.request));
    assert_eq!(app.picker.active.as_ref().unwrap().view.query, "scratch");
    // Cached rows must wait for refresh too.
    let (_, target, _) = press(&mut app, Key::Enter, Action::Accept);
    assert_eq!(target, None);
    assert!(app.input_waiting(false));
    let job = app.take_jump_job().unwrap();
    let (_, target) =
        app.handle_jump_result(ranked(job.session, job.revision, wanted), true, &mut out);
    assert_eq!(target, wanted);
    assert!(app.accept_jump_location(location, true, NOW, &mut out).is_ok());
    app.finish_accept(Ok(()), &mut out);
    assert!(app.picker.active.is_none());
    app.open_jump_picker(rows(), &mut out);
    let cancelled = app.take_jump_job().unwrap();
    let (_, _, asked) = press(&mut app, Key::Escape, Action::Cancel);
    assert!(matches!(
        asked[0],
        Effect::Cancel(Job::Query(session, revision))
            if session == cancelled.session && revision == cancelled.revision
    ));
}

#[test]
fn clears_refresh_an_open_picker_and_cancelled_early_acceptance_releases_input() {
    let mut app = served();
    let mut out = Vec::new();
    app.open_diagnostic_picker(true, rows(), &mut out).unwrap();
    type_query(&mut app, "other warning");
    let job = app.take_diagnostic_job().unwrap();
    let position = Position { line: 0, character: 8 };
    let problem = Destination { file: 2, start: position, end: position };
    let listed = ranked(job.session, job.revision, Some(Target::Location(problem)));
    let generation = app.language.catalog_generation;
    assert!(app.handle_diagnostic_result(listed, generation, true, NOW, &mut out).0);
    assert_eq!(app.picker.active.as_ref().unwrap().view.items, 1);
    // The servers report others.
    let event = ServerEvent::Catalog { generation: generation + 1, changed: true };
    app.handle_lsp_event(event, NOW, &mut out);
    app.picker.active.as_mut().unwrap().view.items = 0;
    app.picker.active.as_mut().unwrap().view.pending = true;
    press(&mut app, Key::Enter, Action::Accept);
    assert!(app.input_waiting(false));
    let job = app.take_diagnostic_job().unwrap();
    let none = ranked(job.session, job.revision, None);
    assert!(app.handle_diagnostic_result(none, generation + 1, true, NOW, &mut out).0);
    assert!(!app.input_waiting(false));
    assert_eq!(app.picker.active.as_ref().unwrap().view.items, 0);
    assert!(matches!(
        app.picker.active.as_ref().unwrap().view.notice,
        Notice::NoMatch
    ));
    type_query(&mut app, "new query");
    app.picker.active.as_mut().unwrap().view.pending = true;
    press(&mut app, Key::Enter, Action::Accept);
    let job = app.take_diagnostic_job().unwrap();
    assert!(app.input_waiting(false));
    let (_, _, asked) = press(&mut app, Key::Escape, Action::Cancel);
    assert!(asked.iter().any(|effect| matches!(
        effect,
        Effect::Cancel(Job::Query(session, revision))
            if *session == job.session && *revision == job.revision
    )));
    assert!(!app.input_waiting(false));
}

#[test]
fn last_symbol_picker_keeps_query_and_selection_after_accepting_a_symbol() {
    let mut app = served();
    let mut out = Vec::new();
    app.open_symbol_picker(false, rows(), NOW, &mut out);
    let request = update(&mut app, NOW).0.unwrap();
    assert!(answer(&mut app, &request, false, Ok(Answer::Symbols(5))));
    let first = Some(Target::Symbol(1, Position { line: 1, character: 3 }));
    let wanted = Some(Target::Symbol(1, Position { line: 2, character: 3 }));
    let finish = |app: &mut App, selected: Option<Target>| {
        let job = app.take_symbol_job().unwrap();
        let rows = ranked(job.session, job.revision, selected);
        assert!(app.handle_symbol_result(rows, false, true, &mut Vec::new()).0);
    };
    finish(&mut app, first);
    type_query(&mut app, "bet");
    finish(&mut app, wanted);
    let (_, target, _) = press(&mut app, Key::Enter, Action::Accept);
    assert_eq!(target, wanted);
    app.finish_accept(Ok(()), &mut out);
    assert!(app.picker.active.is_none());
    app.reopen_last_picker(NOW, true, &mut out).unwrap();
    finish(&mut app, wanted);
    assert_eq!(app.picker.active.as_ref().unwrap().view.query, "bet");
    assert_eq!(app.picker.active.as_ref().unwrap().view.selected, wanted);
    let (_, target, _) = press(&mut app, Key::Enter, Action::Accept);
    assert_eq!(target, wanted);
    app.finish_accept(Ok(()), &mut out);
    assert!(app.picker.active.is_none());
}

#[test]
fn document_picker_reuses_catalog_and_cancel_preserves_select_mode_and_unsaved_text() {
    let mut app = served();
    let mut out = Vec::new();
    app.editor.dirty = true;
    app.editor.mode = Mode::Select;
    let selections = app.editor.selections.clone();
    let revision = app.editor.revision;
    app.open_symbol_picker(false, rows(), NOW, &mut out);
    let request = update(&mut app, NOW).0.unwrap();
    assert!(answer(&mut app, &request, false, Ok(Answer::Symbols(5))));
    let first = Some(Target::Symbol(1, Position { line: 1, character: 3 }));
    let job = app.take_symbol_job().unwrap();
    app.handle_symbol_result(ranked(job.session, job.revision, first), false, true, &mut out);
    let preview = app.take_preview_job().unwrap();
    assert_eq!(preview.target, first.unwrap());
    assert!(app.handle_preview_result(preview.session, preview.request));
    type_query(&mut app, "beta");
    // The list is there: only its ranking is asked for.
    assert!(update(&mut app, NOW).0.is_none());
    let job = app.take_symbol_job().unwrap();
    assert_eq!(job.query.as_deref(), Some("beta"));
    app.handle_symbol_result(ranked(job.session, job.revision, first), false, true, &mut out);
    assert_eq!(app.picker.active.as_ref().unwrap().view.items, 1);
    press(&mut app, Key::Escape, Action::Cancel);
    assert_eq!(app.editor.mode, Mode::Select);
    assert_eq!(app.editor.selections.ranges, selections.ranges);
    assert_eq!(app.editor.revision, revision);
    assert!(app.is_dirty());
}

#[test]
fn buffer_picker_previews_unsaved_text_accepts_early_and_rejects_stale_results() {
    let mut app = app();
    let mut out = Vec::new();
    app.editor.dirty = true;
    app.editor.revision = 1;
    let other = Buffer { editor: Editor { file: Some(2), ..editor(2) }, automatic_language: true };
    app.open_window_file(Prepared::New(other), &mut out).unwrap();
    app.open_buffer_picker(rows(), &mut out);
    let old = app.take_buffer_job().unwrap();
    type_query(&mut app, "alpha");
    let original = Some(Target::Buffer(1));
    let late = ranked(old.session, old.revision, original);
    assert!(!app.handle_buffer_result(late, true, &mut out).0);
    let job = app.take_buffer_job().unwrap();
    assert!(app.handle_buffer_result(ranked(job.session, job.revision, original), true, &mut out).0);
    assert_eq!(app.picker.active.as_ref().unwrap().view.selected, original);
    let preview = app.take_preview_job().unwrap();
    assert_eq!(preview.target, Target::Buffer(1));
    assert_eq!(app.document_revision(1), Some(1));
    assert!(app.handle_preview_result(preview.session, preview.request));
    app.refresh_picker_buffer(1, true, true, NOW, &mut out);
    assert!(!app.handle_preview_result(preview.session, preview.request));
    // Another query cancels the one before, and an early Enter waits for it.
    type_query(&mut app, "alph");
    begin_update(&mut app);
    let (_, target, _) = press(&mut app, Key::Enter, Action::Accept);
    assert_eq!(target, None);
    assert!(app.input_waiting(false));
    let job = app.take_buffer_job().unwrap();
    let (redraw, target) =
        app.handle_buffer_result(ranked(job.session, job.revision, original), true, &mut out);
    assert!(redraw);
    assert_eq!(target, original);
    let opened = app.open_window_file(Prepared::Existing(1), &mut out);
    app.finish_accept(opened, &mut out);
    assert!(!app.input_waiting(false));
    assert!(app.picker.active.is_none());
    assert_eq!(app.editor.document, 1);
    assert!(app.is_dirty());
    app.open_buffer_picker(rows(), &mut out);
    let job = app.take_buffer_job().unwrap();
    let (_, _, asked) = press(&mut app, Key::Escape, Action::Cancel);
    assert!(asked.iter().any(|effect| matches!(
        effect,
        Effect::Cancel(Job::Query(session, revision))
            if *session == job.session && *revision == job.revision
    )));
    app.open_buffer_picker(rows(), &mut out);
    type_query(&mut app, "does-not-exist");
    begin_update(&mut app);
    press(&mut app, Key::Enter, Action::Accept);
    let job = app.take_buffer_job().unwrap();
    app.handle_buffer_result(ranked(job.session, job.revision, None), true, &mut out);
    assert!(!app.input_waiting(false));
    let notice = &app.picker.active.as_ref().unwrap().view.notice;
    assert!(matches!(notice, Notice::NoMatch));
}

#[test]
fn scratch_buffer_picker_uses_the_configured_language_and_has_no_disk_dependency() {
    let mut app = App::from_document(Editor { language: Some(0), ..editor(1) }, (120, 24));
    let mut out = Vec::new();
    app.open_buffer_picker(rows(), &mut out);
    let job = app.take_buffer_job().unwrap();
    let scratch = Some(Target::Buffer(1));
    app.handle_buffer_result(ranked(job.session, job.revision, scratch), true, &mut out);
    let preview = app.take_preview_job().unwrap();
    // A document that is open is previewed from its text, and not from a file.
    assert_eq!(preview.target, Target::Buffer(1));
    assert!(app.handle_preview_result(preview.session, preview.request));
    let (_, target, _) = press(&mut app, Key::Enter, Action::Accept);
    assert_eq!(target, scratch);
    app.finish_accept(Ok(()), &mut out);
    assert!(app.picker.active.is_none());
}

#[test]
fn changed_open_buffers_reject_old_hits_and_refresh_without_losing_early_enter() {
    let mut app = app();
    let mut out = Vec::new();
    app.start_workspace_search(9, '/', rows(), NOW, &mut out);
    type_query(&mut app, "original");
    let job = app.take_workspace_search_job(NOW + 1000 * MILLISECOND).unwrap();
    let hit = Some(Target::Search(Hit { file: 1, first_line: 0, last_line: 0 }));
    let found = ranked(job.session, job.revision, hit);
    app.handle_workspace_search_result(found, true, true, false, true, &mut out);
    app.editor.revision += 1;
    let (_, target, _) = press(&mut app, Key::Enter, Action::Accept);
    assert_eq!(target, hit);
    let changed = Error::Other("buffer changed since this result".into());
    app.finish_accept(Err(changed), &mut out);
    let notice = &app.picker.active.as_ref().unwrap().view.notice;
    assert!(matches!(notice, Notice::Failed(error) if error.message().contains("changed since")));
    app.refresh_picker_buffer(1, true, true, NOW, &mut out);
    app.picker.active.as_mut().unwrap().view.pending = true;
    let (_, target, _) = press(&mut app, Key::Enter, Action::Accept);
    assert_eq!(target, None);
    assert!(app.input_waiting(false));
    app.refresh_picker_buffer(1, true, true, NOW, &mut out);
    assert!(app.input_waiting(false));
    let job = app.take_workspace_search_job(NOW + 1000 * MILLISECOND).unwrap();
    let moved = Some(Target::Search(Hit { file: 1, first_line: 1, last_line: 1 }));
    let found = ranked(job.session, job.revision, moved);
    let (_, target) =
        app.handle_workspace_search_result(found, true, true, false, true, &mut out);
    assert_eq!(target, moved);
    app.finish_accept(Ok(()), &mut out);
    assert!(app.picker.active.is_none());
}

#[test]
fn picker_register_prefix_shows_hints_cancels_and_inserts_only_first_fragment() {
    let mut app = app();
    let mut out = Vec::new();
    app.open_file_picker(rows(), Ok(9), NOW, &mut out);
    let job = app.take_picker_job().unwrap();
    let alpha = Some(Target::File(1));
    app.handle_picker_result(ranked(job.session, job.revision, alpha), false, true, &mut out);
    press(&mut app, Key::Ctrl('r'), Action::Idle);
    app.picker.active.as_mut().unwrap().view.register_pending = true;
    assert_eq!(app.hint_source(), HintSource::Registers);
    // Escape ends the wait for a register, and not the picker.
    app.picker.active.as_mut().unwrap().view.register_pending = false;
    press(&mut app, Key::Escape, Action::Idle);
    assert!(app.picker.active.is_some());
    assert_eq!(app.hint_source(), HintSource::Nothing);
    app.picker.active.as_mut().unwrap().view.query = "beta".into();
    press(&mut app, Key::Char('a'), Action::Inserted);
    assert_eq!(app.picker.active.as_ref().unwrap().view.query, "beta");
    let job = app.take_picker_job().unwrap();
    assert_eq!(job.query.as_deref(), Some("beta"));
    let beta = Some(Target::File(2));
    app.handle_picker_result(ranked(job.session, job.revision, beta), false, true, &mut out);
    assert_eq!(app.picker.active.as_ref().unwrap().view.selected, beta);
    assert_eq!(app.editor.document, 1);
    let (_, target, _) = press(&mut app, Key::Enter, Action::Accept);
    assert_eq!(target, beta);
    app.finish_accept(Ok(()), &mut out);
    assert!(app.picker.active.is_none());
}

#[test]
fn reopened_picker_remaps_selection_snippets_preview_lines_and_stable_identity() {
    let mut app = app();
    let mut out = Vec::new();
    app.record_jump();
    app.open_jump_picker(rows(), &mut out);
    type_query(&mut app, "needle");
    let job = app.take_jump_job().unwrap();
    let wanted = JumpLocation { document: 1, revision: 0, line: 1, checkpoint: 3 };
    let listed = ranked(job.session, job.revision, Some(Target::Jump(wanted)));
    app.handle_jump_result(listed, true, &mut out);
    press(&mut app, Key::Escape, Action::Cancel);
    app.editor.revision = 1;
    app.reopen_last_picker(NOW, true, &mut out).unwrap();
    let job = app.take_jump_job().unwrap();
    assert_eq!(job.query.as_deref(), Some("needle"));
    let updated = JumpLocation { revision: 1, line: 2, ..wanted };
    let listed = ranked(job.session, job.revision, Some(Target::Jump(updated)));
    app.handle_jump_result(listed, true, &mut out);
    let preview = app.take_preview_job().unwrap();
    assert_eq!(preview.position.unwrap().line, 2);
    let (_, target, _) = press(&mut app, Key::Enter, Action::Accept);
    assert_eq!(target, Some(Target::Jump(updated)));
    assert!(app.accept_jump_location(updated, true, NOW, &mut out).is_ok());
    assert!(matches!(
        app.accept_jump_location(wanted, true, NOW, &mut out),
        Err(Error::JumpBufferChanged)
    ));
}

#[test]
fn hints_name_their_keys_and_how_to_leave() {
    let hints = vec![
        Hint { keys: "f".into(), description: "Open a file".into() },
        Hint { keys: "b".into(), description: "Open a buffer".into() },
    ];
    let shown = App::paint_key_hints((120, 18), "Space", &hints).unwrap();
    assert!(shown.title.contains("Space · Esc cancel"));
    assert_eq!(shown.rows.len(), 2);
    assert!(shown.rows[0].contains("Open a file"));
    assert!(App::paint_key_hints((0, 0), "Space", &hints).is_none());
}

#[test]
fn opens_beside_current_file_and_previews_unsaved_text_without_changing_the_view() {
    let mut app = app();
    let mut out = Vec::new();
    app.editor.dirty = true;
    app.editor.revision = 3;
    app.editor.mode = Mode::Select;
    let selections = app.editor.selections.clone();
    let origin = Some(Target::File(1));
    let finish = |app: &mut App| {
        let job = app.take_browser_job().unwrap();
        let listed = ranked(job.session, job.revision, origin);
        assert!(app.handle_browser_result(Some(7), listed, true, &mut Vec::new()).0);
        let preview = app.take_preview_job().unwrap();
        assert_eq!(preview.target, Target::File(1));
        // The text of the open document is shown, and not that of the file.
        let shown = app.snapshot_for_path(1).unwrap();
        assert_eq!((shown.document, shown.revision), (1, 3));
        assert!(app.handle_preview_result(preview.session, preview.request));
    };
    assert!(matches!(app.open_browser(rows(), Ok(7), false, &mut out), Ok(Some(1))));
    finish(&mut app);
    assert_eq!(app.picker.active.as_ref().unwrap().view.selected, origin);
    press(&mut app, Key::Escape, Action::Cancel);
    assert!(app.picker.active.is_none());
    assert_eq!(app.editor.mode, Mode::Select);
    assert_eq!(app.editor.selections.ranges, selections.ranges);
    assert_eq!(app.editor.revision, 3);
    assert!(matches!(app.open_browser(rows(), Ok(7), true, &mut out), Ok(None)));
    type_query(&mut app, "origin");
    finish(&mut app);
}

fn directory(app: &App) -> u64 {
    match &app.picker.active.as_ref().unwrap().source {
        Source::Browser(browser) => browser.directory,
        other => panic!("{other:?}"),
    }
}

#[test]
fn directory_preview_early_enter_query_history_and_file_open_share_the_picker() {
    let mut app = app();
    let mut out = Vec::new();
    app.open_browser(rows(), Ok(7), false, &mut out).unwrap();
    type_query(&mut app, "src");
    let src = Some(Target::Directory(8));
    let target = Some(Target::File(9));
    let finish = |app: &mut App, directory: u64, selected: Option<Target>| {
        let job = app.take_browser_job().unwrap();
        let listed = ranked(job.session, job.revision, selected);
        let (redraw, target) =
            app.handle_browser_result(Some(directory), listed, true, &mut Vec::new());
        assert!(redraw);
        target
    };
    finish(&mut app, 7, src);
    let preview = app.take_preview_job().unwrap();
    assert_eq!(preview.target, Target::Directory(8));
    assert!(app.handle_preview_result(preview.session, preview.request));
    let (_, entered, _) = press(&mut app, Key::Enter, Action::Accept);
    assert_eq!(entered, src);
    assert_eq!(app.browse_directory(8, Some(7), 1, rows(), &mut out), Some(Start::Top));
    assert_eq!(directory(&app), 8);
    finish(&mut app, 8, target);
    assert_eq!(app.take_preview_job().unwrap().target, Target::File(9));
    // What was left of the directory above comes back: its query and caret.
    assert_eq!(app.browser_parent(Some(7), 2, rows(), &mut out), Some(Start::Restore(1)));
    finish(&mut app, 7, src);
    assert_eq!(app.picker.active.as_ref().unwrap().view.selected, src);
    press(&mut app, Key::Enter, Action::Accept);
    assert_eq!(app.browse_directory(8, Some(7), 3, rows(), &mut out), Some(Start::Restore(2)));
    // A query and Enter that come before the list do not open an old entry.
    type_query(&mut app, "界");
    begin_update(&mut app);
    let (_, early, _) = press(&mut app, Key::Enter, Action::Accept);
    assert_eq!(early, None);
    assert!(app.input_waiting(false));
    assert_eq!(finish(&mut app, 8, target), target);
    assert!(matches!(app.open_picked_file(9, Ok(true)), Ok(true)));
    let file = Buffer { editor: Editor { file: Some(9), ..editor(2) }, automatic_language: true };
    let opened = app.open_window_from_picker(Prepared::New(file), &mut out);
    app.finish_accept(opened, &mut out);
    assert!(!app.input_waiting(false));
    assert!(app.picker.active.is_none());
    assert_eq!(app.editor.file, Some(9));
    app.reopen_last_picker(NOW, true, &mut out).unwrap();
    finish(&mut app, 8, target);
    assert_eq!(directory(&app), 8);
    assert_eq!(app.picker.active.as_ref().unwrap().view.query, "界");
    type_query(&mut app, "");
    assert_eq!(directory(&app), 8);
    finish(&mut app, 8, target);
    app.browser_parent(Some(7), 4, rows(), &mut out);
    finish(&mut app, 7, src);
    assert_eq!(directory(&app), 7);
    assert_eq!(app.picker.active.as_ref().unwrap().view.selected, src);
}

#[test]
fn problems_that_were_picked_are_gone_to_unless_their_document_has_changed() {
    let mut app = served();
    let mut out = Vec::new();
    app.open_diagnostic_picker(false, rows(), &mut out).unwrap();
    let generation = app.language.catalog_generation;
    let start = Position { line: 0, character: 8 };
    let end = Position { line: 0, character: 13 };
    let place = Destination { file: 1, start, end };
    let found = Some(Target::Location(place));
    let finish = |app: &mut App| {
        let job = app.take_diagnostic_job().unwrap();
        let listed = ranked(job.session, job.revision, found);
        app.handle_diagnostic_result(listed, generation, true, NOW, &mut Vec::new())
    };
    assert!(finish(&mut app).0);
    // One result still opens a picker, rather than being gone to.
    assert!(!app.location_navigation_waiting());
    type_query(&mut app, "active error");
    begin_update(&mut app);
    press(&mut app, Key::Enter, Action::Accept);
    assert!(app.input_waiting(false));
    let version = app.snapshot_for_path(1);
    assert_eq!(finish(&mut app), (true, None));
    assert!(app.picker.active.is_none());
    let job = app.take_location_navigation().unwrap();
    assert_eq!(job.destination, place);
    let (_, origin) = app.handle_location_navigation(job.id, false);
    app.finish_location_navigation(origin.unwrap(), Ok(()), &mut out);
    assert!(!app.input_waiting(false));
    app.reopen_last_picker(NOW, true, &mut out).unwrap();
    assert_eq!(app.picker.active.as_ref().unwrap().view.query, "active error");
    finish(&mut app);
    let problem = refresh::Problem { destination: place, version };
    app.editor.revision += 1;
    app.accept_diagnostic(problem, NOW, &mut out);
    assert!(app.picker.active.is_some());
    assert!(!app.location_navigation_waiting());
    assert!(app.take_diagnostic_job().is_some());
}
