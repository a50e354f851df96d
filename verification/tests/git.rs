use std::sync::Arc;
use vex_term::app::App;
use vex_term::editor::{Editor, Mode, MILLISECOND};
use vex_term::effect::{Effect, Job};
use vex_term::chrome::{Names, Progress};
use vex_term::error::Error;
use vex_term::event::{Event, Key, KeyPress};
use vex_term::git::{DocumentDiff, Version, EDIT_DELAY};
use vex_term::git_write::{CommitStep, Draft, Group, Operation, SelectedFile};
use vex_term::paint::Content;
use vex_term::selection::{Selection, Selections};
use vex_term::status::{Reading, MAX_VIEWS};
use vex_term::status_keys::{StatusChoice, StatusStep, Visit};
use vex_term::travel::WindowAction;
use vex_term::windows::{Buffer, Prepared, Root};

fn editor(document: u64) -> Editor {
    Editor {
        document,
        revision: 0,
        view: 0,
        selections: Arc::new(Selections {
            ranges: vec![Selection { anchor: 0, head: 1 }],
            primary: 0,
        }),
        mode: Mode::Normal,
        cursor: 0,
        length: 0,
        bytes: 0,
        lines: 1,
        language: None,
        server: None,
        file: None,
        dirty: false,
        document_stamp: 0,
        workspace_stamp: 0,
        search_prompt: None,
        search_register: None,
        search_status: None,
        search_waiting: false,
        search_pending: false,
        repeat_pending: false,
        repeat_ready: false,
        keys_pending: false,
    }
}

const NOW: u64 = 10_000 * MILLISECOND;

fn root(name: &str) -> Root {
    Arc::new(name.bytes().map(|b| if b == b'/' { 0 } else { b }).collect())
}

fn key(key: Key) -> Event {
    Event::Key(KeyPress { released: false, key: Some(key) })
}

fn app() -> App {
    App::from_document(Editor { file: Some(1), ..editor(1) }, (121, 20))
}

fn diff(version: Version, baseline: u64) -> DocumentDiff {
    DocumentDiff { version, baseline: Some(baseline), diff: Some(version.revision) }
}

#[test]
fn cancelled_batches_reissue_other_buffers_and_cannot_replace_newer_revisions() {
    let mut app = app();
    let mut out = Vec::new();
    assert!(app.take_git_batch(NOW, &mut out).is_none());
    app.enable_git(NOW, &mut out);
    let other = Prepared::New(Buffer {
        editor: Editor { file: Some(2), ..editor(2) },
        automatic_language: true,
    });
    app.split_with_path(true, Some(other), &mut out).unwrap();
    let old = app.take_git_batch(NOW, &mut out).unwrap();
    assert_eq!(old.documents.len(), 2);
    let results: Vec<DocumentDiff> = old.documents.iter().map(|&v| diff(v, 1)).collect();
    app.editor.revision = 1;
    assert!(app.take_git_batch(NOW + 1, &mut out).is_none());
    assert!(!app.handle_git_result(old.request, &results, NOW + 1));
    let next = app.take_git_batch(NOW + 1 + EDIT_DELAY, &mut out).unwrap();
    assert_eq!(next.documents.len(), 2);
    let results: Vec<DocumentDiff> = next.documents.iter().map(|&v| diff(v, 1)).collect();
    assert!(app.handle_git_result(next.request, &results, NOW + 1 + EDIT_DELAY));
    assert_eq!(app.git.results.len(), 2);
    assert_eq!(app.git.diff(2, 1, Some(2)), Some(1));
    assert_eq!(app.git.diff(2, 0, Some(2)), None);
    assert_eq!(app.git.diff(2, 1, Some(3)), None);
    let old = app.git.results.iter().find(|result| result.version.document == 2).unwrap().baseline;
    // The terminal gets the focus while a result is on its way.
    let later = NOW + MILLISECOND * 1000;
    app.document_written(20, later, &mut out);
    let waiting = app.take_git_batch(later, &mut out).unwrap();
    assert!(waiting.refresh);
    app.refresh_git(later + 1, &mut out);
    assert!(!app.handle_git_result(waiting.request, &results, later + 1));
    let batch = app.take_git_batch(later + 1, &mut out).unwrap();
    let results: Vec<DocumentDiff> = batch.documents.iter().map(|&v| diff(v, 2)).collect();
    assert!(app.handle_git_result(batch.request, &results, later + 1));
    let new = app.git.results.iter().find(|result| result.version.document == 2).unwrap().baseline;
    assert_ne!(new, old);
}

#[test]
fn refresh_survives_cancelled_initial_load_and_save_as_invalidates_old_identity() {
    let mut app = app();
    let mut out = Vec::new();
    app.enable_git(NOW, &mut out);
    let batch = app.take_git_batch(NOW, &mut out).unwrap();
    app.handle_git_result(batch.request, &vec![diff(batch.documents[0], 1)], NOW);
    app.refresh_git(NOW, &mut out);
    let old = app.take_git_batch(NOW, &mut out).unwrap();
    app.editor.revision = 1;
    let mut out = Vec::new();
    assert!(app.take_git_batch(NOW + 1, &mut out).is_none());
    assert!(out.iter().any(
        |effect| matches!(effect, Effect::Cancel(Job::Git(request)) if *request == old.request)
    ));
    let job = app.take_git_batch(NOW + 1 + EDIT_DELAY, &mut out).unwrap();
    assert!(job.refresh);
    let stale = vec![diff(job.documents[0], 1)];
    app.editor.file = Some(9);
    app.document_written(20, NOW + 2 + EDIT_DELAY, &mut out);
    assert!(!app.handle_git_result(job.request, &stale, NOW + 2 + EDIT_DELAY));
    let batch = app.take_git_batch(NOW + 2 + EDIT_DELAY, &mut out).unwrap();
    let untracked = DocumentDiff { diff: None, ..diff(batch.documents[0], 1) };
    app.handle_git_result(batch.request, &vec![untracked], NOW + 2 + EDIT_DELAY);
    assert!(app.git.diff(1, 1, Some(9)).is_none());
    let mut scratch = App::from_document(editor(1), (80, 24));
    scratch.enable_git(NOW, &mut out);
    assert!(scratch.take_git_batch(NOW, &mut out).unwrap().documents.is_empty());
}

#[test]
fn saved_files_are_compared_at_once_and_scratch_documents_never() {
    let mut app = app();
    let mut out = Vec::new();
    app.enable_git(NOW, &mut out);
    let batch = app.take_git_batch(NOW, &mut out).unwrap();
    app.handle_git_result(batch.request, &vec![diff(batch.documents[0], 1)], NOW);
    assert_eq!(app.git_deadline(), Some(NOW + 2000 * MILLISECOND));
    app.editor.file = Some(5);
    let batch = app.take_git_batch(NOW + 1, &mut out).unwrap();
    assert_eq!(batch.documents[0].file, 5);
    assert_eq!(app.git.diff(1, 0, Some(5)), None);
    let mut scratch = App::from_document(editor(1), (80, 24));
    scratch.enable_git(NOW, &mut out);
    assert!(scratch.take_git_batch(NOW, &mut out).unwrap().documents.is_empty());
}

fn status() -> App {
    let mut app = app();
    let mut out = Vec::new();
    app.open_git_status(Ok(root("/repo/src")), NOW, &mut out).unwrap();
    let batch = app.take_status_batch(NOW, &mut out).unwrap();
    assert_eq!(batch.views.len(), 1);
    let reading = Reading { origin: root("/repo/src"), root: Some(root("/repo")) };
    assert!(app.handle_status_result(batch.request, &vec![reading], NOW));
    app
}

fn file(group: Group) -> Option<SelectedFile> {
    Some(SelectedFile { group, entry: 4 })
}

#[test]
fn repository_views_open_in_front_of_the_document_and_close_again() {
    let mut app = status();
    let mut out = Vec::new();
    assert!(app.active_git_view().is_some());
    assert_eq!(app.status_deadline(), Some(NOW + 2000 * MILLISECOND));
    assert!(matches!(
        app.execute("write", &mut out),
        Err(Error::GitViewReadOnly)
    ));
    assert!(app.execute("git_refresh", &mut out).is_ok());
    let mut press = |app: &mut App, event: Key| {
        app.handle_status_input(&key(event), false, NOW, &mut Vec::new())
    };
    assert_eq!(
        press(&mut app, Key::Char('j')),
        Some(StatusStep::Next(StatusChoice::Move { down: true, count: 1 }))
    );
    assert_eq!(
        press(&mut app, Key::PageDown),
        Some(StatusStep::Next(StatusChoice::Move { down: true, count: 18 }))
    );
    assert_eq!(
        press(&mut app, Key::Ctrl('u')),
        Some(StatusStep::Next(StatusChoice::Move { down: false, count: 9 }))
    );
    press(&mut app, Key::Char('x'));
    assert!(app.message.show().len() > 0);
    assert!(matches!(app.visit_git_change(None), Ok(Visit::Toggle)));
    assert!(matches!(app.visit_git_change(Some(true)), Ok(Visit::Open)));
    assert!(matches!(app.visit_git_change(Some(false)), Err(Error::GitPathGone)));
    assert!(app.toggle_git_section(Ok(false), NOW, &mut out).is_ok());
    assert_eq!(press(&mut app, Key::Char('q')), Some(StatusStep::Done));
    assert!(app.active_git_view().is_none());
    assert_eq!(press(&mut app, Key::Char('q')), None);
    assert!(matches!(app.visit_git_change(Some(true)), Err(Error::NoGitStatus)));
    assert!(matches!(
        app.toggle_git_section(Ok(true), NOW, &mut out),
        Err(Error::NoGitStatus)
    ));
}

#[test]
fn only_so_many_repositories_are_kept_and_those_on_the_screen_are() {
    let mut app = app();
    let mut out = Vec::new();
    for number in 0..40 {
        app.open_git_status(Ok(root(&format!("/repo{number}"))), NOW, &mut out).unwrap();
        app.close_git_status(&mut out);
        assert!(app.status.views.len() <= MAX_VIEWS);
    }
    app.open_git_status(Ok(root("/last")), NOW, &mut out).unwrap();
    assert!(app.status.views.iter().any(|view| view.key == root("/last")));
}

#[test]
fn index_changes_are_queued_once_for_each_repository_and_hold_up_quitting() {
    let mut app = status();
    let mut out = Vec::new();
    for (stage, selected, reason) in [
        (true, None, Error::NoGitFile),
        (true, file(Group::Unsaved), Error::UnsavedStage),
        (true, file(Group::Staged), Error::WrongGitSection),
        (false, file(Group::Unstaged), Error::WrongGitSection),
    ] {
        match app.change_git_index(stage, selected, "a.rs".into()) {
            Err(error) => assert_eq!(error.message(), reason.message()),
            Ok(()) => panic!("{reason:?}"),
        }
    }
    app.change_git_index(true, file(Group::Unstaged), "a.rs".into()).unwrap();
    assert!(matches!(
        app.change_git_index(true, file(Group::Unstaged), "a.rs".into()),
        Err(Error::GitBusy)
    ));
    assert!(matches!(app.quit_all(true), Err(Error::GitBusyQuitting)));
    let job = app.take_git_write().unwrap();
    assert!(matches!(job.operation, Operation::Stage(4)));
    assert!(app.take_git_write().is_none());
    assert!(app.status.views[0].keep_position);
    assert!(!app.handle_git_write(
        &job.root, job.id + 1, true, None, "Staged a.rs".into(), "", NOW, &mut out
    ));
    assert!(app.handle_git_write(
        &job.root,
        job.id,
        false,
        None,
        "Staging a.rs failed".into(),
        "\nfatal: locked\nmore",
        NOW,
        &mut out
    ));
    assert!(app.error);
    assert!(app.message.show().contains("fatal: locked"));
    assert!(!app.status.views[0].keep_position);
    assert!(app.quit_all(true).is_ok());
}

fn draft() -> App {
    let mut app = status();
    let (repository, view) = app.begin_git_commit().unwrap();
    app.git_write.drafts.push(Draft {
        document: 1,
        root: repository,
        status_key: view,
        committed: None,
    });
    app.set_git_view(None);
    app.commit_opened(Ok(()));
    app
}

#[test]
fn commit_messages_are_submitted_and_left_with_two_keys() {
    let mut app = draft();
    let mut out = Vec::new();
    let mut press =
        |app: &mut App, event: Key| app.handle_commit_input(&key(event), false, &mut Vec::new());
    assert_eq!(press(&mut app, Key::Ctrl('c')), CommitStep::Done);
    assert_eq!(app.git_write.prefix, Some(1));
    assert_eq!(press(&mut app, Key::Ctrl('k')), CommitStep::Return);
    assert_eq!(press(&mut app, Key::Char('a')), CommitStep::Pass);
    press(&mut app, Key::Ctrl('c'));
    assert_eq!(press(&mut app, Key::Ctrl('c')), CommitStep::Submit);
    press(&mut app, Key::Ctrl('c'));
    assert_eq!(press(&mut app, Key::Char('x')), CommitStep::Done);
    // A pending key sequence keeps its keys.
    app.editor.keys_pending = true;
    assert_eq!(press(&mut app, Key::Ctrl('c')), CommitStep::Pass);
    assert!(app.git_write.prefix.is_none());
    app.editor.keys_pending = false;
    let empty = Arc::new(" \n".to_string());
    assert!(matches!(
        app.submit_git_commit(&empty, "vex".into(), &mut out),
        Err(Error::CommitMessageEmpty)
    ));
    app.editor.bytes = 1048577;
    let text = Arc::new("Subject".to_string());
    assert!(matches!(
        app.submit_git_commit(&text, "vex".into(), &mut out),
        Err(Error::CommitMessageTooLong)
    ));
    app.editor.bytes = 7;
    app.submit_git_commit(&text, "vex".into(), &mut out).unwrap();
    let job = app.take_git_write().unwrap();
    assert!(matches!(&job.operation, Operation::Commit(text) if text.as_str() == "Subject"));
    let mut out = Vec::new();
    assert!(app.handle_git_write(
        &job.root, job.id, true, Some(0), "Committed".into(), "", NOW, &mut out
    ));
    assert!(out.iter().any(|effect| matches!(effect, Effect::LeaveDraft(_))));
    assert_eq!(app.message.show(), "Committed");
    assert!(matches!(app.begin_write(None, &mut out), Err(Error::CommitDraft)));
    assert_eq!(app.commit_title("vex").as_deref(), Some("Git commit · vex"));
}

#[test]
fn unsaved_files_are_listed_below_their_repository() {
    let dirty = vec![root("/repo/a.rs"), root("/repository/b.rs"), root("/repo/src/c.rs")];
    let unsaved = App::unsaved_paths(&root("/repo"), &dirty);
    assert_eq!(unsaved.len(), 2);
    assert_eq!(unsaved[0], b"a.rs".to_vec());
    assert_eq!(unsaved[1], b"src\0c.rs".to_vec());
}

#[test]
fn saves_keep_head_markers_and_periodic_refresh_observes_commits_without_input() {
    let mut app = app();
    let mut out = Vec::new();
    app.enable_git(NOW, &mut out);
    let mut finish = |app: &mut App, baseline: u64, marked: bool, now: u64| {
        let batch = app.take_git_batch(now, &mut out).unwrap();
        let news: Vec<DocumentDiff> = batch
            .documents
            .iter()
            .map(|&version| DocumentDiff { diff: Some(u64::from(marked)), ..diff(version, baseline) })
            .collect();
        app.handle_git_result(batch.request, &news, now);
        batch.refresh
    };
    finish(&mut app, 1, false, NOW);
    app.editor.revision = 1;
    app.editor.dirty = true;
    let now = NOW + MILLISECOND;
    assert!(app.take_git_batch(now, &mut Vec::new()).is_none());
    finish(&mut app, 1, true, now + EDIT_DELAY);
    app.editor.dirty = false;
    let now = now + 1000 * MILLISECOND;
    app.document_written(20, now, &mut Vec::new());
    finish(&mut app, 1, true, now);
    assert!(!app.is_dirty());
    assert_eq!(app.git.diff(1, 1, Some(1)), Some(1));
    // The index changes, which is not what the text is compared with.
    let due = app.git.refresh_at.unwrap();
    assert!(finish(&mut app, 1, true, due));
    assert_eq!(app.git.diff(1, 1, Some(1)), Some(1));
    let due = app.git.refresh_at.unwrap();
    let batch = app.take_git_batch(due, &mut Vec::new()).unwrap();
    assert!(batch.refresh);
    // A slow batch is not interrupted by another periodic look.
    assert!(app.git_deadline().is_none());
    let committed = DocumentDiff { diff: Some(0), ..diff(batch.documents[0], 2) };
    app.handle_git_result(batch.request, &vec![committed], due);
    assert_eq!(app.git.diff(1, 1, Some(1)), Some(0));
}

#[test]
fn failed_index_write_releases_position_preservation() {
    let mut app = status();
    let mut out = Vec::new();
    app.change_git_index(true, file(Group::Unstaged), "a.rs".into()).unwrap();
    assert!(app.status.views[0].keep_position);
    let job = app.take_git_write().unwrap();
    let title = "Stage failed".to_string();
    let output = "fixture write failure";
    assert!(app.handle_git_write(&job.root, job.id, false, None, title, output, NOW, &mut out));
    assert!(!app.status.views[0].keep_position);
    assert!(app.error);
    let batch = app.take_status_batch(NOW, &mut out).unwrap();
    let reading = Reading { origin: root("/repo/src"), root: Some(root("/repo")) };
    app.handle_status_result(batch.request, &vec![reading], NOW);
    assert!(!app.status.views[0].keep_position);
}

/// A repository view, and the commit message opened from it.
struct Composer {
    app: App,
    text: String,
    revision: u64,
}

const DRAFT: u64 = 7;

impl Composer {
    fn new() -> Composer {
        Composer { app: status(), text: String::new(), revision: 0 }
    }

    fn editing(&mut self) {
        self.app.editor.document = DRAFT;
        self.app.editor.revision = self.revision;
        self.app.editor.bytes = self.text.len();
        self.app.editor.dirty = self.revision > 0;
        self.app.editor.mode = Mode::Insert;
    }

    fn begin(&mut self) {
        let (repository, view) = self.app.begin_git_commit().unwrap();
        self.app.set_git_view(None);
        let mut out = Vec::new();
        let prepared = if self.app.document_open(DRAFT) {
            Prepared::Existing(DRAFT)
        } else {
            Prepared::New(Buffer { editor: editor(DRAFT), automatic_language: true })
        };
        self.app.open_window_file(prepared, &mut out).unwrap();
        match self.app.git_write.drafts.iter_mut().find(|draft| draft.root == repository) {
            Some(draft) => {
                // A message that was committed makes room for the next.
                if draft.committed.take() == Some(self.revision) {
                    self.text.clear();
                    self.revision += 1;
                }
            }
            None => self.app.git_write.drafts.push(Draft {
                document: DRAFT,
                root: repository,
                status_key: view,
                committed: None,
            }),
        }
        self.editing();
        self.app.commit_opened(Ok(()));
    }

    /// Opens the message in a window of its own, below the repository.
    fn begin_below(&mut self) -> Result<(), Error> {
        let (repository, view) = self.app.begin_git_commit()?;
        let prepared = if self.app.document_open(DRAFT) {
            Prepared::Existing(DRAFT)
        } else {
            Prepared::New(Buffer { editor: editor(DRAFT), automatic_language: true })
        };
        self.app.split_with_path(false, Some(prepared), &mut Vec::new())?;
        if !self.app.git_write.drafts.iter().any(|draft| draft.root == repository) {
            self.app.git_write.drafts.push(Draft {
                document: DRAFT,
                root: repository,
                status_key: view,
                committed: None,
            });
        }
        self.editing();
        self.app.commit_opened(Ok(()));
        Ok(())
    }

    /// Closes the window of the message, or shows the repository in front of it
    /// where there is no other window.
    fn leave_below(&mut self) {
        let view = self.app.cancel_git_commit().unwrap();
        let mut out = Vec::new();
        if self.app.windows.panes.len() > 1 {
            self.app.close_window(false, &mut out).unwrap();
        } else {
            self.app.set_git_view(Some(view));
        }
        self.app.commit_left(&mut out);
    }

    fn write(&mut self, text: &str) {
        self.text.push_str(text);
        self.revision += 1;
        self.editing();
    }

    fn leave(&mut self) {
        let view = self.app.cancel_git_commit().unwrap();
        let mut out = Vec::new();
        self.app.open_window_file(Prepared::Existing(1), &mut out).unwrap();
        self.app.set_git_view(Some(view));
        self.app.commit_left(&mut out);
    }

    fn submit(&mut self) -> Result<(), Error> {
        let text = Arc::new(self.text.clone());
        self.app.submit_git_commit(&text, "vex".into(), &mut Vec::new())
    }

    /// The two keys of a command.
    fn keys(&mut self, second: char) {
        for ch in ['c', second] {
            let mut out = Vec::new();
            match self.app.handle_commit_input(&key(Key::Ctrl(ch)), false, &mut out) {
                CommitStep::Submit => self.submit().unwrap(),
                CommitStep::Return => self.leave(),
                step => assert_eq!(step, CommitStep::Done),
            }
        }
    }

    fn finish(&mut self, job: vex_term::git_write::Job, success: bool) {
        let committed = match &job.operation {
            Operation::Commit(text) if success && **text == self.text => Some(self.revision),
            _ => None,
        };
        let title = if success { "Commit complete" } else { "Commit failed" };
        let mut out = Vec::new();
        assert!(self.app.handle_git_write(
            &job.root,
            job.id,
            success,
            committed,
            title.into(),
            "nothing to commit",
            NOW,
            &mut out
        ));
        if out.iter().any(|effect| matches!(effect, Effect::LeaveDraft(_))) {
            self.leave();
        }
    }

    fn complete(&mut self, success: bool) {
        let job = self.app.take_git_write().unwrap();
        self.finish(job, success);
    }
}

#[test]
fn composer_retains_text_and_undo_on_cancel_then_commits_and_returns_to_status() {
    let mut composer = Composer::new();
    let original = composer.app.editor.document;
    composer.begin();
    composer.write("Subject\n\nBody");
    assert_ne!(composer.app.editor.document, original);
    assert_eq!(composer.app.commit_title("repo").as_deref(), Some("Git commit · repo"));
    composer.keys('k');
    assert!(composer.app.active_git_view().is_some());
    assert_eq!(composer.app.editor.document, original);
    composer.begin();
    assert_eq!(composer.app.editor.document, DRAFT);
    assert_eq!(composer.text, "Subject\n\nBody");
    composer.keys('c');
    assert!(matches!(composer.submit(), Err(Error::GitBusy)));
    composer.complete(true);
    assert!(!composer.app.error);
    assert!(composer.app.active_git_view().is_some());
    composer.begin();
    assert_eq!(composer.text, "");
    assert!(matches!(composer.submit(), Err(Error::CommitMessageEmpty)));
}

#[test]
fn failed_commit_and_edits_while_running_retain_the_draft() {
    let mut composer = Composer::new();
    composer.begin();
    composer.write("Keep draft");
    composer.keys('c');
    composer.complete(false); // No staged changes.
    assert!(composer.app.error);
    assert_eq!(composer.app.editor.document, DRAFT);
    assert_eq!(composer.text, "Keep draft");
    composer.keys('k');
    assert_eq!(composer.app.status.views[0].failed, Some(true));
    composer.begin();
    composer.submit().unwrap();
    let job = composer.app.take_git_write().unwrap();
    assert!(matches!(&job.operation, Operation::Commit(text) if text.as_str() == "Keep draft"));
    composer.write(" plus newer edits");
    composer.finish(job, true);
    assert_eq!(composer.app.editor.document, DRAFT);
    assert!(composer.app.active_git_view().is_none());
    assert_eq!(composer.text, "Keep draft plus newer edits");
    composer.keys('k');
    composer.begin();
    assert_eq!(composer.text, "Keep draft plus newer edits");
}

#[test]
fn a_commit_finishing_after_the_composer_closes_resets_the_next_message() {
    let mut composer = Composer::new();
    let original = composer.app.editor.document;
    composer.begin();
    composer.write("subject");
    composer.keys('c');
    let job = composer.app.take_git_write().unwrap();
    composer.keys('k');
    assert_eq!(composer.app.editor.document, original);
    composer.finish(job, true);
    assert_eq!(composer.app.editor.document, original);
    assert!(composer.app.active_git_view().is_some());
    composer.begin();
    assert_eq!(composer.text, "");
    assert_eq!(composer.app.editor.mode, Mode::Insert);
}

#[test]
fn drafts_survive_window_commands_and_tiny_terminals() {
    let mut composer = Composer::new();
    composer.begin_below().unwrap();
    composer.write("message");
    composer.app.editor.mode = Mode::Normal;
    let id = composer.app.editor.document;
    let mut out = Vec::new();
    composer.app.only_window(false, &mut out).unwrap();
    assert_eq!(composer.app.windows.panes.len(), 1);
    composer.leave_below();
    assert!(composer.app.active_git_view().is_some());
    composer.begin_below().unwrap();
    assert_eq!(composer.app.editor.document, id);
    assert_eq!(composer.text, "message");
    // The message is not saved, and its window closes all the same.
    assert!(composer.app.is_dirty());
    composer.app.close_window(false, &mut out).unwrap();
    assert!(composer.app.document_open(id));
    composer.begin_below().unwrap();
    assert_eq!(composer.app.editor.document, id);
    assert_eq!(composer.text, "message");
    composer.leave_below();
    composer.app.size = (10, 3);
    let before = composer.app.editor.document;
    assert!(composer.begin_below().is_err());
    assert_eq!(composer.app.editor.document, before);
    assert!(composer.app.document_open(id));
    composer.app.paint_windows();
}

#[test]
fn other_windows_close_without_losing_a_commit_message() {
    let mut composer = Composer::new();
    let original = composer.app.editor.document;
    composer.begin_below().unwrap();
    composer.write("message");
    let mut out = Vec::new();
    composer.app.window_action(WindowAction::FocusUp, 1, Ok(vec![]), &mut out).unwrap();
    assert_eq!(composer.app.editor.document, original);
    out.clear();
    // The message cannot be saved as a file is; it stays open without a window.
    composer.app.only_window(false, &mut out).unwrap();
    assert!(composer.app.document_open(DRAFT));
    assert!(out.iter().any(|effect| matches!(effect, Effect::HideBuffer(DRAFT))));
    assert!(!out.iter().any(|effect| matches!(effect, Effect::DropBuffer(DRAFT))));
    composer.begin_below().unwrap();
    assert!(composer.app.is_dirty());
    // The last window protects what is not saved.
    composer.app.only_window(false, &mut out).unwrap();
    assert!(matches!(
        composer.app.close_window(false, &mut out),
        Err(Error::UnsavedWindow)
    ));
    assert!(matches!(composer.app.quit_all(false), Err(Error::UnsavedAll)));
}

#[test]
fn reopening_from_a_subdirectory_reuses_repository_navigation() {
    let mut app = status();
    let mut out = Vec::new();
    let original = app.active_git_view().unwrap();
    app.close_git_status(&mut out);
    app.editor.file = Some(2);
    app.open_git_status(Ok(root("/repo/nested")), NOW, &mut out).unwrap();
    let batch = app.take_status_batch(NOW, &mut out).unwrap();
    let readings = vec![Reading { origin: root("/repo/nested"), root: Some(root("/repo")) }];
    app.handle_status_result(batch.request, &readings, NOW);
    assert_eq!(app.active_git_view(), Some(original));
    assert_eq!(app.status.views.len(), 1);
}

#[test]
fn git_and_document_panes_coexist_and_file_visits_reuse_unsaved_text() {
    let mut app = status();
    let mut out = Vec::new();
    app.window_action(WindowAction::SplitVertical, 1, Ok(vec![]), &mut out).unwrap();
    assert!(app.active_git_view().is_none());
    assert_eq!(app.git_view_keys().len(), 1);
    app.editor.revision = 1;
    app.editor.dirty = true;
    app.window_action(WindowAction::FocusLeft, 1, Ok(vec![]), &mut out).unwrap();
    assert!(app.active_git_view().is_some());
    let plan = app.paint_windows();
    assert_eq!(plan.panes.len(), 2);
    assert!(matches!(plan.panes[0].content, Content::Active));
    assert!(matches!(plan.panes[1].content, Content::Document(1, _)));
    assert!(app
        .paint_current_window(
            Names { path: None, repository: "repo".into() },
            Progress { count: None, keys: vec![], search: None },
        )
        .is_none());
    assert!(matches!(app.visit_git_change(Some(true)), Ok(Visit::Open)));
    assert_eq!(app.prepare_file(1), Some(1));
    app.close_git_status(&mut out);
    assert!(app.active_git_view().is_none());
    assert!(app.is_dirty());
    assert_eq!(app.editor.revision, 1);
}

#[test]
fn repository_views_leave_the_document_alone() {
    let mut app = status();
    let revision = app.editor.revision;
    let selections = app.editor.selections.clone();
    let viewport = app.viewport;
    for ch in ['i', 'd', 'U'] {
        let mut out = Vec::new();
        let step = app.handle_status_input(&key(Key::Char(ch)), false, NOW, &mut out);
        assert!(step.is_some());
        assert!(!out.iter().any(|effect| matches!(effect, Effect::HandleKey(_))));
    }
    let mut out = Vec::new();
    let paste = Event::Paste("accidental paste".into());
    assert!(app.handle_status_input(&paste, false, NOW, &mut out).is_some());
    assert!(!out.iter().any(|effect| matches!(effect, Effect::Paste(_))));
    assert!(app.execute("delete_selection", &mut out).is_err());
    assert!(app.execute("w", &mut out).is_err());
    assert_eq!(app.editor.revision, revision);
    app.handle_status_input(&key(Key::Char('q')), false, NOW, &mut out);
    assert!(app.active_git_view().is_none());
    assert_eq!(app.editor.selections.ranges, selections.ranges);
    assert_eq!(app.viewport, viewport);
    app.open_git_status(Ok(root("/repo/src")), NOW, &mut out).unwrap();
    for size in [(1, 1), (0, 0), (5, 3), (20, 5)] {
        app.size = size;
        assert_eq!(app.paint_windows().panes.len(), 1);
    }
}
