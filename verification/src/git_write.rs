//! Git write commands and session-local commit drafts. Jobs own their inputs;
//! pane changes never cancel a queued mutation or lose its completion.

use crate::app::App;
use crate::editor::Time;
use crate::effect::Effect;
use crate::error::Error;
use crate::event::{Event, Key};
use crate::find::{first_where, lemma_first_where, lemma_is_first};
use crate::measure::{lines_of, split_lines};
use crate::message::Message;
use crate::roots::same_root;
use crate::selection::{DocumentId, Revision};
use crate::shared::share;
use crate::status::RepoView;
use crate::text::{texts, trim_white, trimmed, Trim};
use crate::windows::Root;
use std::sync::Arc;
use vstd::prelude::*;

verus! {

/// No more Git operations than this are unfinished at a time.
pub const MAX_PENDING: usize = 16;

/// A longer commit message is refused.
pub const MAX_MESSAGE_BYTES: usize = 1048576;

/// A document that holds a commit message.
#[derive(Debug)]
pub struct Draft {
    pub document: DocumentId,
    pub root: Root,
    /// The repository view to return to.
    pub status_key: Root,
    /// The text that was committed, where one was.
    pub committed: Option<Revision>,
}

/// A change to a repository.
#[derive(Debug)]
pub enum Operation {
    /// Add a file to the index, by its entry.
    Stage(u64),
    /// Take a file out of the index.
    Unstage(u64),
    Commit(Arc<String>),
}

/// An operation for the worker.
#[derive(Debug)]
pub struct Job {
    pub id: u64,
    pub root: Root,
    pub operation: Operation,
}

/// An unfinished operation.
#[derive(Debug)]
pub struct Pending {
    pub root: Root,
    pub id: u64,
}

#[derive(Debug)]
pub struct State {
    pub next: u64,
    pub pending: Vec<Pending>,
    pub jobs: Vec<Job>,
    pub drafts: Vec<Draft>,
    pub prefix: Option<DocumentId>,
    pub status_prefix: Option<Root>,
}

/// The test whether an operation is one of a repository.
pub open spec fn of_repository(root: Seq<u8>) -> spec_fn(Pending) -> bool {
    |entry: Pending| entry.root@ == root
}

/// Where the unfinished operation of a repository is.
pub open spec fn find_pending(pending: Seq<Pending>, root: Seq<u8>) -> int {
    first_where(pending, of_repository(root))
}

/// Whether a repository has an unfinished operation.
pub open spec fn is_pending(pending: Seq<Pending>, root: Seq<u8>) -> bool {
    find_pending(pending, root) < pending.len()
}

/// Whether every repository has at most one unfinished operation, and all of
/// them are not too many.
pub open spec fn pending_valid(pending: Seq<Pending>) -> bool {
    &&& pending.len() <= MAX_PENDING
    &&& forall|i: int, j: int|
        0 <= i < j < pending.len() ==> (#[trigger] pending[i]).root@ != (
        #[trigger] pending[j]).root@
}

/// Where the draft of a document is.
pub open spec fn find_draft(drafts: Seq<Draft>, document: DocumentId) -> int {
    first_where(drafts, |draft: Draft| draft.document == document)
}

/// Whether a document is a draft.
pub open spec fn is_draft(drafts: Seq<Draft>, document: DocumentId) -> bool {
    find_draft(drafts, document) < drafts.len()
}

/// Whether a draft returns to a view.
pub open spec fn has_draft_for(drafts: Seq<Draft>, key: Seq<u8>) -> bool {
    exists|i: int| 0 <= i < drafts.len() && (#[trigger] drafts[i]).status_key@ == key
}

pub fn drafts_return_to(drafts: &Vec<Draft>, key: &Root) -> (found: bool)
    ensures
        found == has_draft_for(drafts@, key@),
{
    let mut i: usize = 0;
    while i < drafts.len()
        invariant
            i <= drafts.len(),
            forall|j: int| 0 <= j < i ==> (#[trigger] drafts@[j]).status_key@ != key@,
        decreases drafts.len() - i,
    {
        if same_root(&drafts[i].status_key, key) {
            return true;
        }
        i += 1;
    }
    false
}

fn pending_index(pending: &Vec<Pending>, root: &Root) -> (index: usize)
    ensures
        index == find_pending(pending@, root@),
        index <= pending@.len(),
{
    let mut i: usize = 0;
    while i < pending.len() && !same_root(&pending[i].root, root)
        invariant
            i <= pending.len(),
            forall|j: int| 0 <= j < i ==> (#[trigger] pending@[j]).root@ != root@,
        decreases pending.len() - i,
    {
        i += 1;
    }
    proof {
        lemma_is_first(pending@, of_repository(root@), i as int);
    }
    i
}

impl App {
    /// Whether a repository has an unfinished operation.
    pub fn git_operation_for(&self, root: &Root) -> (busy: bool)
        ensures
            busy == is_pending(self.git_write.pending@, root@),
    {
        pending_index(&self.git_write.pending, root) < self.git_write.pending.len()
    }
}

/// The part of a repository that a file row belongs to.
#[derive(Clone, Copy, Debug, PartialEq, Eq, Structural)]
pub enum Group {
    Unsaved,
    Untracked,
    Unstaged,
    Staged,
}

/// The selected file of a repository view.
#[derive(Clone, Copy, Debug, PartialEq, Eq, Structural)]
pub struct SelectedFile {
    pub group: Group,
    /// Its entry in what was read of the repository.
    pub entry: u64,
}

/// The views of which those of a repository have begun an operation.
pub open spec fn started(views: Seq<RepoView>, root: Seq<u8>, keep: bool) -> Seq<RepoView> {
    views.map_values(
        |view: RepoView|
            if shows_root(view, root) {
                RepoView { keep_position: keep, running: true, failed: None, ..view }
            } else {
                view
            },
    )
}

/// The views of which those of a repository have finished an operation.
pub open spec fn finished(views: Seq<RepoView>, root: Seq<u8>, success: bool) -> Seq<RepoView> {
    views.map_values(
        |view: RepoView|
            if shows_root(view, root) {
                RepoView {
                    running: false,
                    failed: Some(!success),
                    keep_position: view.keep_position && success,
                    ..view
                }
            } else {
                view
            },
    )
}

/// Whether a view shows a repository.
pub open spec fn shows_root(view: RepoView, root: Seq<u8>) -> bool {
    view.root matches Some(known) && known@ == root
}

fn has_root(view: &RepoView, root: &Root) -> (yes: bool)
    ensures
        yes == shows_root(*view, root@),
{
    match &view.root {
        Some(known) => same_root(known, root),
        None => false,
    }
}

fn mark_started(views: &mut Vec<RepoView>, root: &Root, keep: bool)
    ensures
        final(views)@ == started(old(views)@, root@, keep),
{
    let ghost start = views@;
    let mut i: usize = 0;
    while i < views.len()
        invariant
            i <= views.len(),
            views.len() == start.len(),
            forall|j: int| 0 <= j < i ==> #[trigger] views@[j] == started(start, root@, keep)[j],
            forall|j: int| i <= j < start.len() ==> #[trigger] views@[j] == start[j],
        decreases views.len() - i,
    {
        assert(views@[i as int] == start[i as int]);
        if has_root(&views[i], root) {
            let view = &mut views[i];
            view.keep_position = keep;
            view.running = true;
            view.failed = None;
        }
        i += 1;
    }
    assert(views@ =~= started(start, root@, keep));
}

fn mark_finished(views: &mut Vec<RepoView>, root: &Root, success: bool)
    ensures
        final(views)@ == finished(old(views)@, root@, success),
{
    let ghost start = views@;
    let mut i: usize = 0;
    while i < views.len()
        invariant
            i <= views.len(),
            views.len() == start.len(),
            forall|j: int|
                0 <= j < i ==> #[trigger] views@[j] == finished(start, root@, success)[j],
            forall|j: int| i <= j < start.len() ==> #[trigger] views@[j] == start[j],
        decreases views.len() - i,
    {
        assert(views@[i as int] == start[i as int]);
        if has_root(&views[i], root) {
            let view = &mut views[i];
            view.running = false;
            view.failed = Some(!success);
            if !success {
                view.keep_position = false;
            }
        }
        i += 1;
    }
    assert(views@ =~= finished(start, root@, success));
}

/// Whether an operation keeps the selection of the views where it is.
pub open spec fn keeps_position(operation: Operation) -> bool {
    operation is Stage || operation is Unstage
}

/// Whether an operation was queued as it should be: at most one for each
/// repository, and not too many at a time.
pub open spec fn write_queued(
    before: App,
    root: Root,
    operation: Operation,
    name: String,
    after: App,
    result: Result<(), Error>,
) -> bool {
    let writes = before.git_write;
    let id = (writes.next + 1) as u64;
    if is_pending(writes.pending@, root@) {
        result == Err::<(), Error>(Error::GitBusy) && after == before
    } else if writes.pending@.len() >= MAX_PENDING {
        result == Err::<(), Error>(Error::TooManyGitOperations) && after == before
    } else {
        &&& result is Ok
        &&& after.git_write.pending@ == writes.pending@.push(Pending { root, id })
        &&& after.git_write.jobs@ == writes.jobs@.push(Job { id, root, operation })
        &&& after.git_write == (State {
            next: id,
            pending: after.git_write.pending,
            jobs: after.git_write.jobs,
            ..writes
        })
        &&& after.status.views@ == started(
            before.status.views@,
            root@,
            keeps_position(operation),
        )
        &&& after.status == (crate::status::State { views: after.status.views, ..before.status })
        &&& after == App {
            git_write: after.git_write,
            status: after.status,
            ..before
        }.says(Message::GitRunning { title: name })
    }
}

/// Whether the selected file was staged or unstaged as it should be.
pub open spec fn index_changed(
    before: App,
    stage: bool,
    selected: Option<SelectedFile>,
    name: String,
    after: App,
    result: Result<(), Error>,
) -> bool {
    let view = before.screen().git_view();
    let root = before.view_root(view);
    match App::index_refusal(view, selected, stage, root is Some) {
        Some(error) => {
            &&& result == Err::<(), Error>(error)
            &&& after == before
        },
        None => write_queued(
            before,
            root->0,
            if stage {
                Operation::Stage(selected->0.entry)
            } else {
                Operation::Unstage(selected->0.entry)
            },
            name,
            after,
            result,
        ),
    }
}

/// Whether the oldest operation was handed out.
pub open spec fn write_handed_out(before: App, after: App, job: Option<Job>) -> bool {
    if before.git_write.jobs@.len() == 0 {
        job is None && after == before
    } else {
        &&& job == Some(before.git_write.jobs@[0])
        &&& after.git_write.jobs@ == before.git_write.jobs@.drop_first()
        &&& after == (App {
            git_write: State {
                jobs: after.git_write.jobs,
                ..before.git_write
            },
            ..before
        })
    }
}

/// Whether a commit was asked for as it should be.
pub open spec fn commit_submitted(
    before: App,
    text: Arc<String>,
    name: String,
    after: App,
    asked: Seq<Effect>,
    asks: Seq<Effect>,
    result: Result<(), Error>,
) -> bool {
    match before.commit_refusal(text@) {
        Some(error) => {
            &&& result == Err::<(), Error>(error)
            &&& after == before
            &&& asks == asked
        },
        None => {
            let drafts = before.git_write.drafts@;
            let root = drafts[find_draft(drafts, before.editor.document)].root;
            &&& write_queued(
                before,
                root,
                Operation::Commit(text),
                name,
                after,
                result,
            )
            &&& asks == asked.push(Effect::FinishUndoGroup).push(
                Effect::CancelKeys,
            )
        },
    }
}

impl App {
    /// Refuses to quit while a Git operation is unfinished.
    pub fn check_git_writes_finished(&self) -> (result: Result<(), Error>)
        ensures
            result == if self.git_write.pending@.len() == 0 {
                Ok::<(), Error>(())
            } else {
                Err::<(), Error>(Error::GitBusyQuitting)
            },
    {
        if self.git_write.pending.len() == 0 {
            Ok(())
        } else {
            Err(Error::GitBusyQuitting)
        }
    }

    /// Queues an operation, which `name` names.
    pub fn queue_git_write(&mut self, root: Root, operation: Operation, name: String) -> (result:
        Result<(), Error>)
        requires
            old(self).git_write.next < u64::MAX,
        ensures
            write_queued(*old(self), root, operation, name, *final(self), result),
            pending_valid(old(self).git_write.pending@) ==> pending_valid(
                final(self).git_write.pending@,
            ),
    {
        if self.git_operation_for(&root) {
            return Err(Error::GitBusy);
        }
        if self.git_write.pending.len() >= MAX_PENDING {
            return Err(Error::TooManyGitOperations);
        }
        proof {
            lemma_first_where(
                self.git_write.pending@,
                of_repository(root@),
            );
        }
        let id = self.git_write.next + 1;
        self.git_write.next = id;
        let keep = match &operation {
            Operation::Stage(_) | Operation::Unstage(_) => true,
            Operation::Commit(_) => false,
        };
        self.git_write.pending.push(Pending { root: share(&root), id });
        mark_started(&mut self.status.views, &root, keep);
        self.git_write.jobs.push(Job { id, root, operation });
        self.message = Message::GitRunning { title: name };
        proof {
            if pending_valid(old(self).git_write.pending@) {
                let before = old(self).git_write.pending@;
                let test = of_repository(root@);
                assert forall|i: int, j: int|
                    0 <= i < j < self.git_write.pending@.len() implies (
                #[trigger] self.git_write.pending@[i]).root@ != (
                #[trigger] self.git_write.pending@[j]).root@ by {
                    assert(self.git_write.pending@[i] == before[i]);
                    assert(!test(before[i]));
                }
            }
        }
        Ok(())
    }

    /// Hands out the oldest operation.
    pub fn take_git_write(&mut self) -> (job: Option<Job>)
        ensures
            write_handed_out(*old(self), *final(self), job),
    {
        if self.git_write.jobs.len() == 0 {
            return None;
        }
        let job = self.git_write.jobs.remove(0);
        assert(self.git_write.jobs@ =~= old(self).git_write.jobs@.drop_first());
        Some(job)
    }

    /// Why the selected file cannot be staged or unstaged, where it cannot.
    pub open spec fn index_refusal(
        view: Option<Root>,
        selected: Option<SelectedFile>,
        stage: bool,
        read: bool,
    ) -> Option<Error> {
        if view is None {
            Some(Error::NoGitStatus)
        } else {
            match selected {
                None => Some(Error::NoGitFile),
                Some(file) => if file.group == Group::Unsaved {
                    Some(Error::UnsavedStage)
                } else if stage && file.group == Group::Staged || !stage && file.group
                    != Group::Staged {
                    Some(Error::WrongGitSection)
                } else if !read {
                    Some(Error::NoRepositoryStatus)
                } else {
                    None
                },
            }
        }
    }

    /// The root of a view, where it was read.
    pub open spec fn view_root(self, view: Option<Root>) -> Option<Root> {
        match view {
            Some(key) => {
                let at = crate::status::find_view(self.status.views@, key@);
                if at < self.status.views@.len() { self.status.views@[at].root } else { None }
            },
            None => None,
        }
    }

    fn read_root(&self, key: &Root) -> (root: Option<Root>)
        ensures
            root == self.view_root(Some(*key)),
    {
        let at = crate::status::view_index(&self.status.views, key);
        if at < self.status.views.len() {
            match &self.status.views[at].root {
                Some(root) => Some(share(root)),
                None => None,
            }
        } else {
            None
        }
    }

    /// Stage or unstage exactly the selected whole file. Hunk and line rows
    /// deliberately require selecting their file until partial staging exists.
    pub fn change_git_index(
        &mut self,
        stage: bool,
        selected: Option<SelectedFile>,
        name: String,
    ) -> (result: Result<(), Error>)
        requires
            old(self).screen().valid(),
            old(self).git_write.next < u64::MAX,
        ensures
            index_changed(*old(self), stage, selected, name, *final(self), result),
            pending_valid(old(self).git_write.pending@) ==> pending_valid(
                final(self).git_write.pending@,
            ),
    {
        let view = match self.active_git_view() {
            Some(view) => view,
            None => {
                return Err(Error::NoGitStatus);
            },
        };
        let file = match selected {
            Some(file) => file,
            None => {
                return Err(Error::NoGitFile);
            },
        };
        if file.group == Group::Unsaved {
            return Err(Error::UnsavedStage);
        }
        if (stage && file.group == Group::Staged) || (!stage && file.group != Group::Staged) {
            return Err(Error::WrongGitSection);
        }
        let root = match self.read_root(&view) {
            Some(root) => root,
            None => {
                return Err(Error::NoRepositoryStatus);
            },
        };
        let operation = if stage {
            Operation::Stage(file.entry)
        } else {
            Operation::Unstage(file.entry)
        };
        self.queue_git_write(root, operation, name)
    }

    /// The repository and the view that a commit message belongs to.
    pub fn begin_git_commit(&self) -> (place: Result<(Root, Root), Error>)
        requires
            self.screen().valid(),
        ensures
            commit_place(*self, place),
    {
        let key = match self.active_git_view() {
            Some(key) => key,
            None => {
                return Err(Error::NoGitStatus);
            },
        };
        match self.read_root(&key) {
            Some(root) => Ok((root, key)),
            None => Err(Error::NoRepositoryStatus),
        }
    }

    /// Says how a commit message works, once it is open.
    pub fn commit_opened(&mut self, result: Result<(), Error>)
        ensures
            *final(self) == match result {
                Ok(()) => old(self).says(Message::CommitKeys),
                Err(error) => old(self).failed(error),
            },
    {
        match result {
            Ok(()) => {
                self.message = Message::CommitKeys;
            },
            Err(error) => {
                self.fail(error);
            },
        }
    }

    pub(crate) fn draft_place(&self, document: DocumentId) -> (index: usize)
        ensures
            index == find_draft(self.git_write.drafts@, document),
            index <= self.git_write.drafts@.len(),
    {
        let mut i: usize = 0;
        while i < self.git_write.drafts.len() && self.git_write.drafts[i].document != document
            invariant
                i <= self.git_write.drafts.len(),
                forall|j: int|
                    0 <= j < i ==> (#[trigger] self.git_write.drafts@[j]).document != document,
            decreases self.git_write.drafts.len() - i,
        {
            i += 1;
        }
        proof {
            lemma_is_first(
                self.git_write.drafts@,
                |draft: Draft| draft.document == document,
                i as int,
            );
        }
        i
    }

    /// Whether the active document is a commit message.
    pub fn is_commit_draft(&self) -> (yes: bool)
        ensures
            yes == is_draft(self.git_write.drafts@, self.editor.document),
    {
        self.draft_place(self.editor.document) < self.git_write.drafts.len()
    }

    /// Why the active document cannot be committed with, where it cannot.
    pub open spec fn commit_refusal(self, text: Seq<char>) -> Option<Error> {
        if self.screen().git_view() is Some {
            Some(Error::NoCommitMessage)
        } else if !is_draft(self.git_write.drafts@, self.editor.document) {
            Some(Error::NoCommitDraft)
        } else if self.editor.bytes > MAX_MESSAGE_BYTES {
            Some(Error::CommitMessageTooLong)
        } else if trimmed(text, Trim::White).len() == 0 {
            Some(Error::CommitMessageEmpty)
        } else {
            None
        }
    }

    /// Commit the current index with the draft's text. No files are auto-staged.
    pub fn submit_git_commit(
        &mut self,
        text: &Arc<String>,
        name: String,
        out: &mut Vec<Effect>,
    ) -> (result: Result<(), Error>)
        requires
            old(self).screen().valid(),
            old(self).git_write.next < u64::MAX,
        ensures
            commit_submitted(
                *old(self),
                *text,
                name,
                *final(self),
                old(out)@,
                final(out)@,
                result,
            ),
            pending_valid(old(self).git_write.pending@) ==> pending_valid(
                final(self).git_write.pending@,
            ),
    {
        if self.active_git_view().is_some() {
            return Err(Error::NoCommitMessage);
        }
        let index = self.draft_place(self.editor.document);
        if index == self.git_write.drafts.len() {
            return Err(Error::NoCommitDraft);
        }
        let root = share(&self.git_write.drafts[index].root);
        if self.editor.bytes > MAX_MESSAGE_BYTES {
            return Err(Error::CommitMessageTooLong);
        }
        if trim_white(text.as_str()).as_str().is_empty() {
            return Err(Error::CommitMessageEmpty);
        }
        out.push(Effect::FinishUndoGroup);
        out.push(Effect::CancelKeys);
        self.queue_git_write(root, Operation::Commit(share(text)), name)
    }

    /// The view to return to from the active commit message.
    pub fn cancel_git_commit(&self) -> (key: Result<Root, Error>)
        ensures
            commit_return(*self, key),
    {
        let index = self.draft_place(self.editor.document);
        if index == self.git_write.drafts.len() {
            return Err(Error::NoCommitDraft);
        }
        Ok(share(&self.git_write.drafts[index].status_key))
    }

    /// Ends the return from a commit message, which is kept for this session.
    pub fn commit_left(&mut self, out: &mut Vec<Effect>)
        ensures
            *final(self) == (App {
                git_write: State { prefix: None, ..old(self).git_write },
                ..*old(self)
            }).says(Message::CommitDraftKept),
            final(out)@ == old(out)@.push(Effect::CancelKeys),
    {
        out.push(Effect::CancelKeys);
        self.git_write.prefix = None;
        self.message = Message::CommitDraftKept;
    }

    /// Whether keys of the active document may be commands of a commit message:
    /// it is one, and nothing else has the keys. `counted` says whether a count
    /// was typed.
    pub open spec fn commit_listens(self, counted: bool) -> bool {
        &&& self.screen().git_view() is None
        &&& self.prompt is None
        &&& !self.editor.keys_pending
        &&& !counted
        &&& is_draft(self.git_write.drafts@, self.editor.document)
    }

    /// Gives an event to the commit message that is being written.
    pub fn handle_commit_input(&mut self, event: &Event, counted: bool, out: &mut Vec<Effect>) -> (
        step: CommitStep)
        requires
            old(self).screen().valid(),
        ensures
            commit_event_taken(
                *old(self),
                *event,
                counted,
                *final(self),
                old(out)@,
                final(out)@,
                step,
            ),
    {
        let id = self.editor.document;
        if self.active_git_view().is_some() || self.prompt.is_some() || self.editor.keys_pending
            || counted || !self.is_commit_draft() {
            self.git_write.prefix = None;
            return CommitStep::Pass;
        }
        match event {
            Event::Key(_) => {},
            _ => {
                return CommitStep::Pass;
            },
        }
        if event.released() {
            return CommitStep::Ignore;
        }
        let key = match event.key() {
            Some(key) => key,
            None => {
                return CommitStep::Pass;
            },
        };
        let awaited = match self.git_write.prefix.take() {
            Some(document) => document == id,
            None => false,
        };
        if awaited {
            self.clear_message();
            return match key {
                Key::Ctrl('c') => CommitStep::Submit,
                Key::Ctrl('k') => CommitStep::Return,
                _ => CommitStep::Done,
            };
        }
        if key == Key::Ctrl('c') {
            out.push(Effect::CancelKeys);
            self.git_write.prefix = Some(id);
            self.message = Message::CommitPrefix;
            return CommitStep::Done;
        }
        CommitStep::Pass
    }

    /// The application once an operation has ended, before its message.
    fn note_finished(&mut self, root: &Root, at: usize, success: bool)
        requires
            at < old(self).git_write.pending@.len(),
        ensures
            final(self).git_write.pending@ == old(self).git_write.pending@.remove(at as int),
            final(self).status.views@ == finished(old(self).status.views@, root@, success),
            *final(self) == (App {
                git_write: State {
                    pending: final(self).git_write.pending,
                    ..old(self).git_write
                },
                status: crate::status::State {
                    views: final(self).status.views,
                    ..old(self).status
                },
                ..*old(self)
            }),
    {
        self.git_write.pending.remove(at);
        mark_finished(&mut self.status.views, root, success);
    }

    /// Whether an operation is the one that a repository waits for. Where it
    /// is, it is unfinished no more, and the views of the repository show how
    /// it ended. An operation that was never waited for changes nothing.
    fn finish_git_write(&mut self, root: &Root, id: u64, success: bool) -> (known: bool)
        ensures
            ({
                let pending = old(self).git_write.pending@;
                let at = find_pending(pending, root@);
                &&& known == (at < pending.len() && pending[at].id == id)
                &&& if known {
                    &&& final(self).git_write.pending@ == pending.remove(at)
                    &&& final(self).status.views@ == finished(
                        old(self).status.views@,
                        root@,
                        success,
                    )
                    &&& *final(self) == (App {
                        git_write: State {
                            pending: final(self).git_write.pending,
                            ..old(self).git_write
                        },
                        status: crate::status::State {
                            views: final(self).status.views,
                            ..old(self).status
                        },
                        ..*old(self)
                    })
                } else {
                    *final(self) == *old(self)
                }
            }),
            pending_valid(old(self).git_write.pending@) ==> pending_valid(
                final(self).git_write.pending@,
            ),
    {
        let at = pending_index(&self.git_write.pending, root);
        if at == self.git_write.pending.len() || self.git_write.pending[at].id != id {
            return false;
        }
        self.note_finished(root, at, success);
        proof {
            let before = old(self).git_write.pending@;
            let after = self.git_write.pending@;
            if pending_valid(before) {
                assert forall|i: int, j: int| 0 <= i < j < after.len() implies (
                #[trigger] after[i]).root@ != (#[trigger] after[j]).root@ by {
                    let a = if i < at { i } else { i + 1 };
                    let b = if j < at { j } else { j + 1 };
                    assert(before[a].root@ != before[b].root@);
                }
            }
        }
        true
    }

    /// Takes note of the text that was committed from a draft, and returns
    /// whether its composer is to be left: it is the active document, and its
    /// text is what was committed.
    fn commit_recorded(&mut self, root: &Root, committed: Option<Revision>) -> (leave: bool)
        requires
            old(self).screen().valid(),
        ensures
            ({
                let drafts = old(self).git_write.drafts@;
                let at = find_root_draft(drafts, root@);
                if at < drafts.len() && committed is Some {
                    &&& leave == (drafts[at].document == old(self).editor.document
                        && old(self).screen().git_view() is None)
                    &&& final(self).git_write.drafts@ == drafts.update(
                        at,
                        Draft { committed, ..drafts[at] },
                    )
                    &&& *final(self) == (App {
                        git_write: State {
                            drafts: final(self).git_write.drafts,
                            ..old(self).git_write
                        },
                        ..*old(self)
                    })
                } else {
                    !leave && *final(self) == *old(self)
                }
            }),
    {
        if committed.is_none() {
            return false;
        }
        let mut i: usize = 0;
        while i < self.git_write.drafts.len() && !same_root(&self.git_write.drafts[i].root, root)
            invariant
                i <= self.git_write.drafts.len(),
                forall|j: int|
                    0 <= j < i ==> (#[trigger] self.git_write.drafts@[j]).root@ != root@,
            decreases self.git_write.drafts.len() - i,
        {
            i += 1;
        }
        proof {
            lemma_is_first(
                self.git_write.drafts@,
                drafted_for(root@),
                i as int,
            );
        }
        if i == self.git_write.drafts.len() {
            return false;
        }
        let leave = self.git_write.drafts[i].document == self.editor.document
            && self.active_git_view().is_none();
        let draft = &mut self.git_write.drafts[i];
        draft.committed = committed;
        leave
    }

    /// The draft to leave once its text was committed, where it is the active
    /// document.
    pub open spec fn leaves_draft(self, root: Seq<u8>, committed: Option<Revision>) -> Option<Root> {
        let drafts = self.git_write.drafts@;
        let at = find_root_draft(drafts, root);
        if at < drafts.len() && committed is Some && drafts[at].document == self.editor.document
            && self.screen().git_view() is None {
            Some(drafts[find_draft(drafts, self.editor.document)].status_key)
        } else {
            None
        }
    }

    /// Takes the end of an operation. `committed` is the text of a draft that
    /// was committed, `title` names the operation and its end, and `output` is
    /// what Git printed. One that was never waited for changes nothing.
    pub fn handle_git_write(
        &mut self,
        root: &Root,
        id: u64,
        success: bool,
        committed: Option<Revision>,
        title: String,
        output: &str,
        now: Time,
        out: &mut Vec<Effect>,
    ) -> (redraw: bool)
        requires
            old(self).screen().valid(),
        ensures
            write_finished(
                *old(self),
                root@,
                id,
                success,
                committed,
                now,
                *final(self),
                old(out)@,
                final(out)@,
                redraw,
            ),
            redraw ==> final(self).error == !success && if success {
                final(self).message == (Message::Text { text: title })
            } else {
                final(self).message matches Message::GitFinished { title: shown, summary }
                    && shown == title && summary@ == first_words(lines_of(output@))
            },
            pending_valid(old(self).git_write.pending@) ==> pending_valid(
                final(self).git_write.pending@,
            ),
    {
        if !self.finish_git_write(root, id, success) {
            return false;
        }
        let ghost ended = *self;
        assert(ended.screen().valid());
        let committed = if success { committed } else { None };
        let leave = self.commit_recorded(root, committed);
        proof {
            lemma_first_where(ended.git_write.drafts@, drafted_for(root@));
        }
        if leave {
            match self.cancel_git_commit() {
                Ok(key) => {
                    proof {
                        lemma_same_documents(
                            ended.git_write.drafts@,
                            find_root_draft(ended.git_write.drafts@, root@),
                            committed,
                            self.editor.document,
                        );
                    }
                    self.git_write.prefix = None;
                    out.push(Effect::CancelKeys);
                    out.push(Effect::LeaveDraft(key));
                },
                Err(_) => {
                    proof {
                        lemma_same_documents(
                            ended.git_write.drafts@,
                            find_root_draft(ended.git_write.drafts@, root@),
                            committed,
                            self.editor.document,
                        );
                    }
                },
            }
        }
        self.refresh_git(now, out);
        self.refresh_status(now, out);
        self.report_git_write(success, title, output);
        assert(out@ =~= old(out)@ + write_effects(*old(self), root@, success, committed));
        true
    }

    /// Says how an operation ended: `title` names it and its end, and `output`
    /// is what Git printed.
    fn report_git_write(&mut self, success: bool, title: String, output: &str)
        ensures
            final(self).error == !success,
            *final(self) == (App {
                message: final(self).message,
                error: !success,
                ..*old(self)
            }),
            if success {
                final(self).message == (Message::Text { text: title })
            } else {
                final(self).message matches Message::GitFinished { title: shown, summary }
                    && shown == title && summary@ == first_words(lines_of(output@))
            },
    {
        self.message = if success {
            Message::Text { text: title }
        } else {
            Message::GitFinished { title, summary: first_line(output) }
        };
        self.error = !success;
    }
}

/// The test whether a draft is one of a repository.
pub open spec fn drafted_for(root: Seq<u8>) -> spec_fn(Draft) -> bool {
    |draft: Draft| draft.root@ == root
}

/// Where the draft of a repository is.
pub open spec fn find_root_draft(drafts: Seq<Draft>, root: Seq<u8>) -> int {
    first_where(drafts, drafted_for(root))
}

/// The first of some lines that is not blank.
pub open spec fn first_words(lines: Seq<Seq<char>>) -> Seq<char> {
    let at = first_where(lines, |line: Seq<char>| trimmed(line, Trim::White).len() > 0);
    if at < lines.len() { lines[at] } else { "Git failed"@ }
}

fn first_line(output: &str) -> (line: String)
    ensures
        line@ == first_words(lines_of(output@)),
{
    let lines = split_lines(output);
    let ghost all = lines_of(output@);
    assert(texts(lines@).len() == lines@.len());
    let mut i: usize = 0;
    while i < lines.len()
        invariant
            i <= lines.len(),
            texts(lines@) == all,
            all.len() == lines@.len(),
            forall|j: int| 0 <= j < i ==> trimmed(#[trigger] all[j], Trim::White).len() == 0,
        ensures
            i <= lines.len(),
            forall|j: int| 0 <= j < i ==> trimmed(#[trigger] all[j], Trim::White).len() == 0,
            i < lines.len() ==> trimmed(all[i as int], Trim::White).len() > 0,
        decreases lines.len() - i,
    {
        assert(all[i as int] == lines@[i as int]@);
        if !trim_white(lines[i].as_str()).as_str().is_empty() {
            break;
        }
        i += 1;
    }
    proof {
        lemma_is_first(
            all,
            |line: Seq<char>| trimmed(line, Trim::White).len() > 0,
            i as int,
        );
    }
    if i < lines.len() {
        assert(all[i as int] == lines@[i as int]@);
        lines[i].clone()
    } else {
        "Git failed".to_owned()
    }
}

/// What an event means to a commit message.
#[derive(Clone, Copy, Debug, PartialEq, Eq, Structural)]
pub enum CommitStep {
    /// Nothing; others may take it.
    Pass,
    /// Nothing, and nobody else gets it.
    Ignore,
    /// What there was to do is done.
    Done,
    /// Commit.
    Submit,
    /// Return to the repository view.
    Return,
}

/// Whether a commit message took an event as it should.
pub open spec fn commit_event_taken(
    before: App,
    event: Event,
    counted: bool,
    after: App,
    asked: Seq<Effect>,
    asks: Seq<Effect>,
    step: CommitStep,
) -> bool {
    let app = App { git_write: State { prefix: None, ..before.git_write }, ..before };
    if !before.commit_listens(counted) {
        step == CommitStep::Pass && after == app && asks == asked
    } else if !(event is Key) {
        step == CommitStep::Pass && after == before && asks == asked
    } else if event.is_release() {
        step == CommitStep::Ignore && after == before && asks == asked
    } else {
        match event.pressed() {
            None => step == CommitStep::Pass && after == before && asks == asked,
            Some(key) => if before.git_write.prefix == Some(before.editor.document) {
                &&& after == app.cleared()
                &&& asks == asked
                &&& step == if key == Key::Ctrl('c') {
                    CommitStep::Submit
                } else if key == Key::Ctrl('k') {
                    CommitStep::Return
                } else {
                    CommitStep::Done
                }
            } else if key == Key::Ctrl('c') {
                &&& step == CommitStep::Done
                &&& asks == asked.push(Effect::CancelKeys)
                &&& after == App {
                    git_write: State {
                        prefix: Some(before.editor.document),
                        ..before.git_write
                    },
                    ..before
                }.says(Message::CommitPrefix)
            } else {
                step == CommitStep::Pass && after == app && asks == asked
            },
        }
    }
}

/// A repository never has two unfinished operations.
pub proof fn law_one_operation_for_each_repository(
    before: App,
    root: Root,
    operation: Operation,
    name: String,
    after: App,
    result: Result<(), Error>,
)
    requires
        write_queued(before, root, operation, name, after, result),
        is_pending(before.git_write.pending@, root@),
    ensures
        result == Err::<(), Error>(Error::GitBusy),
        after == before,
{
}

/// An operation that has ended makes room for another of its repository.
pub proof fn law_finished_operations_make_room(pending: Seq<Pending>, root: Seq<u8>)
    requires
        pending_valid(pending),
        is_pending(pending, root),
    ensures
        !is_pending(pending.remove(find_pending(pending, root)), root),
{
    let test = of_repository(root);
    lemma_first_where(pending, test);
    let at = find_pending(pending, root);
    let after = pending.remove(at);
    lemma_first_where(after, test);
    let found = find_pending(after, root);
    assert(0 <= at < pending.len());
    if found < after.len() {
        let k = if found < at { found } else { found + 1 };
        assert(after[found] == pending[k]);
        if k < at {
            assert(pending[k].root@ != pending[at].root@);
        } else {
            assert(pending[at].root@ != pending[k].root@);
        }
    }
}

/// Recording what was committed changes no draft's document.
proof fn lemma_same_documents(
    drafts: Seq<Draft>,
    at: int,
    committed: Option<Revision>,
    document: DocumentId,
)
    requires
        0 <= at < drafts.len(),
        drafts[at].document == document,
    ensures
        ({
            let after = drafts.update(at, Draft { committed, ..drafts[at] });
            &&& find_draft(after, document) == find_draft(drafts, document)
            &&& 0 <= find_draft(drafts, document) < drafts.len()
            &&& after[find_draft(drafts, document)].status_key == drafts[find_draft(
                drafts,
                document,
            )].status_key
        }),
{
    let after = drafts.update(at, Draft { committed, ..drafts[at] });
    lemma_first_where(drafts, |draft: Draft| draft.document == document);
    let found = find_draft(drafts, document);
    if found > at {
        assert(drafts[at].document != document);
    }
    assert forall|i: int| 0 <= i < found implies (#[trigger] after[i]).document != document by {
        assert(drafts[i].document != document);
    }
    assert(after[found].document == document);
    lemma_is_first(after, |draft: Draft| draft.document == document, found);
}

/// What the end of an operation asks for.
pub open spec fn write_effects(
    before: App,
    root: Seq<u8>,
    success: bool,
    committed: Option<Revision>,
) -> Seq<Effect> {
    (match before.leaves_draft(root, if success { committed } else { None }) {
        Some(key) => seq![Effect::CancelKeys, Effect::LeaveDraft(key)],
        None => seq![],
    }) + before.git_refresh_effects() + if exists|path: Seq<u8>| #[trigger]
        crate::roots::shown(before.windows.panes@, path) {
        seq![Effect::Cancel(crate::effect::Job::Status(before.status.request))]
    } else {
        seq![]
    }
}

/// Whether the end of an operation was taken as it should be: it is unfinished
/// no more, its views show how it ended, a draft whose text was committed is
/// left, and everything is read again.
pub open spec fn write_finished(
    before: App,
    root: Seq<u8>,
    id: u64,
    success: bool,
    committed: Option<Revision>,
    now: Time,
    after: App,
    asked: Seq<Effect>,
    asks: Seq<Effect>,
    redraw: bool,
) -> bool {
    let pending = before.git_write.pending@;
    let at = find_pending(pending, root);
    let drafts = before.git_write.drafts@;
    let draft = find_root_draft(drafts, root);
    let panes = before.windows.panes@;
    let ended = finished(before.status.views@, root, success);
    let any = exists|path: Seq<u8>| #[trigger] crate::roots::shown(panes, path);
    if !(at < pending.len() && pending[at].id == id) {
        !redraw && after == before && asks == asked
    } else {
        &&& redraw
        &&& asks == asked + write_effects(before, root, success, committed)
        &&& after.git_write.pending@ == pending.remove(at)
        &&& after.git_write.drafts@ == if success && committed is Some && draft < drafts.len() {
            drafts.update(draft, Draft { committed, ..drafts[draft] })
        } else {
            drafts
        }
        &&& after.git_write == (State {
            pending: after.git_write.pending,
            drafts: after.git_write.drafts,
            prefix: if before.leaves_draft(root, if success { committed } else { None }) is Some {
                None
            } else {
                before.git_write.prefix
            },
            ..before.git_write
        })
        &&& after.status.views@ == if any { crate::status::refreshing(ended, panes) } else { ended }
        &&& after.status == (crate::status::State {
            views: after.status.views,
            due: if any { Some(now) } else { before.status.due },
            cancelled: any || before.status.cancelled,
            ..before.status
        })
        &&& after == (App {
            git_write: after.git_write,
            status: after.status,
            git: before.git_refreshed(now).git,
            message: after.message,
            error: after.error,
            ..before
        })
    }
}

/// Whether this is where a commit begins.
pub open spec fn commit_place(before: App, place: Result<(Root, Root), Error>) -> bool {
    match (before.screen().git_view(), place) {
        (None, place) => place == Err::<(Root, Root), Error>(Error::NoGitStatus),
        (Some(key), place) => match before.view_root(Some(key)) {
            Some(root) => place == Ok::<(Root, Root), Error>((root, key)),
            None => place == Err::<(Root, Root), Error>(Error::NoRepositoryStatus),
        },
    }
}

/// Whether this is the view that a commit message returns to.
pub open spec fn commit_return(before: App, key: Result<Root, Error>) -> bool {
    let drafts = before.git_write.drafts@;
    let at = find_draft(drafts, before.editor.document);
    key == if at < drafts.len() {
        Ok::<Root, Error>(drafts[at].status_key)
    } else {
        Err::<Root, Error>(Error::NoCommitDraft)
    }
}

} // verus!
