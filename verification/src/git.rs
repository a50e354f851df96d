//! Per-buffer Git state and deadlines. Complete batches share one result slot;
//! drawing only reads hunks for the current document revision and path.

use crate::app::App;
use crate::editor::{FileId, Time};
use crate::effect::{Effect, Job};
use crate::find::{first_where, lemma_first_where, lemma_is_first};
use crate::selection::{DocumentId, Revision};
use crate::windows::{Buffer, Screen};
use vstd::prelude::*;

verus! {

/// Nanoseconds between an edit and a comparison.
pub const EDIT_DELAY: u64 = 150_000_000;

/// No edit waits longer than this, in nanoseconds, however much is typed.
pub const MAX_DELAY: u64 = 500_000_000;

/// Nanoseconds between two looks at the repositories.
pub const REFRESH_INTERVAL: u64 = 2_000_000_000;

/// A version of a document under a file.
#[derive(Clone, Copy, Debug, PartialEq, Eq, Structural)]
pub struct Version {
    pub document: DocumentId,
    pub revision: Revision,
    pub file: FileId,
}

/// How a version of a document differs from its repository.
#[derive(Clone, Copy, Debug, PartialEq, Eq, Structural)]
pub struct DocumentDiff {
    pub version: Version,
    /// Identity of the text that it was compared with, and of the difference.
    pub baseline: Option<u64>,
    pub diff: Option<u64>,
}

#[derive(Debug)]
pub struct State {
    pub enabled: bool,
    pub seen: Vec<Version>,
    pub due: Option<Time>,
    pub first_edit: Option<Time>,
    pub refresh_at: Option<Time>,
    pub refresh: bool,
    pub request: u64,
    /// Whether the last batch was given up.
    pub cancelled: bool,
    pub results: Vec<DocumentDiff>,
}

/// What the state is.
pub struct Track {
    pub enabled: bool,
    pub seen: Seq<Version>,
    pub due: Option<Time>,
    pub first_edit: Option<Time>,
    pub refresh_at: Option<Time>,
    pub refresh: bool,
    pub request: u64,
    pub cancelled: bool,
    pub results: Seq<DocumentDiff>,
}

impl View for State {
    type V = Track;

    open spec fn view(&self) -> Track {
        Track {
            enabled: self.enabled,
            seen: self.seen@,
            due: self.due,
            first_edit: self.first_edit,
            refresh_at: self.refresh_at,
            refresh: self.refresh,
            request: self.request,
            cancelled: self.cancelled,
            results: self.results@,
        }
    }
}

/// Documents to compare.
#[derive(Debug)]
pub struct Batch {
    pub request: u64,
    pub documents: Vec<Version>,
    pub refresh: bool,
}

/// The version of a document, where it has a file.
pub open spec fn version_of(editor: crate::editor::Editor) -> Seq<Version> {
    match editor.file {
        Some(file) => seq![
            Version { document: editor.document, revision: editor.revision, file },
        ],
        None => seq![],
    }
}

/// The versions of the first buffers.
pub open spec fn buffer_versions(buffers: Seq<Buffer>) -> Seq<Version>
    decreases buffers.len(),
{
    if buffers.len() == 0 {
        seq![]
    } else {
        buffer_versions(buffers.drop_last()) + version_of(buffers.last().editor)
    }
}

/// The versions of the open documents that have files, the active one first.
pub open spec fn versions(screen: Screen) -> Seq<Version> {
    version_of(screen.app.editor) + buffer_versions(screen.buffers)
}

/// Whether a list holds a version of a document under a file.
pub open spec fn knows(seen: Seq<Version>, version: Version) -> bool {
    exists|i: int|
        0 <= i < seen.len() && (#[trigger] seen[i]).document == version.document && seen[i].file
            == version.file
}

/// Whether a document or file is new, or one is gone.
pub open spec fn identity_changed(now: Seq<Version>, seen: Seq<Version>) -> bool {
    now.len() != seen.len() || exists|i: int| 0 <= i < now.len() && !knows(seen, #[trigger] now[i])
}

/// Whether anything was edited, opened, closed or renamed.
pub open spec fn versions_changed(now: Seq<Version>, seen: Seq<Version>) -> bool {
    now.len() != seen.len() || exists|i: int| 0 <= i < now.len() && !seen.contains(#[trigger] now[i])
}

/// Whether a document is among some versions.
pub open spec fn lists_document(versions: Seq<Version>, document: DocumentId) -> bool {
    exists|i: int| 0 <= i < versions.len() && (#[trigger] versions[i]).document == document
}

/// The results for documents that are still open.
pub open spec fn kept_results(results: Seq<DocumentDiff>, versions: Seq<Version>) -> Seq<
    DocumentDiff,
>
    decreases results.len(),
{
    if results.len() == 0 {
        results
    } else {
        let rest = kept_results(results.drop_last(), versions);
        if lists_document(versions, results.last().version.document) {
            rest.push(results.last())
        } else {
            rest
        }
    }
}

/// Where the result of a document is.
pub open spec fn find_result(results: Seq<DocumentDiff>, document: DocumentId) -> int {
    first_where(results, |result: DocumentDiff| result.version.document == document)
}

/// The results with another one for its document.
pub open spec fn with_result(results: Seq<DocumentDiff>, result: DocumentDiff) -> Seq<DocumentDiff> {
    let at = find_result(results, result.version.document);
    if at < results.len() { results.update(at, result) } else { results.push(result) }
}

/// Whether a result is new for its document.
pub open spec fn is_news(results: Seq<DocumentDiff>, result: DocumentDiff) -> bool {
    let at = find_result(results, result.version.document);
    at >= results.len() || results[at] != result
}

/// The results after some more came, of which those of present versions are
/// taken.
pub open spec fn merged(
    results: Seq<DocumentDiff>,
    news: Seq<DocumentDiff>,
    current: Seq<Version>,
) -> Seq<DocumentDiff>
    decreases news.len(),
{
    if news.len() == 0 {
        results
    } else {
        let rest = merged(results, news.drop_last(), current);
        if current.contains(news.last().version) { with_result(rest, news.last()) } else { rest }
    }
}

/// Whether some of these results are new.
pub open spec fn any_news(
    results: Seq<DocumentDiff>,
    news: Seq<DocumentDiff>,
    current: Seq<Version>,
) -> bool
    decreases news.len(),
{
    news.len() > 0 && (any_news(results, news.drop_last(), current) || current.contains(
        news.last().version,
    ) && is_news(merged(results, news.drop_last(), current), news.last()))
}

pub open spec fn earlier(a: int, b: int) -> int {
    if a <= b { a } else { b }
}

impl Track {
    /// The state after a look at the open documents: an edit is compared once
    /// typing pauses, and a new document or file at once.
    pub open spec fn noticed(self, now_open: Seq<Version>, now: Time) -> Track {
        if versions_changed(now_open, self.seen) {
            let first = match self.first_edit {
                Some(first) => first,
                None => now,
            };
            Track {
                cancelled: true,
                first_edit: Some(first),
                due: Some(
                    (if identity_changed(now_open, self.seen) {
                        now as int
                    } else {
                        earlier(now + EDIT_DELAY, first + MAX_DELAY)
                    }) as u64,
                ),
                results: kept_results(self.results, now_open),
                seen: now_open,
                ..self
            }
        } else {
            self
        }
    }

    /// The state after a look at the clock: the repositories are looked at now
    /// and then.
    pub open spec fn ticked(self, now: Time) -> Track {
        match self.refresh_at {
            Some(deadline) => if deadline <= now {
                Track {
                    refresh: true,
                    due: match self.due {
                        Some(due) => Some(due),
                        None => Some(now),
                    },
                    refresh_at: Some((now + REFRESH_INTERVAL) as u64),
                    ..self
                }
            } else {
                self
            },
            None => self,
        }
    }

    /// Whether a batch is to be compared now.
    pub open spec fn is_due(self, now: Time) -> bool {
        self.due matches Some(due) && due <= now
    }

    /// The state after a batch was handed out.
    pub open spec fn handed_out(self) -> Track {
        Track {
            cancelled: false,
            request: (self.request + 1) as u64,
            due: None,
            first_edit: None,
            refresh_at: None,
            ..self
        }
    }

    /// The state that a call for a batch leads to, before it is handed out.
    pub open spec fn prepared(self, now_open: Seq<Version>, now: Time) -> Track {
        self.noticed(now_open, now).ticked(now)
    }
}

fn has_version(list: &Vec<Version>, version: Version) -> (found: bool)
    ensures
        found == list@.contains(version),
{
    let mut i: usize = 0;
    while i < list.len()
        invariant
            i <= list.len(),
            forall|j: int| 0 <= j < i ==> list@[j] != version,
        decreases list.len() - i,
    {
        if list[i] == version {
            return true;
        }
        i += 1;
    }
    false
}

fn has_identity(list: &Vec<Version>, version: Version) -> (found: bool)
    ensures
        found == knows(list@, version),
{
    let mut i: usize = 0;
    while i < list.len()
        invariant
            i <= list.len(),
            forall|j: int|
                0 <= j < i ==> !((#[trigger] list@[j]).document == version.document && list@[j].file
                    == version.file),
        decreases list.len() - i,
    {
        if list[i].document == version.document && list[i].file == version.file {
            assert(list@[i as int].document == version.document);
            return true;
        }
        i += 1;
    }
    false
}

fn has_document(list: &Vec<Version>, document: DocumentId) -> (found: bool)
    ensures
        found == lists_document(list@, document),
{
    let mut i: usize = 0;
    while i < list.len()
        invariant
            i <= list.len(),
            forall|j: int| 0 <= j < i ==> (#[trigger] list@[j]).document != document,
        decreases list.len() - i,
    {
        if list[i].document == document {
            assert(list@[i as int].document == document);
            return true;
        }
        i += 1;
    }
    false
}

/// Whether anything changed, and whether a document or file did.
fn compare(now: &Vec<Version>, seen: &Vec<Version>) -> (changes: (bool, bool))
    ensures
        changes.0 == versions_changed(now@, seen@),
        changes.1 == identity_changed(now@, seen@),
{
    if now.len() != seen.len() {
        return (true, true);
    }
    let mut changed = false;
    let mut identity = false;
    let mut i: usize = 0;
    while i < now.len()
        invariant
            i <= now.len(),
            changed == exists|j: int| 0 <= j < i && !seen@.contains(#[trigger] now@[j]),
            identity == exists|j: int| 0 <= j < i && !knows(seen@, #[trigger] now@[j]),
        decreases now.len() - i,
    {
        if !has_version(seen, now[i]) {
            assert(!seen@.contains(now@[i as int]));
            changed = true;
        }
        if !has_identity(seen, now[i]) {
            assert(!knows(seen@, now@[i as int]));
            identity = true;
        }
        i += 1;
    }
    (changed, identity)
}

fn retain(results: &Vec<DocumentDiff>, open: &Vec<Version>) -> (kept: Vec<DocumentDiff>)
    ensures
        kept@ == kept_results(results@, open@),
{
    let mut kept: Vec<DocumentDiff> = Vec::new();
    let mut i: usize = 0;
    assert(results@.take(0) =~= seq![]);
    assert(kept@ =~= kept_results(results@.take(0), open@));
    while i < results.len()
        invariant
            i <= results.len(),
            kept@ == kept_results(results@.take(i as int), open@),
        decreases results.len() - i,
    {
        assert(results@.take(i + 1).drop_last() =~= results@.take(i as int));
        assert(results@.take(i + 1).last() == results@[i as int]);
        if has_document(open, results[i].version.document) {
            kept.push(results[i]);
        }
        i += 1;
    }
    assert(results@.take(i as int) =~= results@);
    kept
}

impl State {
    /// The difference of a version of a document, where it is known.
    pub fn diff(&self, document: DocumentId, revision: Revision, file: Option<FileId>) -> (diff:
        Option<u64>)
        ensures
            diff == ({
                let at = find_result(self.results@, document);
                if at < self.results@.len() && self.results@[at].version.revision == revision
                    && Some(self.results@[at].version.file) == file {
                    self.results@[at].diff
                } else {
                    None
                }
            }),
    {
        let i = self.result_index(document);
        if i == self.results.len() {
            return None;
        }
        let result = self.results[i];
        let same_file = match file {
            Some(file) => result.version.file == file,
            None => false,
        };
        if result.version.revision == revision && same_file { result.diff } else { None }
    }

    fn result_index(&self, document: DocumentId) -> (index: usize)
        ensures
            index == find_result(self.results@, document),
            index <= self.results@.len(),
    {
        let mut i: usize = 0;
        while i < self.results.len() && self.results[i].version.document != document
            invariant
                i <= self.results.len(),
                forall|j: int|
                    0 <= j < i ==> (#[trigger] self.results@[j]).version.document != document,
            decreases self.results.len() - i,
        {
            i += 1;
        }
        proof {
            lemma_is_first(
                self.results@,
                |result: DocumentDiff| result.version.document == document,
                i as int,
            );
        }
        i
    }

    fn notice(&mut self, open: &Vec<Version>, now: Time)
        requires
            now + MAX_DELAY <= u64::MAX,
            old(self).first_edit matches Some(first) ==> first <= now,
        ensures
            final(self)@ == old(self)@.noticed(open@, now),
    {
        let (changed, identity) = compare(open, &self.seen);
        if !changed {
            return;
        }
        self.cancelled = true;
        let first = match self.first_edit {
            Some(first) => first,
            None => now,
        };
        self.first_edit = Some(first);
        self.due = Some(
            if identity {
                now
            } else if now + EDIT_DELAY <= first + MAX_DELAY {
                now + EDIT_DELAY
            } else {
                first + MAX_DELAY
            },
        );
        self.results = retain(&self.results, open);
        self.seen = copy_versions(open);
    }

    fn tick(&mut self, now: Time)
        requires
            now + REFRESH_INTERVAL <= u64::MAX,
        ensures
            final(self)@ == old(self)@.ticked(now),
    {
        let due = match self.refresh_at {
            Some(deadline) => deadline <= now,
            None => false,
        };
        if due {
            self.refresh = true;
            if self.due.is_none() {
                self.due = Some(now);
            }
            self.refresh_at = Some(now + REFRESH_INTERVAL);
        }
    }
}

fn copy_versions(list: &Vec<Version>) -> (copy: Vec<Version>)
    ensures
        copy@ == list@,
{
    let mut copy = Vec::new();
    let mut i: usize = 0;
    while i < list.len()
        invariant
            i <= list.len(),
            copy@ == list@.take(i as int),
        decreases list.len() - i,
    {
        copy.push(list[i]);
        i += 1;
        assert(copy@ =~= list@.take(i as int));
    }
    assert(copy@ =~= list@);
    copy
}

impl App {
    /// The application with the repositories looked at as soon as possible.
    pub open spec fn git_refreshed(self, now: Time) -> App {
        if self.git.enabled {
            App {
                git: State { cancelled: true, refresh: true, due: Some(now), ..self.git },
                ..self
            }
        } else {
            self
        }
    }

    /// What looking again asks for.
    pub open spec fn git_refresh_effects(self) -> Seq<Effect> {
        if self.git.enabled { seq![Effect::Cancel(Job::Git(self.git.request))] } else { seq![] }
    }

    pub fn enable_git(&mut self, now: Time, out: &mut Vec<Effect>)
        ensures
            *final(self) == (App {
                git: State { enabled: true, ..old(self).git },
                ..*old(self)
            }).git_refreshed(now),
            final(out)@ == old(out)@.push(Effect::Cancel(Job::Git(old(self).git.request))),
    {
        self.git.enabled = true;
        self.refresh_git(now, out);
        assert(out@ =~= old(out)@.push(Effect::Cancel(Job::Git(old(self).git.request))));
    }

    pub fn refresh_git(&mut self, now: Time, out: &mut Vec<Effect>)
        ensures
            *final(self) == old(self).git_refreshed(now),
            final(out)@ == old(out)@ + old(self).git_refresh_effects(),
    {
        if self.git.enabled {
            out.push(Effect::Cancel(Job::Git(self.git.request)));
            self.git.cancelled = true;
            self.git.refresh = true;
            self.git.due = Some(now);
        }
        assert(out@ =~= old(out)@ + old(self).git_refresh_effects());
    }

    /// When the next batch, or look at the repositories, is due.
    pub fn git_deadline(&self) -> (due: Option<Time>)
        ensures
            due == if !self.git.enabled {
                None
            } else {
                match (self.git.due, self.git.refresh_at) {
                    (Some(a), Some(b)) => Some(if a <= b { a } else { b }),
                    (Some(a), None) => Some(a),
                    (None, b) => b,
                }
            },
    {
        if !self.git.enabled {
            return None;
        }
        match (self.git.due, self.git.refresh_at) {
            (Some(a), Some(b)) => Some(if a <= b { a } else { b }),
            (Some(a), None) => Some(a),
            (None, b) => b,
        }
    }

    /// The versions of the open documents that have files.
    pub fn git_documents(&self) -> (documents: Vec<Version>)
        ensures
            documents@ == versions(self.screen()),
    {
        let mut documents: Vec<Version> = Vec::new();
        match self.editor.file {
            Some(file) => {
                documents.push(
                    Version {
                        document: self.editor.document,
                        revision: self.editor.revision,
                        file,
                    },
                );
            },
            None => {},
        }
        let ghost first = version_of(self.editor);
        assert(documents@ =~= first);
        let mut i: usize = 0;
        assert(self.windows.buffers@.take(0) =~= seq![]);
        assert(documents@ =~= first + buffer_versions(self.windows.buffers@.take(0)));
        while i < self.windows.buffers.len()
            invariant
                i <= self.windows.buffers.len(),
                first == version_of(self.editor),
                documents@ == first + buffer_versions(self.windows.buffers@.take(i as int)),
            decreases self.windows.buffers.len() - i,
        {
            let ghost before = documents@;
            let ghost shorter = self.windows.buffers@.take(i as int);
            let ghost longer = self.windows.buffers@.take(i + 1);
            assert(longer.drop_last() =~= shorter);
            assert(longer.last() == self.windows.buffers@[i as int]);
            let editor = &self.windows.buffers[i].editor;
            match editor.file {
                Some(file) => {
                    documents.push(
                        Version { document: editor.document, revision: editor.revision, file },
                    );
                },
                None => {},
            }
            assert(documents@ =~= before + version_of(longer.last().editor));
            assert(documents@ =~= first + buffer_versions(longer));
            i += 1;
        }
        assert(self.windows.buffers@.take(i as int) =~= self.windows.buffers@);
        documents
    }

    /// Hands out the open documents to be compared with their repositories,
    /// once that is due.
    pub fn take_git_batch(&mut self, now: Time, out: &mut Vec<Effect>) -> (batch: Option<Batch>)
        requires
            now + REFRESH_INTERVAL <= u64::MAX,
            old(self).git.first_edit matches Some(first) ==> first <= now,
            old(self).git.request < u64::MAX,
        ensures
            git_batch_taken(*old(self), now, *final(self), old(out)@, final(out)@, batch),
    {
        if !self.git.enabled {
            return None;
        }
        let documents = self.git_documents();
        let (changed, _) = compare(&documents, &self.git.seen);
        let request = self.git.request;
        self.git.notice(&documents, now);
        self.git.tick(now);
        let due = match self.git.due {
            Some(due) => due <= now,
            None => false,
        };
        if !due {
            if changed {
                out.push(Effect::Cancel(Job::Git(request)));
            }
            return None;
        }
        out.push(Effect::Cancel(Job::Git(request)));
        self.git.cancelled = false;
        self.git.request = request + 1;
        self.git.due = None;
        self.git.first_edit = None;
        self.git.refresh_at = None;
        Some(Batch { request: self.git.request, documents, refresh: self.git.refresh })
    }

    /// Takes the differences of a batch. Returns whether one of them is new.
    /// Those of another batch, or of versions that are no longer there, are
    /// dropped.
    pub fn handle_git_result(
        &mut self,
        request: u64,
        news: &Vec<DocumentDiff>,
        now: Time,
    ) -> (changed: bool)
        requires
            now + REFRESH_INTERVAL <= u64::MAX,
        ensures
            git_results_taken(*old(self), request, news@, now, *final(self), changed),
    {
        if request != self.git.request || self.git.cancelled {
            return false;
        }
        self.git.refresh = false;
        self.git.refresh_at = Some(now + REFRESH_INTERVAL);
        let open = self.git_documents();
        let ghost start = self.git;
        let mut changed = false;
        let mut i: usize = 0;
        assert(news@.take(0) =~= seq![]);
        while i < news.len()
            invariant
                i <= news.len(),
                open@ == versions(old(self).screen()),
                start.results@ == old(self).git.results@,
                changed == any_news(start.results@, news@.take(i as int), open@),
                self.git@ == (Track {
                    results: merged(start.results@, news@.take(i as int), open@),
                    ..start@
                }),
                *self == (App { git: self.git, ..*old(self) }),
            decreases news.len() - i,
        {
            assert(news@.take(i + 1).drop_last() =~= news@.take(i as int));
            assert(news@.take(i + 1).last() == news@[i as int]);
            let result = news[i];
            if has_version(&open, result.version) {
                let ghost before = self.git.results@;
                let at = self.git.result_index(result.version.document);
                if at < self.git.results.len() {
                    if self.git.results[at] != result {
                        changed = true;
                    }
                    self.git.results.set(at, result);
                } else {
                    changed = true;
                    self.git.results.push(result);
                }
                assert(self.git.results@ == with_result(before, result));
            }
            i += 1;
        }
        assert(news@.take(i as int) =~= news@);
        changed
    }
}

/// An edit never waits longer than the greatest delay after the first edit
/// that has not been compared yet.
pub proof fn law_edits_are_compared_in_time(track: Track, open: Seq<Version>, now: Time)
    requires
        versions_changed(open, track.seen),
        now + MAX_DELAY <= u64::MAX,
        track.first_edit matches Some(first) ==> first <= now && now <= first + MAX_DELAY,
    ensures
        ({
            let after = track.noticed(open, now);
            let first = match track.first_edit {
                Some(first) => first,
                None => now,
            };
            &&& after.due matches Some(due) && due <= first + MAX_DELAY
            &&& after.first_edit == Some(first)
        }),
{
}

/// The result taken last is the one that its document has.
pub proof fn law_the_last_result_is_found(
    results: Seq<DocumentDiff>,
    document: DocumentId,
    result: DocumentDiff,
)
    requires
        result.version.document == document,
    ensures
        with_result(results, result)[find_result(with_result(results, result), document)] == result,
{
    let test = |other: DocumentDiff| other.version.document == document;
    lemma_first_where(results, test);
    let at = find_result(results, document);
    let after = with_result(results, result);
    assert forall|i: int| 0 <= i < at implies !test(#[trigger] after[i]) by {
        assert(!test(results[i]));
    }
    lemma_is_first(after, test, at);
}

/// Whether documents were handed out to be compared as they should be.
pub open spec fn git_batch_taken(
    before: App,
    time: Time,
    now: App,
    asked: Seq<Effect>,
    asks: Seq<Effect>,
    batch: Option<Batch>,
) -> bool {
    &&& {
        let open = versions(before.screen());
        let ready = before.git@.prepared(open, time);
        if !before.git.enabled {
            batch is None && now == before && asks == asked
        } else if ready.is_due(time) {
            &&& batch matches Some(batch) && batch.documents@ == open && batch.refresh
                == ready.refresh && batch.request == ready.handed_out().request
            &&& now.git@ == ready.handed_out()
            &&& asks == asked.push(
                Effect::Cancel(Job::Git(before.git.request)),
            )
        } else {
            &&& batch is None
            &&& now.git@ == ready
            &&& asks == if versions_changed(open, before.git.seen@) {
                asked.push(Effect::Cancel(Job::Git(before.git.request)))
            } else {
                asked
            }
        }
    }
    &&& now == (App { git: now.git, ..before })
}

/// Whether the differences of a batch were taken as they should be.
pub open spec fn git_results_taken(
    before: App,
    request: u64,
    news: Seq<DocumentDiff>,
    time: Time,
    now: App,
    changed: bool,
) -> bool {
    if request != before.git.request || before.git.cancelled {
        !changed && now == before
    } else {
        let open = versions(before.screen());
        &&& changed == any_news(before.git.results@, news, open)
        &&& now.git@ == (Track {
            refresh: false,
            refresh_at: Some((time + REFRESH_INTERVAL) as u64),
            results: merged(before.git.results@, news, open),
            ..before.git@
        })
        &&& now == (App { git: now.git, ..before })
    }
}

} // verus!
