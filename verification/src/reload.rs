//! Poll only documents displayed in visible panes, with one background batch
//! in flight. Late reads never replace a newer edit, save, or file identity.

use crate::app::App;
use crate::editor::{Editor, FileId, Time};
use crate::effect::Effect;
use crate::error::Error;
use crate::input::search_prompt_opened;
use crate::layout::{Rect, WindowId};
use crate::message::Message;
use crate::paint::lemma_shown_windows;
use crate::refresh::buffer_refreshed;
use crate::selection::{DocumentId, Revision};
use crate::symbols::QUERY_DELAY;
use crate::windows::{find_buffer, lemma_has_buffer, lemma_has_pane, pane_of, Screen};
use vstd::prelude::*;

verus! {

/// Nanoseconds between two looks at the files.
pub const INTERVAL: u64 = 2_000_000_000;

#[derive(Clone, Copy, Debug, PartialEq, Eq, Structural)]
pub struct State {
    pub due: Option<Time>,
    pub request: u64,
    /// Whether polling was given up.
    pub cancelled: bool,
}

/// A file to look at, and the text that it is held against.
#[derive(Clone, Copy, Debug, PartialEq, Eq, Structural)]
pub struct Probe {
    pub document: DocumentId,
    pub revision: Revision,
    pub file: FileId,
}

/// A batch of looks at files.
#[derive(Debug)]
pub struct Batch {
    pub request: u64,
    pub probes: Vec<Probe>,
}

impl Screen {
    /// The facts of a document that is open.
    pub open spec fn editor_of(self, document: DocumentId) -> Editor {
        if document == self.app.editor.document {
            self.app.editor
        } else {
            self.buffers[find_buffer(self.buffers, document)].editor
        }
    }

    /// The look at the file of the document that a window shows. There is none
    /// where a repository stands in front of the document, or where the
    /// document has no file.
    pub open spec fn probe(self, id: WindowId) -> Option<Probe> {
        let pane = pane_of(self.panes, id);
        let editor = self.editor_of(pane.document);
        if pane.git is Some {
            None
        } else {
            match editor.file {
                Some(file) => Some(
                    Probe { document: pane.document, revision: editor.revision, file },
                ),
                None => None,
            }
        }
    }

    /// The windows that are on the screen.
    pub open spec fn visible(self) -> Seq<(WindowId, Rect)> {
        self.app.windows.layout.shown(self.app.area())
    }

    /// Whether a look is one at the file of a document that is on the screen.
    pub open spec fn polls(self, probe: Probe) -> bool {
        exists|i: int|
            0 <= i < self.visible().len() && self.probe((#[trigger] self.visible()[i]).0) == Some(
                probe,
            )
    }

    /// The looks at the files of the documents that some windows show, each
    /// document once, in the order of the windows.
    pub open spec fn probes(self, windows: Seq<(WindowId, Rect)>) -> Seq<Probe>
        decreases windows.len(),
    {
        if windows.len() == 0 {
            seq![]
        } else {
            let rest = self.probes(windows.drop_last());
            match self.probe(windows.last().0) {
                Some(probe) => if rest.contains(probe) {
                    rest
                } else {
                    rest.push(probe)
                },
                None => rest,
            }
        }
    }
}

/// What a look at a file found.
#[derive(Debug)]
pub enum Outcome {
    /// Another text, ready to replace the document's.
    Reload,
    /// Another text, and unsaved edits.
    Conflict,
    Missing,
    Error(String),
    Unchanged,
    /// The file was being written.
    Retry,
}

/// What to do about it.
#[derive(Debug)]
pub enum Observed {
    /// Nothing.
    Skip,
    /// Replace the document's text.
    Apply,
    /// Remember that the file is as it should be.
    Settle,
    /// Remember the warning, and show it where it is new.
    Warn(Message),
}

/// What to do about what a look at a file found; unsaved edits are never
/// replaced.
pub open spec fn observed(outcome: Outcome, dirty: bool, path: String) -> Observed {
    match outcome {
        Outcome::Reload => if dirty {
            Observed::Warn(Message::DiskChanged { path })
        } else {
            Observed::Apply
        },
        Outcome::Conflict => Observed::Warn(Message::DiskChanged { path }),
        Outcome::Missing => Observed::Warn(Message::DiskRemoved { path }),
        Outcome::Error(reason) => Observed::Warn(Message::ReloadFailed { reason, path }),
        Outcome::Unchanged => Observed::Settle,
        Outcome::Retry => Observed::Skip,
    }
}

/// What to do about what a look at a file found.
pub fn observe(outcome: Outcome, dirty: bool, path: String) -> (step: Observed)
    ensures
        step == observed(outcome, dirty, path),
{
    match outcome {
        Outcome::Reload => if dirty {
            Observed::Warn(Message::DiskChanged { path })
        } else {
            Observed::Apply
        },
        Outcome::Conflict => Observed::Warn(Message::DiskChanged { path }),
        Outcome::Missing => Observed::Warn(Message::DiskRemoved { path }),
        Outcome::Error(reason) => Observed::Warn(Message::ReloadFailed { reason, path }),
        Outcome::Unchanged => Observed::Settle,
        Outcome::Retry => Observed::Skip,
    }
}

/// What became of a look at a file.
#[derive(Debug)]
pub enum Report {
    Nothing,
    Reloaded(String),
    Warned(Message),
    Failed(Error),
}

/// The application and whether to redraw, after one more report. A warning is
/// kept when another file was reloaded too.
pub open spec fn reported(app: App, redraw: bool, report: Report) -> (App, bool) {
    match report {
        Report::Nothing => (app, redraw),
        Report::Reloaded(path) => (
            if !redraw || !app.error {
                app.cleared().says(Message::Reloaded { path })
            } else {
                app
            },
            true,
        ),
        Report::Warned(message) => (App { message, error: true, ..app }, true),
        Report::Failed(error) => (app.failed(error), true),
    }
}

impl App {
    pub fn enable_file_polling(&mut self, now: Time)
        requires
            now + INTERVAL <= u64::MAX,
        ensures
            *final(self) == (App {
                reload: State { due: Some((now + INTERVAL) as u64), ..old(self).reload },
                ..*old(self)
            }),
    {
        self.reload.due = Some(now + INTERVAL);
    }

    pub fn file_poll_deadline(&self) -> (due: Option<Time>)
        ensures
            due == self.reload.due,
    {
        self.reload.due
    }

    /// The look at the file of the document that a window shows, where there
    /// is one.
    fn file_probe(&self, id: WindowId) -> (probe: Option<Probe>)
        requires
            self.screen().valid(),
            crate::windows::has_pane(self.windows.panes@, id),
        ensures
            probe == self.screen().probe(id),
    {
        let at = self.pane_index(id);
        proof {
            lemma_has_pane(self.windows.panes@, id);
        }
        if self.windows.panes[at].git.is_some() {
            return None;
        }
        let document: DocumentId = self.windows.panes[at].document;
        let (revision, file): (Revision, Option<FileId>) = if document == self.editor.document {
            (self.editor.revision, self.editor.file)
        } else {
            let index = self.buffer_index(document);
            proof {
                assert(self.windows.panes@[at as int].document == document);
                lemma_has_buffer(self.windows.buffers@, document);
            }
            (self.windows.buffers[index].editor.revision, self.windows.buffers[index].editor.file)
        };
        match file {
            Some(file) => Some(Probe { document, revision, file }),
            None => None,
        }
    }

    /// The looks at the files of the documents that are on the screen, each
    /// document once.
    pub fn visible_files(&self) -> (probes: Vec<Probe>)
        requires
            self.screen().valid(),
        ensures
            probes@ == self.screen().probes(self.screen().visible()),
            forall|probe: Probe| #[trigger]
                probes@.contains(probe) <==> self.screen().polls(probe),
            forall|i: int, j: int|
                0 <= i < j < probes@.len() ==> (#[trigger] probes@[i]).document
                    != (#[trigger] probes@[j]).document,
    {
        let ghost screen = self.screen();
        let windows = self.windows.layout.visible(self.window_area()).0;
        let mut probes: Vec<Probe> = Vec::new();
        let mut i: usize = 0;
        proof {
            lemma_shown_windows(screen);
            assert(windows@ == screen.visible());
            assert(windows@.take(0) =~= Seq::<(WindowId, Rect)>::empty());
        }
        while i < windows.len()
            invariant
                i <= windows.len(),
                screen == self.screen(),
                screen.valid(),
                windows@ == screen.visible(),
                forall|k: int|
                    0 <= k < windows@.len() ==> crate::windows::has_pane(
                        screen.panes,
                        (#[trigger] windows@[k]).0,
                    ),
                probes@ == screen.probes(windows@.take(i as int)),
            decreases windows.len() - i,
        {
            let id: WindowId = windows[i].0;
            proof {
                assert(windows@.take(i as int + 1).drop_last() =~= windows@.take(i as int));
                assert(crate::windows::has_pane(screen.panes, windows@[i as int].0));
            }
            if let Some(probe) = self.file_probe(id) {
                if !listed(&probes, probe) {
                    probes.push(probe);
                }
            }
            i += 1;
        }
        proof {
            assert(windows@.take(windows@.len() as int) =~= windows@);
            law_each_visible_file_is_polled_once(screen);
        }
        probes
    }

    /// A batch of looks at the files of the documents that are on the screen,
    /// where it is due. The next one is due only after this one ended.
    pub fn take_file_poll(&mut self, now: Time) -> (batch: Option<Batch>)
        requires
            old(self).screen().valid(),
            now + INTERVAL <= u64::MAX,
            old(self).reload.request < u64::MAX,
        ensures
            files_polled(*old(self), now, *final(self), batch),
    {
        let due = match self.reload.due {
            Some(due) => due <= now,
            None => false,
        };
        if !due {
            return None;
        }
        let probes = self.visible_files();
        if probes.len() == 0 {
            self.reload.due = Some(now + INTERVAL);
            return None;
        }
        self.reload.due = None;
        self.reload.request = self.reload.request + 1;
        Some(Batch { request: self.reload.request, probes })
    }

    /// Whether what a look found still concerns the document: it is on the
    /// screen with the same text and the same file, and was not `saved` since.
    pub fn accepts_file(&self, probe: Probe, saved: bool) -> (accepted: bool)
        requires
            self.screen().valid(),
        ensures
            accepted == (self.screen().polls(probe) && !saved),
    {
        let probes = self.visible_files();
        listed(&probes, probe) && !saved
    }

    /// Whether the result of a batch of looks is the one that is waited for;
    /// the next batch is then due after the interval.
    pub fn handle_file_poll(&mut self, request: u64, now: Time) -> (accepted: bool)
        requires
            now + INTERVAL <= u64::MAX,
        ensures
            poll_ended(*old(self), request, now, *final(self), accepted),
    {
        if request != self.reload.request || self.reload.cancelled {
            return false;
        }
        self.reload.due = Some(now + INTERVAL);
        true
    }

    /// Shows what became of a look at a file. `redraw` says whether an earlier
    /// look of the batch showed something; returns whether one has by now.
    pub fn report_file(&mut self, redraw: bool, report: Report) -> (shown: bool)
        ensures
            (*final(self), shown) == reported(*old(self), redraw, report),
    {
        match report {
            Report::Nothing => redraw,
            Report::Reloaded(path) => {
                // Keep a conflict warning if another pane also reloaded.
                if !redraw || !self.error {
                    self.clear_message();
                    self.message = Message::Reloaded { path };
                }
                true
            },
            Report::Warned(message) => {
                self.message = message;
                self.error = true;
                true
            },
            Report::Failed(error) => {
                self.fail(error);
                true
            },
        }
    }

    /// Whether the file of the active document may be read again.
    pub fn reload_current_file(&self, force: bool) -> (result: Result<(), Error>)
        ensures
            reload_allowed(*self, force, result),
    {
        if self.editor.file.is_none() {
            return Err(Error::NothingToReload);
        }
        if self.is_dirty() && !force {
            return Err(Error::UnsavedReload);
        }
        Ok(())
    }
}

impl App {
    /// Lets everything that shows a document keep up with its file, which was
    /// read again. `listed` says whether the jump picker lists the document, and
    /// `room` whether the screen leaves room for a preview.
    pub fn after_reload(
        &mut self,
        document: DocumentId,
        listed: bool,
        room: bool,
        now: Time,
        out: &mut Vec<Effect>,
    )
        requires
            old(self).picker.active is Some ==> old(self).picker.active->0.revision < u64::MAX
                && old(self).picker.active->0.preview_request < u64::MAX,
            old(self).picker.captures < u64::MAX,
            now + QUERY_DELAY <= u64::MAX,
        ensures
            reload_followed(
                *old(self),
                document,
                listed,
                room,
                now,
                *final(self),
                old(out)@,
                final(out)@,
            ),
    {
        self.refresh_picker_buffer(document, listed, room, now, out);
        let ghost shown = *self;
        let ghost asked = out@;
        assert(buffer_refreshed(*old(self), document, listed, room, now, shown));
        if document == self.editor.document {
            self.dismiss_language_help(out);
            self.invalidate_completion(out);
            assert(out@ =~= asked + shown.language.cancel_effects());
            out.push(Effect::CancelKeys);
            self.open_search_prompt(out);
        }
        let ghost settled = *self;
        let ghost sofar = out@;
        assert(reload_settled(shown, document, settled, asked, sofar));
        self.refresh_git(now, out);
    }
}

/// Whether the active view is as it should be once its document was read again:
/// nothing that was asked of the older text is left.
pub open spec fn reload_settled(
    before: App,
    document: DocumentId,
    after: App,
    asked: Seq<Effect>,
    asks: Seq<Effect>,
) -> bool {
    if document == before.editor.document {
        search_prompt_opened(
            before.dismissed(),
            after,
            (asked + before.language.cancel_effects()).push(Effect::CancelKeys),
            asks,
        )
    } else {
        after == before && asks == asked
    }
}

/// Whether everything kept up with a document that was read again.
pub open spec fn reload_followed(
    before: App,
    document: DocumentId,
    listed: bool,
    room: bool,
    now: Time,
    after: App,
    asked: Seq<Effect>,
    asks: Seq<Effect>,
) -> bool {
    exists|shown: App, settled: App, sofar: Seq<Effect>|
        #![trigger buffer_refreshed(before, document, listed, room, now, shown), reload_settled(
            shown,
            document,
            settled,
            asked + before.picker_refresh_effects(document, listed, room),
            sofar,
        )]
        {
            &&& buffer_refreshed(before, document, listed, room, now, shown)
            &&& reload_settled(
                shown,
                document,
                settled,
                asked + before.picker_refresh_effects(document, listed, room),
                sofar,
            )
            &&& after == settled.git_refreshed(now)
            &&& asks == sofar + settled.git_refresh_effects()
        }
}

/// Whether a look is among others.
fn listed(probes: &Vec<Probe>, probe: Probe) -> (found: bool)
    ensures
        found == probes@.contains(probe),
{
    let mut i: usize = 0;
    while i < probes.len()
        invariant
            i <= probes.len(),
            forall|j: int| 0 <= j < i ==> #[trigger] probes@[j] != probe,
        decreases probes.len() - i,
    {
        if probes[i] == probe {
            assert(probes@[i as int] == probe);
            return true;
        }
        i += 1;
    }
    false
}

/// The looks at what some windows show: those of the windows and no others.
proof fn lemma_probes(screen: Screen, windows: Seq<(WindowId, Rect)>, probe: Probe)
    ensures
        screen.probes(windows).contains(probe) <==> exists|i: int|
            0 <= i < windows.len() && screen.probe((#[trigger] windows[i]).0) == Some(probe),
        forall|i: int, j: int|
            0 <= i < j < screen.probes(windows).len() ==> #[trigger] screen.probes(windows)[i]
                != #[trigger] screen.probes(windows)[j],
    decreases windows.len(),
{
    if windows.len() > 0 {
        let before = windows.drop_last();
        let rest = screen.probes(before);
        let all = screen.probes(windows);
        lemma_probes(screen, before, probe);
        let last = screen.probe(windows.last().0);
        let shown = exists|i: int|
            0 <= i < windows.len() && screen.probe((#[trigger] windows[i]).0) == Some(probe);
        if last == Some(probe) {
            assert(screen.probe(windows[windows.len() - 1].0) == Some(probe));
            if !rest.contains(probe) {
                assert(all[all.len() - 1] == probe);
            }
        } else {
            if rest.contains(probe) {
                let i = choose|i: int|
                    0 <= i < before.len() && screen.probe((#[trigger] before[i]).0) == Some(probe);
                assert(screen.probe(windows[i].0) == Some(probe));
                let k = choose|k: int| 0 <= k < rest.len() && rest[k] == probe;
                assert(all[k] == probe);
            }
            if shown {
                let i = choose|i: int|
                    0 <= i < windows.len() && screen.probe((#[trigger] windows[i]).0) == Some(
                        probe,
                    );
                assert(screen.probe(before[i].0) == Some(probe));
            }
            if all.contains(probe) {
                let k = choose|k: int| 0 <= k < all.len() && all[k] == probe;
                assert(rest[k] == probe);
            }
        }
        assert forall|i: int, j: int| 0 <= i < j < all.len() implies #[trigger] all[i]
            != #[trigger] all[j] by {
            if j == rest.len() {
                assert(rest[i] == all[i]);
            }
        }
    }
}

/// The file of each document that is on the screen is looked at, once however
/// many windows show it, and no other file is.
pub proof fn law_each_visible_file_is_polled_once(screen: Screen)
    requires
        screen.valid(),
    ensures
        ({
            let probes = screen.probes(screen.visible());
            &&& forall|probe: Probe| #[trigger] probes.contains(probe) <==> screen.polls(probe)
            &&& forall|i: int, j: int|
                0 <= i < j < probes.len() ==> (#[trigger] probes[i]).document
                    != (#[trigger] probes[j]).document
        }),
{
    let probes = screen.probes(screen.visible());
    assert forall|probe: Probe| #[trigger] probes.contains(probe) <==> screen.polls(probe) by {
        lemma_probes(screen, screen.visible(), probe);
    }
    assert forall|i: int, j: int| 0 <= i < j < probes.len() implies (#[trigger] probes[i]).document
        != (#[trigger] probes[j]).document by {
        lemma_probes(screen, screen.visible(), probes[i]);
        assert(probes.contains(probes[i]));
        assert(probes.contains(probes[j]));
        assert(screen.polls(probes[i]));
        assert(screen.polls(probes[j]));
    }
}

/// A look counts for nothing once its document has another text or another
/// file.
pub proof fn law_a_late_look_is_dropped(screen: Screen, probe: Probe)
    requires
        screen.valid(),
        screen.editor_of(probe.document).revision != probe.revision || screen.editor_of(
            probe.document,
        ).file != Some(probe.file),
    ensures
        !screen.polls(probe),
{
}

/// Unsaved edits are never replaced by what is on disk.
pub proof fn law_unsaved_edits_are_kept(outcome: Outcome, path: String)
    ensures
        !(observed(outcome, true, path) is Apply),
{
}

/// Whether a batch of looks at files was handed out as it should be.
pub open spec fn files_polled(before: App, time: Time, now: App, batch: Option<Batch>) -> bool {
    let due = before.reload.due matches Some(due) && due <= time;
    let probes = before.screen().probes(before.screen().visible());
    let number = (before.reload.request + 1) as u64;
    if !due {
        batch is None && now == before
    } else if probes.len() == 0 {
        &&& batch is None
        &&& now == (App {
            reload: State { due: Some((time + INTERVAL) as u64), ..before.reload },
            ..before
        })
    } else {
        &&& batch is Some
        &&& batch->0.request == number
        &&& batch->0.probes@ == probes
        &&& now == (App {
            reload: State { due: None, request: number, ..before.reload },
            ..before
        })
    }
}

/// Whether reading the file again was allowed or refused as it should be.
pub open spec fn reload_allowed(before: App, force: bool, result: Result<(), Error>) -> bool {
    match result {
        Ok(()) => before.editor.file is Some && (force || !before.editor.dirty),
        Err(error) => if before.editor.file is None {
            error == Error::NothingToReload
        } else {
            error == Error::UnsavedReload && before.editor.dirty && !force
        },
    }
}

/// Whether the result of a batch of looks was taken as it should be.
pub open spec fn poll_ended(
    before: App,
    request: u64,
    time: Time,
    now: App,
    accepted: bool,
) -> bool {
    &&& accepted == (request == before.reload.request && !before.reload.cancelled)
    &&& now == if accepted {
        App {
            reload: State { due: Some((time + INTERVAL) as u64), ..before.reload },
            ..before
        }
    } else {
        before
    }
}

} // verus!
