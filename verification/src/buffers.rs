//! Open documents: finding them, showing them, coming back to them.

use crate::app::App;
use crate::editor::{FileId, Mode, Snapshot};
use crate::effect::Effect;
use crate::error::Error;
use crate::jumps::{
    find_trail, has_trail, lemma_has_trail, trail_of, trails_valid, with_trail, History, Jump, Spot,
    Trail, Trails,
};
use crate::language::same_id;
use crate::layout::{Layout, Rect, WindowId};
use crate::selection::{DocumentId, Selections};
use crate::travel::find_file;
use crate::windows::{has_pane, lemma_focused_pane, Prepared, Screen, State};
use vstd::prelude::*;

verus! {

/// A request to go back or forth among the checkpoints, on its way.
pub struct JumpPlan {
    /// The history to keep once the checkpoint was reached.
    pub history: History,
    pub jump: Jump,
    /// Whether to be in select mode there.
    pub select: bool,
}

impl Screen {
    /// The screen whose active pane has this history, with the command line
    /// clear.
    pub open spec fn jumped(self, trail: Trail) -> Screen {
        Screen {
            app: self.app.cleared(),
            trails: with_trail(self.trails, self.app.window(), trail),
            ..self
        }
    }

    /// The screen as if its active pane had this history.
    pub open spec fn heading(self, trail: Trail) -> Screen {
        Screen { trails: with_trail(self.trails, self.app.window(), trail), ..self }
    }

    /// The screen on which the active window shows the document of a checkpoint.
    /// What is left stays open where the history to come leads back to it; that
    /// history is not in place yet.
    pub open spec fn reached(self, trail: Trail, document: DocumentId) -> Screen {
        Screen {
            trails: self.trails,
            ..self.heading(trail).replaced(Prepared::Existing(document))
        }
    }

    /// The screen with a spot recorded in the history of the active pane.
    pub open spec fn recorded(self, spot: Spot) -> Screen {
        Screen {
            trails: with_trail(
                self.trails,
                self.app.window(),
                trail_of(self.trails, self.app.window()).pushed(spot),
            ),
            ..self
        }
    }
}

/// Recording a spot keeps the windows in order.
pub proof fn lemma_recorded(screen: Screen, spot: Spot)
    requires
        screen.valid(),
    ensures
        screen.recorded(spot).valid(),
{
    let id = screen.app.window();
    let after = screen.recorded(spot);
    lemma_focused_pane(screen);
    assert(has_trail(screen.trails, id));
    lemma_has_trail(screen.trails, id);
    assert(screen.trails[find_trail(screen.trails, id)].1.valid());
    lemma_with_trail(screen.trails, id, trail_of(screen.trails, id).pushed(spot));
    assert forall|any: WindowId| #[trigger] has_pane(after.panes, any) implies has_trail(
        after.trails,
        any,
    ) by {
        assert(has_pane(screen.panes, any));
        assert(has_trail(screen.trails, any));
    }
}

/// Which of some documents are open, in order.
pub open spec fn open_ones(screen: Screen, documents: Seq<DocumentId>) -> Seq<bool> {
    documents.map_values(|document: DocumentId| screen.is_open(document))
}

/// The open documents, the active one first.
pub open spec fn open_documents(screen: Screen) -> Seq<DocumentId> {
    seq![screen.app.editor.document] + screen.buffers.map_values(
        |buffer: crate::windows::Buffer| buffer.editor.document,
    )
}

/// Whether a list of documents differs from another in length or holds one
/// that the other does not.
pub open spec fn documents_changed(now: Seq<DocumentId>, before: Seq<DocumentId>) -> bool {
    now.len() != before.len() || exists|i: int| 0 <= i < now.len() && !before.contains(#[trigger] now[i])
}

fn lists(documents: &Vec<DocumentId>, document: DocumentId) -> (found: bool)
    ensures
        found == documents@.contains(document),
{
    let mut i: usize = 0;
    while i < documents.len()
        invariant
            i <= documents.len(),
            forall|j: int| 0 <= j < i ==> documents@[j] != document,
        decreases documents.len() - i,
    {
        if documents[i] == document {
            return true;
        }
        i += 1;
    }
    false
}

fn differ(now: &Vec<DocumentId>, before: &Vec<DocumentId>) -> (changed: bool)
    ensures
        changed == documents_changed(now@, before@),
{
    if now.len() != before.len() {
        return true;
    }
    let mut i: usize = 0;
    while i < now.len()
        invariant
            i <= now.len(),
            forall|j: int| 0 <= j < i ==> before@.contains(#[trigger] now@[j]),
        decreases now.len() - i,
    {
        if !lists(before, now[i]) {
            return true;
        }
        i += 1;
    }
    false
}

impl App {
    /// The document to show for a file that is open already. Its identity is
    /// resolved before loading, so that an open document keeps unsaved text,
    /// savepoints, and undo history even when opened through another name.
    pub fn prepare_file(&self, file: FileId) -> (document: Option<DocumentId>)
        ensures
            document == self.screen().document_of(Some(file)),
            document is Some ==> self.screen().accepts(Prepared::Existing(document->0)),
    {
        self.document_with_file(Some(file))
    }

    /// The text of an open file as it is now.
    pub fn snapshot_for_path(&self, file: FileId) -> (snapshot: Option<Snapshot>)
        ensures
            match snapshot {
                Some(snapshot) => {
                    let screen = self.screen();
                    if screen.app.editor.file == Some(file) {
                        snapshot == (Snapshot {
                            document: screen.app.editor.document,
                            revision: screen.app.editor.revision,
                        })
                    } else {
                        let at = find_file(screen.buffers, Some(file));
                        &&& 0 <= at < screen.buffers.len()
                        &&& snapshot == (Snapshot {
                            document: screen.buffers[at].editor.document,
                            revision: screen.buffers[at].editor.revision,
                        })
                    }
                },
                None => self.screen().document_of(Some(file)) is None,
            },
    {
        if same_id(self.editor.file, Some(file)) {
            return Some(
                Snapshot { document: self.editor.document, revision: self.editor.revision },
            );
        }
        let i = self.file_index(Some(file));
        if i < self.windows.buffers.len() {
            Some(
                Snapshot {
                    document: self.windows.buffers[i].editor.document,
                    revision: self.windows.buffers[i].editor.revision,
                },
            )
        } else {
            None
        }
    }

    /// Shows a file in the active window.
    pub fn open_window_file(&mut self, prepared: Prepared, out: &mut Vec<Effect>) -> (result:
        Result<(), Error>)
        requires
            old(self).screen().valid(),
            old(self).screen().accepts(prepared),
            old(self).windows.next_view < u64::MAX,
        ensures
            result is Ok,
            final(self).is(old(self).screen().replaced(prepared)),
            final(out)@ == old(out)@ + old(self).screen().replace_effects(prepared),
            final(self).screen().valid(),
    {
        self.replace_window_buffer(prepared, out)
    }

    /// Shows the document of a definition in the active window, and returns
    /// where in it the definition is. `offset` is that place, where the
    /// document has it. The place before is recorded where the document is
    /// another one, so that the way back stays open.
    pub fn open_window_definition(
        &mut self,
        prepared: Prepared,
        offset: Option<usize>,
        out: &mut Vec<Effect>,
    ) -> (result: Result<usize, Error>)
        requires
            old(self).screen().valid(),
            old(self).screen().accepts(prepared),
            old(self).windows.next_view < u64::MAX,
        ensures
            definition_shown(
                *old(self),
                prepared,
                offset,
                *final(self),
                old(out)@,
                final(out)@,
                result,
            ),
            final(self).screen().valid(),
    {
        let offset = match offset {
            Some(offset) => offset,
            None => {
                return Err(Error::InvalidDefinitionPosition);
            },
        };
        proof {
            reveal(Screen::replace_effects);
            reveal(Screen::replaced);
        }
        match self.open_window_from_picker(prepared, out) {
            Ok(()) => Ok(offset),
            Err(error) => Err(error),
        }
    }

    /// Shows a picked file in the active window, and records the place before.
    /// What is not saved there stays open.
    pub fn open_window_from_picker(
        &mut self,
        prepared: Prepared,
        out: &mut Vec<Effect>,
    ) -> (result: Result<(), Error>)
        requires
            old(self).screen().valid(),
            old(self).screen().accepts(prepared),
            old(self).windows.next_view < u64::MAX,
        ensures
            picked_file_shown(*old(self), prepared, *final(self), old(out)@, final(out)@, result),
            final(self).screen().valid(),
    {
        let ghost before = self.screen();
        let shown = match &prepared {
            Prepared::Existing(id) => *id == self.editor.document,
            Prepared::New(_) => false,
        };
        proof {
            reveal(Screen::replace_effects);
            reveal(Screen::replaced);
            lemma_focused_pane(before);
        }
        if !shown {
            self.record_jump();
        }
        let ghost recorded = self.screen();
        let result = self.replace_window_buffer(prepared, out);
        assert(old(out)@ + Seq::<Effect>::empty() =~= old(out)@);
        result
    }

    /// Records a spot in the history of the active pane.
    pub fn push_jump(&mut self, jump: Jump)
        requires
            old(self).screen().valid(),
        ensures
            final(self).is(old(self).screen().recorded(jump@)),
            *final(self) == (App { jumps: final(self).jumps, ..*old(self) }),
            final(self).screen().valid(),
    {
        let ghost before = self.screen();
        let id = self.windows.layout.active;
        proof {
            lemma_focused_pane(before);
            assert(has_trail(before.trails, id));
        }
        self.jumps.push(id, jump);
        proof {
            lemma_recorded(before, jump@);
        }
    }

    /// Records the live place.
    pub fn record_jump(&mut self)
        requires
            old(self).screen().valid(),
        ensures
            final(self).is(old(self).screen().recorded(old(self).screen().spot())),
            *final(self) == (App { jumps: final(self).jumps, ..*old(self) }),
            final(self).screen().valid(),
    {
        let jump = self.current_jump();
        self.push_jump(jump);
    }

    /// Where a request to go back or forth leads. Nothing changes yet: a
    /// request that fails on the way keeps its return path.
    pub fn navigate_jump(&self, forward: bool, count: usize) -> (plan: Option<JumpPlan>)
        requires
            self.screen().valid(),
        ensures
            jump_planned(*self, forward, count, plan),
    {
        let id = self.windows.layout.active;
        proof {
            lemma_focused_pane(self.screen());
            assert(has_trail(self.screen().trails, id));
        }
        match self.jumps.destination(
            id,
            forward,
            self.editor.document,
            &self.editor.selections,
            count,
        ) {
            Some((history, jump)) => Some(
                JumpPlan { history, jump, select: self.editor.mode == Mode::Select },
            ),
            None => None,
        }
    }

    /// The selections to restore at a checkpoint whose document has `length`
    /// characters now.
    pub fn jump_selections(plan: &JumpPlan, length: usize) -> (selections: Selections)
        ensures
            selections@ == if plan.jump.selections@.inside(length) {
                plan.jump.selections@
            } else {
                plan.jump.selections@.clamped(length)
            },
            selections@.inside(length),
    {
        plan.jump.selections.clamp(length)
    }

    /// Ends a request to go back or forth: the history moves only when the
    /// checkpoint was reached.
    pub fn finish_jump(&mut self, plan: JumpPlan, outcome: Result<(), Error>) -> (result: Result<
        (),
        Error,
    >)
        requires
            old(self).screen().valid(),
            plan.history@.valid(),
        ensures
            jump_finished(*old(self), plan, outcome, *final(self), result),
            final(self).screen().valid(),
    {
        match outcome {
            Ok(()) => {},
            Err(error) => {
                return Err(error);
            },
        }
        let ghost before = self.screen();
        let id = self.windows.layout.active;
        proof {
            lemma_focused_pane(before);
            assert(has_trail(before.trails, id));
            lemma_with_trail(before.trails, id, plan.history@);
        }
        self.jumps.replace(id, plan.history);
        self.clear_message();
        proof {
            assert forall|any: WindowId| #[trigger] has_pane(self.screen().panes, any) implies has_trail(
                self.screen().trails,
                any,
            ) by {
                assert(has_pane(before.panes, any));
                assert(has_trail(before.trails, any));
            }
        }
        Ok(())
    }

    /// Shows the document of a checkpoint in the active window, where it is still
    /// open. What is left for it stays open where the history of the plan leads
    /// back to it. The history itself does not move yet: `finish_jump` ends the
    /// matter, once the selections are restored.
    pub fn reach_jump(&mut self, plan: &JumpPlan, out: &mut Vec<Effect>) -> (result: Result<
        (),
        Error,
    >)
        requires
            old(self).screen().valid(),
            plan.history@.valid(),
            old(self).windows.next_view < u64::MAX,
        ensures
            jump_reached(*old(self), *plan, *final(self), old(out)@, final(out)@, result),
            final(self).screen().valid(),
    {
        let document = plan.jump.document;
        if !self.document_open(document) {
            return Err(Error::JumpBufferClosed);
        }
        let ghost before = self.screen();
        let id = self.windows.layout.active;
        proof {
            lemma_focused_pane(before);
            assert(has_trail(before.trails, id));
            lemma_heading(before, plan.history@);
        }
        let own = self.jumps.exchange(id, plan.history.duplicate());
        let ghost heading = self.screen();
        assert(heading == before.heading(plan.history@));
        let result = self.replace_window_buffer(Prepared::Existing(document), out);
        let ghost shown = self.screen();
        proof {
            reveal(Screen::replaced);
            assert(shown.trails == heading.trails);
            assert(has_trail(shown.trails, id));
            lemma_focused_pane(shown);
        }
        let _ = self.jumps.exchange(id, own);
        proof {
            lemma_with_trail_twice(before.trails, id, plan.history@);
            assert(self.screen() == before.reached(plan.history@, document));
            assert forall|any: WindowId| #[trigger]
                has_pane(self.screen().panes, any) implies has_trail(self.screen().trails, any) by {
                assert(has_pane(shown.panes, any));
                assert(has_trail(shown.trails, any));
                let i = choose|i: int|
                    0 <= i < shown.trails.len() && (#[trigger] shown.trails[i]).0 == any;
                lemma_has_trail(before.trails, id);
                assert(before.trails[i].0 == any);
            }
        }
        result
    }

    /// Where a document with this file is among the buffers.
    fn file_index(&self, file: Option<FileId>) -> (index: usize)
        ensures
            index == find_file(self.windows.buffers@, file),
            index <= self.windows.buffers@.len(),
    {
        let mut i: usize = 0;
        while i < self.windows.buffers.len() && !same_id(self.windows.buffers[i].editor.file, file)
            invariant
                i <= self.windows.buffers.len(),
                forall|j: int|
                    0 <= j < i ==> (#[trigger] self.windows.buffers@[j]).editor.file != file,
            decreases self.windows.buffers.len() - i,
        {
            i += 1;
        }
        proof {
            crate::find::lemma_is_first(
                self.windows.buffers@,
                |buffer: crate::windows::Buffer| buffer.editor.file == file,
                i as int,
            );
        }
        i
    }

    /// Refuses to save under the name of another open document. `target` is
    /// the file to be written, where it is not the document's own.
    pub fn check_save_target(&self, target: Option<FileId>) -> (result: Result<(), Error>)
        ensures
            save_checked(*self, target, result),
    {
        if target.is_some() && self.file_index(target) < self.windows.buffers.len() {
            return Err(Error::AlreadyOpen);
        }
        Ok(())
    }

    /// The size of the active window, its status line included.
    pub fn active_size(&self) -> (size: (u16, u16))
        requires
            self.screen().valid(),
        ensures
            crate::layout::pane_of(
                self.windows.layout.shown(self.area()),
                self.window(),
            ) is Some,
            size == ({
                let rect = crate::layout::pane_of(
                    self.windows.layout.shown(self.area()),
                    self.window(),
                )->0;
                (rect.width, rect.height)
            }),
    {
        let area = self.window_area();
        let (panes, _) = self.windows.layout.visible(area);
        let active = self.windows.layout.active;
        let ghost all = panes@;
        let mut i: usize = 0;
        proof {
            lemma_active_shown(self.windows.layout, area);
        }
        assert(all.skip(0) =~= all);
        while i < panes.len() && panes[i].0 != active
            invariant
                i <= panes.len(),
                all == panes@,
                crate::layout::pane_of(all, active) is Some,
                crate::layout::pane_of(all, active) == crate::layout::pane_of(
                    all.skip(i as int),
                    active,
                ),
            decreases panes.len() - i,
        {
            assert(all.skip(i as int).drop_first() =~= all.skip(i + 1));
            i += 1;
        }
        assert(i < panes.len());
        panes[i].1.size()
    }

    /// Decides whether highlighting has work: a document was edited (`due`), or
    /// the open documents are not those of the last batch. Replacing a batch
    /// also replaces any work still pending for its other documents, so the
    /// new batch holds every one of them.
    pub fn take_syntax_batch(&mut self, due: bool) -> (batch: Option<Vec<DocumentId>>)
        ensures
            syntax_batch_taken(*old(self), due, *final(self), batch),
    {
        let documents = self.documents();
        if !due && !differ(&documents, &self.windows.syntax_documents) {
            return None;
        }
        self.windows.syntax_documents = self.documents();
        Some(documents)
    }

    /// The open documents, the active one first.
    pub fn documents(&self) -> (documents: Vec<DocumentId>)
        ensures
            documents@ == open_documents(self.screen()),
    {
        let mut documents: Vec<DocumentId> = Vec::new();
        documents.push(self.editor.document);
        let mut i: usize = 0;
        while i < self.windows.buffers.len()
            invariant
                i <= self.windows.buffers.len(),
                documents.len() == i + 1,
                documents@[0] == self.editor.document,
                forall|j: int|
                    0 <= j < i ==> documents@[j + 1]
                        == (#[trigger] self.windows.buffers@[j]).editor.document,
            decreases self.windows.buffers.len() - i,
        {
            documents.push(self.windows.buffers[i].editor.document);
            i += 1;
        }
        proof {
            let want = open_documents(self.screen());
            assert forall|j: int| 0 <= j < documents@.len() implies documents@[j] == want[j] by {
                if j > 0 {
                    assert(documents@[j] == self.windows.buffers@[j - 1].editor.document);
                }
            }
            assert(documents@ =~= want);
        }
        documents
    }

    /// Which of some highlighted documents are still open.
    pub fn handle_syntax_results(&self, documents: &Vec<DocumentId>) -> (wanted: Vec<bool>)
        ensures
            wanted@ == open_ones(self.screen(), documents@),
    {
        let mut wanted: Vec<bool> = Vec::new();
        let mut i: usize = 0;
        while i < documents.len()
            invariant
                i <= documents.len(),
                wanted.len() == i,
                forall|j: int|
                    0 <= j < i ==> wanted@[j] == self.screen().is_open(#[trigger] documents@[j]),
            decreases documents.len() - i,
        {
            let open = self.document_open(documents[i]);
            wanted.push(open);
            i += 1;
        }
        assert(wanted@ =~= open_ones(self.screen(), documents@));
        wanted
    }

    /// Whether a document is open.
    pub fn document_open(&self, document: DocumentId) -> (open: bool)
        ensures
            open == self.screen().is_open(document),
    {
        if document == self.editor.document {
            return true;
        }
        let mut i: usize = 0;
        while i < self.windows.buffers.len()
            invariant
                i <= self.windows.buffers.len(),
                forall|j: int|
                    0 <= j < i ==> (#[trigger] self.windows.buffers@[j]).editor.document
                        != document,
            decreases self.windows.buffers.len() - i,
        {
            if self.windows.buffers[i].editor.document == document {
                assert(self.screen().buffers[i as int].editor.document == document);
                return true;
            }
            i += 1;
        }
        false
    }
}

/// Another history of the active pane keeps the windows in order.
pub proof fn lemma_heading(screen: Screen, trail: Trail)
    requires
        screen.valid(),
        trail.valid(),
    ensures
        screen.heading(trail).valid(),
{
    let id = screen.app.window();
    let after = screen.heading(trail);
    lemma_focused_pane(screen);
    assert(has_trail(screen.trails, id));
    lemma_with_trail(screen.trails, id, trail);
    assert forall|any: WindowId| #[trigger] has_pane(after.panes, any) implies has_trail(
        after.trails,
        any,
    ) by {
        assert(has_pane(screen.panes, any));
        assert(has_trail(screen.trails, any));
    }
}

/// A history that is put back leaves the histories as they were.
proof fn lemma_with_trail_twice(trails: Trails, id: WindowId, trail: Trail)
    requires
        has_trail(trails, id),
    ensures
        with_trail(with_trail(trails, id, trail), id, trail_of(trails, id)) == trails,
{
    lemma_has_trail(trails, id);
    let at = find_trail(trails, id);
    let between = with_trail(trails, id, trail);
    let test = crate::jumps::belongs_to(id);
    crate::find::lemma_first_where(trails, test);
    assert forall|i: int| 0 <= i < at implies !test(#[trigger] between[i]) by {
        assert(between[i] == trails[i]);
    }
    assert(test(between[at]));
    crate::find::lemma_is_first(between, test, at);
    assert(trails[at] == (id, trail_of(trails, id)));
    assert(with_trail(between, id, trail_of(trails, id)) =~= trails);
}

/// Changing one history keeps every pane's.
proof fn lemma_with_trail(trails: Trails, id: WindowId, trail: Trail)
    requires
        has_trail(trails, id),
        trails_valid(trails),
        trail.valid(),
    ensures
        trails_valid(with_trail(trails, id, trail)),
        forall|any: WindowId|
            has_trail(trails, any) ==> #[trigger] has_trail(with_trail(trails, id, trail), any),
{
    lemma_has_trail(trails, id);
    let after = with_trail(trails, id, trail);
    assert forall|any: WindowId| has_trail(trails, any) implies #[trigger] has_trail(after, any) by {
        let i = choose|i: int| 0 <= i < trails.len() && (#[trigger] trails[i]).0 == any;
        assert(after[i].0 == any);
    }
}

/// The active window is always on the screen.
proof fn lemma_active_shown(layout: Layout, area: (u16, u16))
    requires
        layout.focused(),
    ensures
        crate::layout::pane_of(layout.shown(area), layout.active) is Some,
{
    let panes = layout.shown(area);
    layout.root.lemma_panes(Rect::of_size(area));
    let at = if crate::layout::all_roomy(layout.root.panes(Rect::of_size(area))) {
        let i = choose|i: int|
            0 <= i < layout.root.leaves().len() && layout.root.leaves()[i] == layout.active;
        assert(panes[i].0 == layout.active);
        i
    } else {
        0
    };
    lemma_pane_found(panes, layout.active, at);
}

proof fn lemma_pane_found(panes: Seq<(WindowId, Rect)>, id: WindowId, at: int)
    requires
        0 <= at < panes.len(),
        panes[at].0 == id,
    ensures
        crate::layout::pane_of(panes, id) is Some,
    decreases panes.len(),
{
    if panes[0].0 != id {
        lemma_pane_found(panes.drop_first(), id, at - 1);
    }
}

/// Whether a plan says where a request to go back or forth leads.
pub open spec fn jump_planned(
    before: App,
    forward: bool,
    count: usize,
    plan: Option<JumpPlan>,
) -> bool {
    let trail = trail_of(before.jumps@, before.window());
    let live = before.screen().spot();
    let target = if forward {
        trail.ahead(count as nat)
    } else {
        trail.back(live, count as nat)
    };
    match (plan, target) {
        (Some(plan), Some(target)) => {
            &&& plan.history@ == if forward {
                trail.after_ahead(count as nat)
            } else {
                trail.after_back(live, count as nat)
            }
            &&& plan.history@.valid()
            &&& plan.jump@ == plan.history@.entries[target]
            &&& plan.select == (before.editor.mode == Mode::Select)
        },
        (None, None) => true,
        _ => false,
    }
}

/// Whether a request to go back or forth was ended as it should be.
pub open spec fn jump_finished(
    before: App,
    plan: JumpPlan,
    outcome: Result<(), Error>,
    now: App,
    result: Result<(), Error>,
) -> bool {
    match outcome {
        Ok(()) => {
            &&& result is Ok
            &&& now.is(before.screen().jumped(plan.history@))
        },
        Err(error) => {
            &&& result == Err::<(), Error>(error)
            &&& now == before
        },
    }
}

/// Whether the document of a checkpoint is shown, where it is still open.
pub open spec fn jump_reached(
    before: App,
    plan: JumpPlan,
    now: App,
    asked: Seq<Effect>,
    asks: Seq<Effect>,
    result: Result<(), Error>,
) -> bool {
    let screen = before.screen();
    let document = plan.jump.document;
    if screen.is_open(document) {
        &&& result is Ok
        &&& now.is(screen.reached(plan.history@, document))
        &&& asks == asked + screen.heading(
            plan.history@,
        ).replace_effects(Prepared::Existing(document))
    } else {
        &&& result == Err::<(), Error>(Error::JumpBufferClosed)
        &&& now == before
        &&& asks == asked
    }
}

/// Whether the document of a definition is shown, where it has its place.
pub open spec fn definition_shown(
    before: App,
    prepared: Prepared,
    offset: Option<usize>,
    now: App,
    asked: Seq<Effect>,
    asks: Seq<Effect>,
    result: Result<usize, Error>,
) -> bool {
    let screen = before.screen();
    match offset {
        None => {
            &&& result == Err::<usize, Error>(Error::InvalidDefinitionPosition)
            &&& now == before
            &&& asks == asked
        },
        Some(offset) => {
            let recorded = if screen.shows(prepared) {
                screen
            } else {
                screen.recorded(screen.spot())
            };
            &&& result == Ok::<usize, Error>(offset)
            &&& now.is(recorded.replaced(prepared))
            &&& asks == asked + recorded.replace_effects(prepared)
        },
    }
}

/// Whether a picked file is shown, and the place before recorded.
pub open spec fn picked_file_shown(
    before: App,
    prepared: Prepared,
    now: App,
    asked: Seq<Effect>,
    asks: Seq<Effect>,
    result: Result<(), Error>,
) -> bool {
    let screen = before.screen();
    if screen.shows(prepared) {
        &&& result is Ok
        &&& now.is(screen)
        &&& asks == asked
    } else {
        let recorded = screen.recorded(screen.spot());
        &&& result is Ok
        &&& now.is(recorded.replaced(prepared))
        &&& asks == asked + recorded.replace_effects(prepared)
    }
}

/// Whether saving was allowed or refused as it should be.
pub open spec fn save_checked(
    before: App,
    target: Option<FileId>,
    result: Result<(), Error>,
) -> bool {
    match result {
        Ok(()) => target is None || find_file(before.windows.buffers@, target)
            == before.windows.buffers@.len(),
        Err(error) => error == Error::AlreadyOpen && target is Some && find_file(
            before.windows.buffers@,
            target,
        ) < before.windows.buffers@.len(),
    }
}

/// Whether documents were handed out to be highlighted as they should be.
pub open spec fn syntax_batch_taken(
    before: App,
    due: bool,
    now: App,
    batch: Option<Vec<DocumentId>>,
) -> bool {
    let documents = open_documents(before.screen());
    if due || documents_changed(documents, before.windows.syntax_documents@) {
        &&& batch matches Some(batch) && batch@ == documents
        &&& now.windows.syntax_documents@ == documents
        &&& now == (App {
            windows: State {
                syntax_documents: now.windows.syntax_documents,
                ..before.windows
            },
            ..before
        })
    } else {
        batch is None && now == before
    }
}

} // verus!
