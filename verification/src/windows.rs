//! Window ownership and buffer sharing. Closing the last view of a document
//! must pass the same save protection as quitting. A document that its window
//! leaves for another stays open where it has unsaved changes, where a
//! checkpoint leads back to it, and where it is a commit message.

use crate::app::{App, Viewport};
use crate::editor::Editor;
use crate::effect::Effect;
use crate::error::Error;
use crate::find::{count_where, first_where, lemma_count_where, lemma_first_where, lemma_is_first};
use crate::git_write::{is_draft, Draft};
use crate::jumps::{
    find_trail, has_trail, lemma_has_trail, lemma_trails_without, mentions, trail_of, trails_valid,
    trails_without, without_trail, Jump, Spot, Trail, Trails,
};
use crate::layout::{
    all_roomy, law_remove_drops_only_that_window, law_split_adds_one_window, Axis, Layout, Node,
    Rect, WindowId, MAX_WINDOWS,
};
use crate::selection::{DocumentId, ViewId};
use crate::shared::share;
use std::sync::Arc;
use vstd::prelude::*;

verus! {

/// The root of a repository: the bytes of its path, with a zero for each
/// separator, so that roots are ordered as their paths are, part by part.
pub type Root = Arc<Vec<u8>>;

/// What a window shows.
#[derive(Debug)]
pub struct Pane {
    pub id: WindowId,
    /// The repository shown in front of the document, which stays owned by the
    /// pane meanwhile.
    pub git: Option<Root>,
    pub document: DocumentId,
    pub view: ViewId,
    pub viewport: Viewport,
}

/// A document that is open but not active.
#[derive(Debug)]
pub struct Buffer {
    pub editor: Editor,
    pub automatic_language: bool,
}

/// A document about to be shown.
#[derive(Debug)]
pub enum Prepared {
    Existing(DocumentId),
    New(Buffer),
}

/// The windows and the documents that are not active.
#[derive(Debug)]
pub struct State {
    pub layout: Layout,
    pub panes: Vec<Pane>,
    pub buffers: Vec<Buffer>,
    pub syntax_documents: Vec<DocumentId>,
    pub next_view: ViewId,
}

impl State {
    /// One window that shows a document.
    pub fn new(document: DocumentId) -> (state: State)
        ensures
            state.layout.root == crate::layout::Node::Leaf(0),
            state.layout.active == 0,
            state.layout.next == 1,
            state.panes@ == seq![
                Pane {
                    id: 0,
                    git: None,
                    document,
                    view: 0,
                    viewport: (Viewport { top_line: 0, left_column: 0 }),
                },
            ],
            state.buffers@.len() == 0,
            state.syntax_documents@.len() == 0,
            state.next_view == 1,
            windows_valid(state.layout, state.panes@, state.buffers@, document),
    {
        let pane = Pane {
            id: 0,
            git: None,
            document,
            view: 0,
            viewport: Viewport { top_line: 0, left_column: 0 },
        };
        let mut panes = Vec::new();
        panes.push(pane);
        let layout = Layout::default();
        assert(panes@ =~= seq![pane]);
        assert(layout.root.leaves() =~= seq![0u64]);
        let buffers: Vec<Buffer> = Vec::new();
        assert(panes@[0] == pane);
        assert(has_pane(panes@, 0));
        State { layout, panes, buffers, syntax_documents: Vec::new(), next_view: 1 }
    }
}

/// Where the pane of a window is.
pub open spec fn find_pane(panes: Seq<Pane>, id: WindowId) -> int {
    first_where(panes, |pane: Pane| pane.id == id)
}

/// Whether a window has a pane.
pub open spec fn has_pane(panes: Seq<Pane>, id: WindowId) -> bool {
    exists|i: int| 0 <= i < panes.len() && (#[trigger] panes[i]).id == id
}

/// The pane of a window.
pub open spec fn pane_of(panes: Seq<Pane>, id: WindowId) -> Pane {
    panes[find_pane(panes, id)]
}

/// How many windows show a document.
pub open spec fn views(panes: Seq<Pane>, document: DocumentId) -> nat {
    count_where(panes, |pane: Pane| pane.document == document)
}

/// Where the buffer of a document is.
pub open spec fn find_buffer(buffers: Seq<Buffer>, document: DocumentId) -> int {
    first_where(buffers, |buffer: Buffer| buffer.editor.document == document)
}

/// Whether a document is open but not active.
pub open spec fn has_buffer(buffers: Seq<Buffer>, document: DocumentId) -> bool {
    exists|i: int| 0 <= i < buffers.len() && (#[trigger] buffers[i]).editor.document == document
}

/// What the windows keep: every window of the layout has one pane, and every
/// pane a document that is open. Other documents are open once.
pub open spec fn windows_valid(
    layout: Layout,
    panes: Seq<Pane>,
    buffers: Seq<Buffer>,
    active: DocumentId,
) -> bool {
    &&& layout.valid()
    &&& layout.focused()
    &&& forall|id: WindowId| #[trigger] layout.root.leaves().contains(id) <==> has_pane(panes, id)
    &&& forall|i: int, j: int|
        0 <= i < j < panes.len() ==> (#[trigger] panes[i]).id != (#[trigger] panes[j]).id
    &&& pane_of(panes, layout.active).document == active
    &&& forall|i: int|
        0 <= i < panes.len() ==> (#[trigger] panes[i]).document == active || has_buffer(
            buffers,
            panes[i].document,
        )
    &&& forall|i: int|
        0 <= i < buffers.len() ==> (#[trigger] buffers[i]).editor.document != active
    &&& forall|i: int, j: int|
        0 <= i < j < buffers.len() ==> (#[trigger] buffers[i]).editor.document
            != (#[trigger] buffers[j]).editor.document
}

/// The application with its lists of panes, buffers and jump histories.
pub struct Screen {
    pub app: App,
    pub panes: Seq<Pane>,
    pub buffers: Seq<Buffer>,
    pub trails: Trails,
}

impl Screen {
    pub open spec fn valid(self) -> bool {
        &&& windows_valid(
            self.app.windows.layout,
            self.panes,
            self.buffers,
            self.app.editor.document,
        )
        &&& trails_valid(self.trails)
        &&& forall|id: WindowId| #[trigger]
            has_pane(self.panes, id) ==> has_trail(self.trails, id)
    }

    /// The screen on which the active pane remembers what part it shows.
    pub open spec fn remembered(self) -> Screen {
        let at = find_pane(self.panes, self.app.window());
        Screen {
            panes: self.panes.update(at, Pane { viewport: self.app.viewport, ..self.panes[at] }),
            ..self
        }
    }

    /// The live place in the active document.
    pub open spec fn spot(self) -> Spot {
        Spot { document: self.app.editor.document, selections: self.app.editor.selections@ }
    }

    /// The screen on which another document is active; the one that was goes
    /// among the others.
    pub open spec fn switched(self, document: DocumentId) -> Screen {
        if document == self.app.editor.document {
            self
        } else {
            let at = find_buffer(self.buffers, document);
            let buffer = self.buffers[at];
            Screen {
                app: App {
                    editor: buffer.editor,
                    automatic_language: buffer.automatic_language,
                    ..self.app
                },
                buffers: self.buffers.remove(at).push(
                    Buffer {
                        editor: self.app.editor,
                        automatic_language: self.app.automatic_language,
                    },
                ),
                ..self
            }
        }
    }

    /// The screen with the focus on another window.
    #[verifier::opaque]
    pub open spec fn refocused(self, id: WindowId) -> Screen {
        let kept = self.remembered();
        let pane = pane_of(kept.panes, id);
        let shown = Screen { app: kept.app.dismissed(), ..kept }.switched(pane.document);
        Screen {
            app: App {
                viewport: pane.viewport,
                prompt: None,
                windows: State {
                    layout: Layout { active: id, ..shown.app.windows.layout },
                    ..shown.app.windows
                },
                ..shown.app
            },
            ..shown
        }
    }

    /// What moving the focus asks for.
    #[verifier::opaque]
    pub open spec fn focus_effects(self, id: WindowId) -> Seq<Effect> {
        let pane = pane_of(self.remembered().panes, id);
        self.app.language.cancel_effects() + seq![Effect::FinishUndoGroup] + (if pane.document
            == self.app.editor.document {
            seq![]
        } else {
            seq![Effect::SwitchBuffer(pane.document)]
        }) + seq![Effect::FocusView(pane.view), Effect::CancelKeys]
    }
}

impl Screen {
    /// Whether a document is a commit message, which stays open for the session
    /// whether or not a window shows it.
    pub open spec fn retains(self, document: DocumentId) -> bool {
        is_draft(self.app.git_write.drafts@, document)
    }

    /// Whether closing the active window would lose unsaved changes: it is the
    /// only one with its document. A commit message is lost with the last
    /// window of all alone.
    pub open spec fn would_lose(self) -> bool {
        &&& views(self.panes, self.app.editor.document) <= 1
        &&& self.app.editor.dirty
        &&& self.app.windows.layout.root.leaves().len() == 1 || !self.retains(
            self.app.editor.document,
        )
    }

    /// The document that a prepared one is.
    pub open spec fn prepared_document(prepared: Prepared) -> DocumentId {
        match prepared {
            Prepared::Existing(id) => id,
            Prepared::New(buffer) => buffer.editor.document,
        }
    }

    /// Whether a prepared document can be shown: an existing one is open, and
    /// a new one is not.
    pub open spec fn accepts(self, prepared: Prepared) -> bool {
        match prepared {
            Prepared::Existing(id) => id == self.app.editor.document || has_buffer(
                self.buffers,
                id,
            ),
            Prepared::New(buffer) => buffer.editor.document != self.app.editor.document
                && !has_buffer(self.buffers, buffer.editor.document),
        }
    }

    /// Whether a prepared document is shown already.
    pub open spec fn shows(self, prepared: Prepared) -> bool {
        prepared == Prepared::Existing(self.app.editor.document)
    }

    /// Whether the active document stays open once its window shows another:
    /// another window shows it, it has unsaved changes, it is a commit message,
    /// or a checkpoint leads back to it.
    #[verifier::opaque]
    pub open spec fn keeps_document(self) -> bool {
        ||| views(self.panes, self.app.editor.document) > 1
        ||| self.app.editor.dirty
        ||| self.retains(self.app.editor.document)
        ||| mentions(self.trails, self.app.editor.document)
    }

    /// The screen whose active window shows another document. The one before
    /// stays open where there is a reason.
    #[verifier::opaque]
    pub open spec fn replaced(self, prepared: Prepared) -> Screen {
        if self.shows(prepared) {
            self
        } else {
            let app = self.app.dismissed();
            let (buffer, rest) = taken(self.buffers, prepared);
            let old = Buffer { editor: app.editor, automatic_language: app.automatic_language };
            let top = Viewport { top_line: 0, left_column: 0 };
            let at = find_pane(self.panes, app.window());
            Screen {
                app: App {
                    editor: buffer.editor,
                    automatic_language: buffer.automatic_language,
                    viewport: top,
                    prompt: None,
                    windows: State {
                        next_view: (app.windows.next_view + 1) as u64,
                        ..app.windows
                    },
                    ..app
                },
                panes: self.panes.update(
                    at,
                    Pane {
                        id: app.window(),
                        git: None,
                        document: buffer.editor.document,
                        view: app.windows.next_view,
                        viewport: top,
                    },
                ),
                buffers: if self.keeps_document() {
                    rest.push(old)
                } else {
                    rest
                },
                ..self
            }
        }
    }

    /// What showing another document asks for.
    #[verifier::opaque]
    pub open spec fn replace_effects(self, prepared: Prepared) -> Seq<Effect> {
        let view = self.app.windows.next_view;
        let old = self.app.editor.document;
        if self.shows(prepared) {
            seq![]
        } else {
            self.app.language.cancel_effects() + seq![Effect::FinishUndoGroup] + take_effects(
                prepared,
                view,
            ) + seq![
                if views(self.panes, old) > 1 {
                    Effect::RemoveView(old, pane_of(self.panes, self.app.window()).view)
                } else if self.keeps_document() {
                    Effect::HideBuffer(old)
                } else {
                    Effect::DropBuffer(old)
                },
                Effect::CancelKeys,
            ]
        }
    }

    /// The screen with the active window split in two, before the focus moves.
    #[verifier::opaque]
    pub open spec fn widened(self, axis: Axis) -> Screen {
        let id = self.app.windows.layout.next;
        Screen {
            app: App {
                windows: State {
                    layout: Layout {
                        root: self.app.windows.layout.split_root(axis),
                        next: (id + 1) as u64,
                        ..self.app.windows.layout
                    },
                    next_view: (self.app.windows.next_view + 1) as u64,
                    ..self.app.windows
                },
                ..self.app
            },
            panes: self.panes.push(
                Pane {
                    id,
                    git: None,
                    document: self.app.editor.document,
                    view: self.app.windows.next_view,
                    viewport: self.app.viewport,
                },
            ),
            trails: self.trails.push((id, Trail { entries: seq![self.spot()], cursor: 0 })),
            ..self
        }
    }

    /// The screen with the active window split in two and the focus on the new
    /// part.
    pub open spec fn split(self, axis: Axis) -> Screen {
        self.widened(axis).refocused(self.app.windows.layout.next)
    }

    /// What splitting the active window asks for.
    pub open spec fn split_effects(self, axis: Axis) -> Seq<Effect> {
        seq![Effect::DuplicateView(self.app.windows.next_view)] + self.widened(axis).focus_effects(
            self.app.windows.layout.next,
        )
    }

    /// Why the active window cannot be split, where it cannot.
    pub open spec fn split_error(self, axis: Axis) -> Option<Error> {
        let layout = self.app.windows.layout;
        if layout.root.leaves().len() >= MAX_WINDOWS {
            Some(Error::TooManyWindows)
        } else if !all_roomy(layout.split_root(axis).panes(Rect::of_size(self.app.area()))) {
            Some(Error::TerminalTooSmall)
        } else {
            None
        }
    }

    /// The window that gets the focus when the active one closes: the next in
    /// the layout, around its end.
    pub open spec fn successor(self) -> WindowId {
        let leaves = self.app.windows.layout.root.leaves();
        let at = leaves.index_of_first(self.app.window())->0;
        leaves[if at + 1 == leaves.len() { 0 } else { at + 1 }]
    }

    /// Whether no window is left with the document of a window that is taken
    /// away.
    pub open spec fn uncovers(self, id: WindowId) -> bool {
        let document = pane_of(self.panes, id).document;
        &&& document != self.app.editor.document
        &&& views(self.panes.remove(find_pane(self.panes, id)), document) == 0
    }

    /// Whether the document of a window is closed when that is taken away: no
    /// other shows it, and it is no commit message.
    pub open spec fn closes_with(self, id: WindowId) -> bool {
        self.uncovers(id) && !self.retains(pane_of(self.panes, id).document)
    }

    /// The screen without a window that does not have the focus. A document
    /// that no other window shows is closed, and no checkpoint leads to it any
    /// more; a commit message stays.
    #[verifier::opaque]
    pub open spec fn without_window(self, id: WindowId) -> Screen {
        let document = pane_of(self.panes, id).document;
        let panes = self.panes.remove(find_pane(self.panes, id));
        Screen {
            app: App {
                windows: State {
                    layout: Layout {
                        root: self.app.windows.layout.root.without(id)->0,
                        ..self.app.windows.layout
                    },
                    ..self.app.windows
                },
                ..self.app
            },
            panes,
            buffers: if self.closes_with(id) {
                self.buffers.remove(find_buffer(self.buffers, document))
            } else {
                self.buffers
            },
            trails: if self.closes_with(id) {
                trails_without(without_trail(self.trails, id), document)
            } else {
                without_trail(self.trails, id)
            },
        }
    }

    /// What taking a window away asks for.
    #[verifier::opaque]
    pub open spec fn without_effects(self, id: WindowId) -> Seq<Effect> {
        let pane = pane_of(self.panes, id);
        if self.closes_with(id) {
            seq![Effect::DropBuffer(pane.document)]
        } else if self.uncovers(id) {
            seq![Effect::HideBuffer(pane.document)]
        } else {
            seq![Effect::RemoveView(pane.document, pane.view)]
        }
    }

    /// Whether a buffer other than the active one has unsaved changes.
    pub open spec fn others_dirty(self) -> bool {
        exists|i: int| 0 <= i < self.buffers.len() && (#[trigger] self.buffers[i]).editor.dirty
    }

    /// Whether closing every document but the active one would lose unsaved
    /// changes: one of them has any, and is no commit message.
    pub open spec fn others_at_stake(self) -> bool {
        exists|i: int|
            0 <= i < self.buffers.len() && (#[trigger] self.buffers[i]).editor.dirty
                && !self.retains(self.buffers[i].editor.document)
    }

    /// What leaving the active window alone asks for.
    #[verifier::opaque]
    pub open spec fn alone_effects(self) -> Seq<Effect> {
        parting_effects(self.buffers, self.app.git_write.drafts@).push(Effect::RetainActiveView)
    }

    /// The screen with the active window alone. The other documents are closed,
    /// and no checkpoint leads to them any more; commit messages stay.
    #[verifier::opaque]
    pub open spec fn alone(self) -> Screen {
        Screen {
            app: App {
                windows: State {
                    layout: Layout {
                        root: Node::Leaf(self.app.window()),
                        ..self.app.windows.layout
                    },
                    ..self.app.windows
                },
                ..self.app
            },
            panes: seq![pane_of(self.panes, self.app.window())],
            buffers: retained(self.buffers, self.app.git_write.drafts@),
            trails: parted_trails(
                seq![(self.app.window(), trail_of(self.trails, self.app.window()))],
                self.buffers,
                self.app.git_write.drafts@,
            ),
        }
    }
}

/// The commit messages among the buffers.
pub open spec fn retained(buffers: Seq<Buffer>, drafts: Seq<Draft>) -> Seq<Buffer>
    decreases buffers.len(),
{
    if buffers.len() == 0 {
        seq![]
    } else if is_draft(drafts, buffers.last().editor.document) {
        retained(buffers.drop_last(), drafts).push(buffers.last())
    } else {
        retained(buffers.drop_last(), drafts)
    }
}

/// The histories without the checkpoints of all buffers but the commit
/// messages.
pub open spec fn parted_trails(
    trails: Trails,
    buffers: Seq<Buffer>,
    drafts: Seq<Draft>,
) -> Trails
    decreases buffers.len(),
{
    if buffers.len() == 0 {
        trails
    } else if is_draft(drafts, buffers.last().editor.document) {
        parted_trails(trails, buffers.drop_last(), drafts)
    } else {
        trails_without(
            parted_trails(trails, buffers.drop_last(), drafts),
            buffers.last().editor.document,
        )
    }
}

/// What closing all buffers but the commit messages asks for.
pub open spec fn parting_effects(buffers: Seq<Buffer>, drafts: Seq<Draft>) -> Seq<Effect> {
    buffers.map_values(
        |buffer: Buffer|
            if is_draft(drafts, buffer.editor.document) {
                Effect::HideBuffer(buffer.editor.document)
            } else {
                Effect::DropBuffer(buffer.editor.document)
            },
    )
}

impl App {
    /// The application with its lists of panes, buffers and jump histories,
    /// which stand beside it rather than in it.
    pub open spec fn screen(self) -> Screen {
        Screen {
            app: App {
                windows: State { panes: arbitrary(), buffers: arbitrary(), ..self.windows },
                jumps: arbitrary(),
                ..self
            },
            panes: self.windows.panes@,
            buffers: self.windows.buffers@,
            trails: self.jumps@,
        }
    }

    /// Whether the application is what a screen describes.
    pub open spec fn is(self, screen: Screen) -> bool {
        self.screen() == screen
    }

    /// The columns and rows that the windows share; the last row of the
    /// terminal is the command line.
    pub open spec fn area(self) -> (u16, u16) {
        (self.size.0, if self.size.1 == 0 { 0u16 } else { (self.size.1 - 1) as u16 })
    }

    pub fn window_area(&self) -> (area: (u16, u16))
        ensures
            area == self.area(),
    {
        (self.size.0, if self.size.1 == 0 { 0 } else { self.size.1 - 1 })
    }

    /// Where the pane of a window is in the list.
    pub(crate) fn pane_index(&self, id: WindowId) -> (index: usize)
        ensures
            index == find_pane(self.windows.panes@, id),
            index <= self.windows.panes@.len(),
    {
        let mut i: usize = 0;
        while i < self.windows.panes.len() && self.windows.panes[i].id != id
            invariant
                i <= self.windows.panes.len(),
                forall|j: int| 0 <= j < i ==> (#[trigger] self.windows.panes@[j]).id != id,
            decreases self.windows.panes.len() - i,
        {
            i += 1;
        }
        proof {
            lemma_is_first(self.windows.panes@, |pane: Pane| pane.id == id, i as int);
        }
        i
    }

    /// Where the buffer of a document is in the list.
    pub(crate) fn buffer_index(&self, document: DocumentId) -> (index: usize)
        ensures
            index == find_buffer(self.windows.buffers@, document),
            index <= self.windows.buffers@.len(),
    {
        let mut i: usize = 0;
        while i < self.windows.buffers.len() && self.windows.buffers[i].editor.document != document
            invariant
                i <= self.windows.buffers.len(),
                forall|j: int|
                    0 <= j < i ==> (#[trigger] self.windows.buffers@[j]).editor.document
                        != document,
            decreases self.windows.buffers.len() - i,
        {
            i += 1;
        }
        proof {
            lemma_is_first(
                self.windows.buffers@,
                |buffer: Buffer| buffer.editor.document == document,
                i as int,
            );
        }
        i
    }

    /// Lets the active pane remember what part of its document is shown.
    pub fn remember_viewport(&mut self)
        requires
            has_pane(old(self).windows.panes@, old(self).window()),
        ensures
            final(self).is(old(self).screen().remembered()),
    {
        let index = self.pane_index(self.windows.layout.active);
        proof {
            lemma_has_pane(self.windows.panes@, self.window());
        }
        let viewport = self.viewport;
        let pane = &mut self.windows.panes[index];
        pane.viewport = viewport;
    }

    /// How many windows show a document.
    pub fn views_of(&self, document: DocumentId) -> (count: usize)
        ensures
            count == views(self.windows.panes@, document),
    {
        let ghost test = |pane: Pane| pane.document == document;
        let mut count: usize = 0;
        let mut i: usize = 0;
        while i < self.windows.panes.len()
            invariant
                i <= self.windows.panes.len(),
                count <= i,
                test == (|pane: Pane| pane.document == document),
                count == count_where(self.windows.panes@.take(i as int), test),
            decreases self.windows.panes.len() - i,
        {
            assert(self.windows.panes@.take(i + 1).drop_last() =~= self.windows.panes@.take(
                i as int,
            ));
            assert(self.windows.panes@.take(i + 1).last() == self.windows.panes@[i as int]);
            if self.windows.panes[i].document == document {
                count += 1;
            }
            i += 1;
        }
        assert(self.windows.panes@.take(i as int) =~= self.windows.panes@);
        count
    }

    /// Moves the focus to another window.
    pub fn focus_window(&mut self, id: WindowId, out: &mut Vec<Effect>)
        requires
            old(self).screen().valid(),
            has_pane(old(self).windows.panes@, id),
        ensures
            final(self).is(old(self).screen().refocused(id)),
            final(out)@ == old(out)@ + old(self).screen().focus_effects(id),
            final(self).screen().valid(),
            final(self).window() == id,
    {
        proof {
            reveal(Screen::refocused);
            reveal(Screen::focus_effects);
        }
        let ghost before = self.screen();
        proof {
            lemma_focused_pane(before);
            lemma_refocused(before, id);
        }
        self.remember_viewport();
        self.dismiss_language_help(out);
        out.push(Effect::FinishUndoGroup);
        let index = self.pane_index(id);
        proof {
            lemma_remembered(before);
            lemma_has_pane(self.windows.panes@, id);
        }
        let document = self.windows.panes[index].document;
        let view = self.windows.panes[index].view;
        let viewport = self.windows.panes[index].viewport;
        if document != self.editor.document {
            let at = self.buffer_index(document);
            proof {
                lemma_has_buffer(self.windows.buffers@, document);
            }
            let mut buffer = self.windows.buffers.remove(at);
            std::mem::swap(&mut self.editor, &mut buffer.editor);
            std::mem::swap(&mut self.automatic_language, &mut buffer.automatic_language);
            self.windows.buffers.push(buffer);
            out.push(Effect::SwitchBuffer(document));
        }
        out.push(Effect::FocusView(view));
        self.viewport = viewport;
        self.windows.layout.active = id;
        out.push(Effect::CancelKeys);
        self.prompt = None;
        assert(out@ =~= old(out)@ + before.focus_effects(id));
        assert(self.is(before.refocused(id)));
    }
}

pub proof fn lemma_views_same(a: Seq<Pane>, b: Seq<Pane>, document: DocumentId)
    requires
        a.len() == b.len(),
        forall|i: int| 0 <= i < a.len() ==> (#[trigger] a[i]).document == b[i].document,
    ensures
        views(a, document) == views(b, document),
    decreases a.len(),
{
    if a.len() > 0 {
        assert forall|i: int| 0 <= i < a.drop_last().len() implies (#[trigger] a.drop_last()[i]).document
            == b.drop_last()[i].document by {
            assert(a[i].document == b[i].document);
        }
        lemma_views_same(a.drop_last(), b.drop_last(), document);
        assert(a[a.len() - 1].document == b[b.len() - 1].document);
    }
}

/// The active window has a pane.
pub proof fn lemma_focused_pane(screen: Screen)
    requires
        screen.valid(),
    ensures
        has_pane(screen.panes, screen.app.window()),
        0 <= find_pane(screen.panes, screen.app.window()) < screen.panes.len(),
        pane_of(screen.panes, screen.app.window()).id == screen.app.window(),
{
    assert(screen.app.windows.layout.root.leaves().contains(screen.app.window()));
    lemma_has_pane(screen.panes, screen.app.window());
}

/// Remembering a viewport changes no window and no document.
pub proof fn lemma_remembered(screen: Screen)
    requires
        screen.valid(),
    ensures
        screen.remembered().panes.len() == screen.panes.len(),
        forall|i: int|
            0 <= i < screen.panes.len() ==> (#[trigger] screen.remembered().panes[i]).id
                == screen.panes[i].id && screen.remembered().panes[i].document
                == screen.panes[i].document && screen.remembered().panes[i].view
                == screen.panes[i].view,
        forall|id: WindowId| #[trigger]
            has_pane(screen.remembered().panes, id) <==> has_pane(screen.panes, id),
        forall|id: WindowId|
            has_pane(screen.panes, id) ==> #[trigger] find_pane(screen.remembered().panes, id)
                == find_pane(screen.panes, id),
        forall|document: DocumentId| #[trigger]
            views(screen.remembered().panes, document) == views(screen.panes, document),
        screen.remembered().valid(),
{
    lemma_focused_pane(screen);
    let after = screen.remembered();
    assert forall|id: WindowId| #[trigger] has_pane(after.panes, id) <==> has_pane(
        screen.panes,
        id,
    ) by {
        if has_pane(screen.panes, id) {
            let i = choose|i: int| 0 <= i < screen.panes.len() && (#[trigger] screen.panes[i]).id == id;
            assert(after.panes[i].id == id);
        }
        if has_pane(after.panes, id) {
            let i = choose|i: int| 0 <= i < after.panes.len() && (#[trigger] after.panes[i]).id == id;
            assert(screen.panes[i].id == id);
        }
    }
    assert forall|id: WindowId| has_pane(screen.panes, id) implies #[trigger] find_pane(
        after.panes,
        id,
    ) == find_pane(screen.panes, id) by {
        lemma_has_pane(screen.panes, id);
        let at = find_pane(screen.panes, id);
        lemma_first_where(screen.panes, |pane: Pane| pane.id == id);
        assert(after.panes[at].id == id);
        assert forall|i: int| 0 <= i < at implies (#[trigger] after.panes[i]).id != id by {
            assert(screen.panes[i].id != id);
        }
        lemma_is_first(after.panes, |pane: Pane| pane.id == id, at);
    }
    assert forall|document: DocumentId| #[trigger] views(after.panes, document) == views(
        screen.panes,
        document,
    ) by {
        lemma_views_same(after.panes, screen.panes, document);
    }
    assert forall|id: WindowId| #[trigger]
        after.app.windows.layout.root.leaves().contains(id) <==> has_pane(after.panes, id) by {
        assert(screen.app.windows.layout.root.leaves().contains(id) <==> has_pane(
            screen.panes,
            id,
        ));
    }
    assert forall|i: int, j: int| 0 <= i < j < after.panes.len() implies (#[trigger] after.panes[i]).id
        != (#[trigger] after.panes[j]).id by {
        assert(screen.panes[i].id != screen.panes[j].id);
    }
    assert forall|i: int| 0 <= i < after.panes.len() implies (#[trigger] after.panes[i]).document
        == after.app.editor.document || has_buffer(after.buffers, after.panes[i].document) by {
        assert(screen.panes[i].document == after.panes[i].document);
    }
    assert forall|id: WindowId| #[trigger] has_pane(after.panes, id) implies has_trail(
        after.trails,
        id,
    ) by {
        assert(has_pane(screen.panes, id));
    }
}

/// A window that shows a document counts.
pub proof fn lemma_views_positive(panes: Seq<Pane>, i: int)
    requires
        0 <= i < panes.len(),
    ensures
        views(panes, panes[i].document) > 0,
{
    lemma_count_where(panes, |pane: Pane| pane.document == panes[i].document);
    let test = |pane: Pane| pane.document == panes[i].document;
    assert(test(panes[i]));
}

/// Switching documents keeps the windows in order, once the active window
/// shows the new one.
proof fn lemma_switched(screen: Screen, document: DocumentId)
    requires
        screen.valid(),
        document != screen.app.editor.document,
        has_buffer(screen.buffers, document),
    ensures
        ({
            let after = screen.switched(document);
            &&& after.app.editor.document == document
            &&& forall|i: int|
                0 <= i < after.panes.len() ==> (#[trigger] after.panes[i]).document == document
                    || has_buffer(after.buffers, after.panes[i].document)
            &&& forall|i: int|
                0 <= i < after.buffers.len() ==> (#[trigger] after.buffers[i]).editor.document
                    != document
            &&& forall|i: int, j: int|
                0 <= i < j < after.buffers.len() ==> (#[trigger] after.buffers[i]).editor.document
                    != (#[trigger] after.buffers[j]).editor.document
        }),
{
    let after = screen.switched(document);
    lemma_has_buffer(screen.buffers, document);
    lemma_focused_pane(screen);
    let at = find_buffer(screen.buffers, document);
    let last = after.buffers.len() - 1;
    assert(after.buffers[last].editor == screen.app.editor);
    assert(forall|i: int|
        0 <= i < last ==> #[trigger] after.buffers[i] == screen.buffers[if i < at { i } else { i + 1 }]);
    assert forall|i: int| 0 <= i < after.panes.len() implies (#[trigger] after.panes[i]).document
        == document || has_buffer(after.buffers, after.panes[i].document) by {
        let shown = screen.panes[i].document;
        if shown == screen.app.editor.document {
            assert(after.buffers[last].editor.document == shown);
        } else if shown != document {
            let k = choose|k: int|
                0 <= k < screen.buffers.len() && (#[trigger] screen.buffers[k]).editor.document
                    == shown;
            assert(k != at);
            assert(after.buffers[if k < at { k } else { k - 1 }].editor.document == shown);
        }
    }
    assert forall|i: int, j: int| 0 <= i < j < after.buffers.len() implies (
    #[trigger] after.buffers[i]).editor.document != (#[trigger] after.buffers[j]).editor.document by {
        let a = if i < at { i } else { i + 1 };
        let b = if j < at { j } else { j + 1 };
        assert(after.buffers[i] == screen.buffers[a]);
        if j < last {
            assert(after.buffers[j] == screen.buffers[b]);
            assert(screen.buffers[a].editor.document != screen.buffers[b].editor.document);
        } else {
            assert(screen.buffers[a].editor.document != screen.app.editor.document);
        }
    }
    assert forall|i: int| 0 <= i < after.buffers.len() implies (
    #[trigger] after.buffers[i]).editor.document != document by {
        if i < last {
            let a = if i < at { i } else { i + 1 };
            if a < at {
                assert(screen.buffers[a].editor.document != screen.buffers[at].editor.document);
            } else {
                assert(screen.buffers[at].editor.document != screen.buffers[a].editor.document);
            }
        }
    }
}

/// Moving the focus keeps the windows in order.
pub proof fn lemma_refocused(screen: Screen, id: WindowId)
    requires
        screen.valid(),
        has_pane(screen.panes, id),
    ensures
        screen.refocused(id).valid(),
        screen.refocused(id).app.window() == id,
{
    reveal(Screen::refocused);
    let kept = screen.remembered();
    lemma_remembered(screen);
    lemma_has_pane(kept.panes, id);
    let pane = pane_of(kept.panes, id);
    let before = Screen { app: kept.app.dismissed(), ..kept };
    let after = screen.refocused(id);
    assert(before.valid());
    assert(kept.panes[find_pane(kept.panes, id)].document == before.app.editor.document
        || has_buffer(before.buffers, pane.document));
    if pane.document != before.app.editor.document {
        lemma_switched(before, pane.document);
    }
    assert(after.panes == kept.panes);
    assert(has_pane(kept.panes, id));
    assert(kept.app.windows.layout.root.leaves().contains(id));
    assert forall|any: WindowId| #[trigger]
        after.app.windows.layout.root.leaves().contains(any) <==> has_pane(after.panes, any) by {
        assert(kept.app.windows.layout.root.leaves().contains(any) <==> has_pane(kept.panes, any));
    }
}

/// A pane that is there is found.
pub proof fn lemma_has_pane(panes: Seq<Pane>, id: WindowId)
    requires
        has_pane(panes, id),
    ensures
        0 <= find_pane(panes, id) < panes.len(),
        pane_of(panes, id).id == id,
        panes.contains(pane_of(panes, id)),
{
    lemma_first_where(panes, |pane: Pane| pane.id == id);
    let i = choose|i: int| 0 <= i < panes.len() && (#[trigger] panes[i]).id == id;
    assert(panes[i].id == id);
}

/// A buffer that is there is found.
pub proof fn lemma_has_buffer(buffers: Seq<Buffer>, document: DocumentId)
    requires
        has_buffer(buffers, document),
    ensures
        0 <= find_buffer(buffers, document) < buffers.len(),
        buffers[find_buffer(buffers, document)].editor.document == document,
{
    lemma_first_where(buffers, |buffer: Buffer| buffer.editor.document == document);
    let i = choose|i: int|
        0 <= i < buffers.len() && (#[trigger] buffers[i]).editor.document == document;
    assert(buffers[i].editor.document == document);
}

pub proof fn lemma_views_update(panes: Seq<Pane>, at: int, pane: Pane, document: DocumentId)
    requires
        0 <= at < panes.len(),
    ensures
        views(panes.update(at, pane), document) == views(panes, document) - (if panes[at].document
            == document { 1int } else { 0 }) + (if pane.document == document { 1int } else { 0 }),
    decreases panes.len(),
{
    let after = panes.update(at, pane);
    if at == panes.len() - 1 {
        assert(after.drop_last() =~= panes.drop_last());
    } else {
        assert(after.drop_last() =~= panes.drop_last().update(at, pane));
        lemma_views_update(panes.drop_last(), at, pane, document);
    }
}

pub proof fn lemma_views_remove(panes: Seq<Pane>, at: int, document: DocumentId)
    requires
        0 <= at < panes.len(),
    ensures
        views(panes.remove(at), document) == views(panes, document) - (if panes[at].document
            == document { 1int } else { 0 }),
    decreases panes.len(),
{
    let after = panes.remove(at);
    if at == panes.len() - 1 {
        assert(after =~= panes.drop_last());
    } else {
        assert(after.drop_last() =~= panes.drop_last().remove(at));
        assert(after.last() == panes.last());
        lemma_views_remove(panes.drop_last(), at, document);
    }
}

/// Two windows that show a document make at least two.
pub proof fn lemma_two_views(panes: Seq<Pane>, i: int, j: int)
    requires
        0 <= i < panes.len(),
        0 <= j < panes.len(),
        i != j,
        panes[i].document == panes[j].document,
    ensures
        views(panes, panes[i].document) >= 2,
{
    let rest = panes.remove(i);
    lemma_views_remove(panes, i, panes[i].document);
    let k = if j < i { j } else { j - 1 };
    assert(rest[k] == panes[j]);
    lemma_views_positive(rest, k);
}

/// Where the only pane of a window is, is where it is found.
pub proof fn lemma_find_pane(panes: Seq<Pane>, at: int)
    requires
        0 <= at < panes.len(),
        forall|i: int, j: int|
            0 <= i < j < panes.len() ==> (#[trigger] panes[i]).id != (#[trigger] panes[j]).id,
    ensures
        find_pane(panes, panes[at].id) == at,
{
    assert forall|i: int| 0 <= i < at implies (#[trigger] panes[i]).id != panes[at].id by {}
    lemma_is_first(panes, |pane: Pane| pane.id == panes[at].id, at);
}

/// Showing another document keeps the windows in order.
pub proof fn lemma_replaced(screen: Screen, prepared: Prepared)
    requires
        screen.valid(),
        screen.accepts(prepared),
    ensures
        screen.replaced(prepared).valid(),
        screen.replaced(prepared).app.editor.document == Screen::prepared_document(prepared),
        screen.replaced(prepared).app.windows.layout == screen.app.windows.layout,
{
    reveal(Screen::replaced);
    reveal(Screen::keeps_document);
    if !screen.shows(prepared) {
        let after = screen.replaced(prepared);
        let at = find_pane(screen.panes, screen.app.window());
        let old = screen.app.editor.document;
        let new = Screen::prepared_document(prepared);
        lemma_focused_pane(screen);
        if prepared is Existing {
            lemma_has_buffer(screen.buffers, new);
        }
        let gone = find_buffer(screen.buffers, new);
        let keep = screen.keeps_document();
        let rest = match prepared {
            Prepared::New(_) => screen.buffers,
            Prepared::Existing(_) => screen.buffers.remove(gone),
        };
        assert(after.panes[at].document == new);
        assert(forall|i: int| 0 <= i < after.panes.len() ==> (#[trigger] after.panes[i]).id
            == screen.panes[i].id);
        assert forall|any: WindowId| #[trigger] has_pane(after.panes, any) <==> has_pane(
            screen.panes,
            any,
        ) by {
            if has_pane(screen.panes, any) {
                let i = choose|i: int|
                    0 <= i < screen.panes.len() && (#[trigger] screen.panes[i]).id == any;
                assert(after.panes[i].id == any);
            }
            if has_pane(after.panes, any) {
                let i = choose|i: int|
                    0 <= i < after.panes.len() && (#[trigger] after.panes[i]).id == any;
                assert(screen.panes[i].id == any);
            }
        }
        assert forall|i: int, j: int| 0 <= i < j < after.panes.len() implies (
        #[trigger] after.panes[i]).id != (#[trigger] after.panes[j]).id by {
            assert(screen.panes[i].id != screen.panes[j].id);
        }
        assert(after.panes[at].id == screen.app.window());
        lemma_find_pane(after.panes, at);
        assert forall|id: WindowId| #[trigger]
            after.app.windows.layout.root.leaves().contains(id) <==> has_pane(after.panes, id) by {
            assert(screen.app.windows.layout.root.leaves().contains(id) <==> has_pane(
                screen.panes,
                id,
            ));
        }
        // The buffers that stay, as they were before.
        assert forall|i: int| 0 <= i < rest.len() implies (#[trigger] rest[i]).editor.document
            != old && rest[i].editor.document != new by {
            let k = if prepared is Existing && i >= gone { i + 1 } else { i };
            assert(rest[i] == screen.buffers[k]);
            assert(screen.buffers[k].editor.document != old);
            if prepared is Existing {
                if k < gone {
                    assert(screen.buffers[k].editor.document != screen.buffers[gone].editor.document);
                } else {
                    assert(screen.buffers[gone].editor.document != screen.buffers[k].editor.document);
                }
            } else {
                assert(!has_buffer(screen.buffers, new));
            }
        }
        assert forall|i: int, j: int| 0 <= i < j < rest.len() implies (
        #[trigger] rest[i]).editor.document != (#[trigger] rest[j]).editor.document by {
            let a = if prepared is Existing && i >= gone { i + 1 } else { i };
            let b = if prepared is Existing && j >= gone { j + 1 } else { j };
            assert(rest[i] == screen.buffers[a] && rest[j] == screen.buffers[b]);
            assert(screen.buffers[a].editor.document != screen.buffers[b].editor.document);
        }
        if keep {
            assert(after.buffers == rest.push(after.buffers.last()));
            assert(after.buffers.last().editor.document == old);
        }
        assert forall|i: int| 0 <= i < after.buffers.len() implies (
        #[trigger] after.buffers[i]).editor.document != new by {
            if i < rest.len() {
                assert(after.buffers[i] == rest[i]);
            }
        }
        assert forall|i: int, j: int| 0 <= i < j < after.buffers.len() implies (
        #[trigger] after.buffers[i]).editor.document != (
        #[trigger] after.buffers[j]).editor.document by {
            assert(after.buffers[i] == rest[i]);
            if j < rest.len() {
                assert(after.buffers[j] == rest[j]);
            }
        }
        assert forall|i: int| 0 <= i < after.panes.len() implies (
        #[trigger] after.panes[i]).document == new || has_buffer(
            after.buffers,
            after.panes[i].document,
        ) by {
            let shown = screen.panes[i].document;
            if i != at && shown != new {
                if shown == old {
                    lemma_two_views(screen.panes, i, at);
                    assert(after.buffers[after.buffers.len() - 1].editor.document == old);
                } else {
                    let k = choose|k: int|
                        0 <= k < screen.buffers.len() && (
                        #[trigger] screen.buffers[k]).editor.document == shown;
                    let m = if prepared is Existing && k > gone { k - 1 } else { k };
                    assert(rest[m] == screen.buffers[k]);
                    assert(after.buffers[m].editor.document == shown);
                }
            }
        }
        assert forall|id: WindowId| #[trigger] has_pane(after.panes, id) implies has_trail(
            after.trails,
            id,
        ) by {
            assert(has_pane(screen.panes, id));
        }
    }
}

/// Splitting a window keeps the windows in order.
pub proof fn lemma_widened(screen: Screen, axis: Axis)
    requires
        screen.valid(),
        screen.split_error(axis) is None,
        screen.app.windows.layout.next < u64::MAX,
    ensures
        screen.widened(axis).valid(),
        has_pane(screen.widened(axis).panes, screen.app.windows.layout.next),
        views(screen.widened(axis).panes, screen.app.editor.document) >= 2,
{
    reveal(Screen::widened);
    let after = screen.widened(axis);
    let layout = screen.app.windows.layout;
    let id = layout.next;
    lemma_focused_pane(screen);
    law_split_adds_one_window(layout, axis);
    let last = screen.panes.len() as int;
    assert(after.panes[last].id == id);
    assert(forall|i: int| 0 <= i < last ==> #[trigger] after.panes[i] == screen.panes[i]);
    assert forall|any: WindowId| #[trigger]
        after.app.windows.layout.root.leaves().contains(any) <==> has_pane(after.panes, any) by {
        layout.root.lemma_split_contains(layout.active, id, axis, any);
        assert(layout.root.leaves().contains(any) <==> has_pane(screen.panes, any));
        if has_pane(screen.panes, any) {
            let i = choose|i: int|
                0 <= i < screen.panes.len() && (#[trigger] screen.panes[i]).id == any;
            assert(after.panes[i].id == any);
        }
        if has_pane(after.panes, any) {
            let i = choose|i: int| 0 <= i < after.panes.len() && (#[trigger] after.panes[i]).id == any;
            if i < last {
                assert(screen.panes[i].id == any);
            }
        }
    }
    layout.root.lemma_split_contains(layout.active, id, axis, layout.active);
    assert(after.app.windows.layout.focused());
    assert forall|i: int, j: int| 0 <= i < j < after.panes.len() implies (
    #[trigger] after.panes[i]).id != (#[trigger] after.panes[j]).id by {
        if j == last {
            assert(screen.panes[i].id == after.panes[i].id);
            assert(has_pane(screen.panes, screen.panes[i].id));
            assert(layout.root.leaves().contains(screen.panes[i].id));
        } else {
            assert(screen.panes[i].id != screen.panes[j].id);
        }
    }
    let at = find_pane(screen.panes, layout.active);
    assert(after.panes[at].id == layout.active);
    lemma_find_pane(after.panes, at);
    lemma_find_pane(screen.panes, at);
    assert(after.panes.drop_last() =~= screen.panes);
    assert forall|any: WindowId| #[trigger] has_pane(after.panes, any) implies has_trail(
        after.trails,
        any,
    ) by {
        if any == id {
            assert(after.trails[screen.trails.len() as int].0 == id);
        } else {
            let i = choose|i: int| 0 <= i < after.panes.len() && (#[trigger] after.panes[i]).id == any;
            assert(screen.panes[i].id == any);
            assert(has_pane(screen.panes, any));
            let k = choose|k: int| 0 <= k < screen.trails.len() && (#[trigger] screen.trails[k]).0 == any;
            assert(after.trails[k].0 == any);
        }
    }
    assert forall|i: int| 0 <= i < after.trails.len() implies (#[trigger] after.trails[i]).1.valid() by {
        if i < screen.trails.len() {
            assert(screen.trails[i].1.valid());
        }
    }
    assert forall|i: int| 0 <= i < after.panes.len() implies (
    #[trigger] after.panes[i]).document == after.app.editor.document || has_buffer(
        after.buffers,
        after.panes[i].document,
    ) by {
        if i < last {
            assert(screen.panes[i].document == after.panes[i].document);
        }
    }
    assert(after.panes[at].document == after.panes[last].document);
    lemma_two_views(after.panes, at, last);
}

/// A prepared document, and the buffers without it.
pub open spec fn taken(buffers: Seq<Buffer>, prepared: Prepared) -> (Buffer, Seq<Buffer>) {
    match prepared {
        Prepared::New(buffer) => (buffer, buffers),
        Prepared::Existing(id) => (
            buffers[find_buffer(buffers, id)],
            buffers.remove(find_buffer(buffers, id)),
        ),
    }
}

/// What making a prepared document active asks for.
pub open spec fn take_effects(prepared: Prepared, view: ViewId) -> Seq<Effect> {
    match prepared {
        Prepared::New(buffer) => seq![Effect::InstallBuffer(buffer.editor.document, view)],
        Prepared::Existing(id) => seq![
            Effect::SwitchBuffer(id),
            Effect::DuplicateView(view),
            Effect::FocusView(view),
        ],
    }
}

impl App {
    /// Takes a prepared document from among the buffers.
    fn take_prepared(&mut self, prepared: Prepared, out: &mut Vec<Effect>) -> (buffer: Buffer)
        requires
            prepared matches Prepared::Existing(id) ==> has_buffer(
                old(self).windows.buffers@,
                id,
            ),
        ensures
            buffer == taken(old(self).windows.buffers@, prepared).0,
            final(self).windows.buffers@ == taken(old(self).windows.buffers@, prepared).1,
            *final(self) == (App {
                windows: State {
                    buffers: final(self).windows.buffers,
                    ..old(self).windows
                },
                ..*old(self)
            }),
            final(out)@ == old(out)@ + take_effects(prepared, old(self).windows.next_view),
    {
        let view = self.windows.next_view;
        match prepared {
            Prepared::New(buffer) => {
                out.push(Effect::InstallBuffer(buffer.editor.document, view));
                assert(out@ =~= old(out)@ + take_effects(prepared, view));
                buffer
            },
            Prepared::Existing(id) => {
                let at = self.buffer_index(id);
                proof {
                    lemma_has_buffer(self.windows.buffers@, id);
                }
                out.push(Effect::SwitchBuffer(id));
                out.push(Effect::DuplicateView(view));
                out.push(Effect::FocusView(view));
                assert(out@ =~= old(out)@ + take_effects(prepared, view));
                self.windows.buffers.remove(at)
            },
        }
    }

    /// Makes a document active in the focused window, under the next view. The
    /// one before goes among the buffers where it stays open; `shared` says
    /// whether another window shows it.
    fn install(&mut self, buffer: Buffer, keep: bool, shared: bool, out: &mut Vec<Effect>)
        requires
            has_pane(old(self).windows.panes@, old(self).window()),
            old(self).windows.next_view < u64::MAX,
        ensures
            ({
                let top = Viewport { top_line: 0, left_column: 0 };
                let at = find_pane(old(self).windows.panes@, old(self).window());
                let view = old(self).windows.next_view;
                let before = Buffer {
                    editor: old(self).editor,
                    automatic_language: old(self).automatic_language,
                };
                &&& *final(self) == (App {
                    editor: buffer.editor,
                    automatic_language: buffer.automatic_language,
                    viewport: top,
                    prompt: None,
                    windows: State {
                        panes: final(self).windows.panes,
                        buffers: final(self).windows.buffers,
                        next_view: (view + 1) as u64,
                        ..old(self).windows
                    },
                    ..*old(self)
                })
                &&& final(self).windows.panes@ == old(self).windows.panes@.update(
                    at,
                    Pane {
                        id: old(self).window(),
                        git: None,
                        document: buffer.editor.document,
                        view,
                        viewport: top,
                    },
                )
                &&& final(self).windows.buffers@ == if keep {
                    old(self).windows.buffers@.push(before)
                } else {
                    old(self).windows.buffers@
                }
                &&& final(out)@ == old(out)@ + seq![
                    if shared {
                        Effect::RemoveView(
                            old(self).editor.document,
                            old(self).windows.panes@[at].view,
                        )
                    } else if keep {
                        Effect::HideBuffer(old(self).editor.document)
                    } else {
                        Effect::DropBuffer(old(self).editor.document)
                    },
                    Effect::CancelKeys,
                ]
            }),
    {
        let mut buffer = buffer;
        let old_document = self.editor.document;
        let index = self.pane_index(self.windows.layout.active);
        proof {
            lemma_has_pane(self.windows.panes@, self.window());
        }
        let old_view = self.windows.panes[index].view;
        let view = self.windows.next_view;
        std::mem::swap(&mut self.editor, &mut buffer.editor);
        std::mem::swap(&mut self.automatic_language, &mut buffer.automatic_language);
        if shared {
            out.push(Effect::RemoveView(old_document, old_view));
        } else if keep {
            out.push(Effect::HideBuffer(old_document));
        } else {
            out.push(Effect::DropBuffer(old_document));
        }
        if keep {
            self.windows.buffers.push(buffer);
        }
        self.viewport = Viewport { top_line: 0, left_column: 0 };
        let pane = Pane {
            id: self.windows.layout.active,
            git: None,
            document: self.editor.document,
            view,
            viewport: self.viewport,
        };
        self.windows.panes.set(index, pane);
        self.windows.next_view = view + 1;
        out.push(Effect::CancelKeys);
        self.prompt = None;
        assert(out@ =~= old(out)@ + seq![
            if shared {
                Effect::RemoveView(old_document, old_view)
            } else if keep {
                Effect::HideBuffer(old_document)
            } else {
                Effect::DropBuffer(old_document)
            },
            Effect::CancelKeys,
        ]);
    }

    /// Whether the active document stays open once its window shows another.
    fn document_stays(&self) -> (keep: bool)
        ensures
            keep == self.screen().keeps_document(),
    {
        proof {
            reveal(Screen::keeps_document);
        }
        self.views_of(self.editor.document) > 1 || self.is_dirty() || self.is_commit_draft()
            || self.jumps.mentioned(self.editor.document)
    }

    /// Shows a prepared document in the active window. The one before stays open
    /// where it has unsaved changes, it is a commit message, another window
    /// shows it or a checkpoint leads back to it.
    pub fn replace_window_buffer(
        &mut self,
        prepared: Prepared,
        out: &mut Vec<Effect>,
    ) -> (result: Result<(), Error>)
        requires
            old(self).screen().valid(),
            old(self).screen().accepts(prepared),
            old(self).windows.next_view < u64::MAX,
        ensures
            result is Ok,
            final(self).is(old(self).screen().replaced(prepared)),
            final(out)@ == old(out)@ + old(self).screen().replace_effects(prepared),
            final(self).screen().valid(),
    {
        proof {
            reveal(Screen::replaced);
            reveal(Screen::replace_effects);
        }
        let ghost before = self.screen();
        let ghost asked = prepared;
        let old_document = self.editor.document;
        let shown = match &prepared {
            Prepared::Existing(id) => *id == old_document,
            Prepared::New(_) => false,
        };
        if shown {
            assert(out@ =~= old(out)@ + before.replace_effects(prepared));
            return Ok(());
        }
        let shared = self.views_of(old_document) > 1;
        let keep = self.document_stays();
        proof {
            lemma_focused_pane(before);
        }
        self.dismiss_language_help(out);
        out.push(Effect::FinishUndoGroup);
        let ghost dismissed = *self;
        let buffer = self.take_prepared(prepared, out);
        self.install(buffer, keep, shared, out);
        assert(out@ =~= old(out)@ + before.replace_effects(asked));
        assert(self.is(before.replaced(asked)));
        proof {
            lemma_replaced(before, asked);
        }
        Ok(())
    }

    /// Splits the active window and moves the focus to the new part.
    pub fn split_window(&mut self, axis: Axis, out: &mut Vec<Effect>) -> (result: Result<
        (),
        Error,
    >)
        requires
            old(self).screen().valid(),
            old(self).screen().split_error(axis) is None ==> old(self).windows.layout.next
                < u64::MAX && old(self).windows.next_view < u64::MAX,
        ensures
            ({
                let screen = old(self).screen();
                match screen.split_error(axis) {
                    Some(error) => {
                        &&& result == Err::<(), Error>(error)
                        &&& *final(self) == *old(self)
                        &&& final(out)@ == old(out)@
                    },
                    None => {
                        &&& result is Ok
                        &&& final(self).is(screen.split(axis))
                        &&& final(out)@ == old(out)@ + screen.split_effects(axis)
                    },
                }
            }),
            final(self).screen().valid(),
    {
        proof {
            reveal(Screen::widened);
        }
        let ghost before = self.screen();
        let area = self.window_area();
        let id = match self.windows.layout.split(axis, area) {
            Ok(id) => id,
            Err(error) => {
                return Err(error);
            },
        };
        proof {
            lemma_widened(before, axis);
        }
        let view = self.windows.next_view;
        self.windows.next_view = view + 1;
        out.push(Effect::DuplicateView(view));
        let pane = Pane {
            id,
            git: None,
            document: self.editor.document,
            view,
            viewport: self.viewport,
        };
        self.windows.panes.push(pane);
        let jump = self.current_jump();
        self.jumps.start(id, jump);
        assert(self.is(before.widened(axis)));
        self.focus_window(id, out);
        assert(out@ =~= old(out)@ + before.split_effects(axis));
        Ok(())
    }

    /// The live place as a checkpoint.
    pub fn current_jump(&self) -> (jump: Jump)
        ensures
            jump == (Jump {
                document: self.editor.document,
                selections: self.editor.selections,
            }),
            jump@ == self.screen().spot(),
    {
        Jump { document: self.editor.document, selections: share(&self.editor.selections) }
    }
}

/// The window that gets the focus when the active one closes is another one.
pub proof fn lemma_successor(screen: Screen)
    requires
        screen.valid(),
        screen.app.windows.layout.root.leaves().len() > 1,
    ensures
        has_pane(screen.panes, screen.successor()),
        screen.successor() != screen.app.window(),
{
    let leaves = screen.app.windows.layout.root.leaves();
    let id = screen.app.window();
    lemma_focused_pane(screen);
    assert(leaves.contains(id));
    leaves.index_of_first_ensures(id);
    assert(leaves.contains(screen.successor()));
}

/// Taking away a window that does not have the focus keeps the others in
/// order.
pub proof fn lemma_without_window(screen: Screen, id: WindowId)
    requires
        screen.valid(),
        id != screen.app.window(),
        has_pane(screen.panes, id),
    ensures
        screen.without_window(id).valid(),
        screen.app.windows.layout.root.without(id) is Some,
{
    reveal(Screen::without_window);
    let after = screen.without_window(id);
    let layout = screen.app.windows.layout;
    let at = find_pane(screen.panes, id);
    lemma_has_pane(screen.panes, id);
    lemma_focused_pane(screen);
    let document = screen.panes[at].document;
    law_remove_drops_only_that_window(layout, id);
    layout.root.lemma_without_leaves(id);
    assert(layout.root.leaves().contains(layout.active));
    if layout.root.without(id) is None {
        let leaves = layout.root.leaves();
        let i = choose|i: int| 0 <= i < leaves.len() && leaves[i] == layout.active;
        broadcast use vstd::seq_lib::group_filter_ensures;

        let keep = |any: WindowId| any != id;
        assert(keep(leaves[i]));
        assert(leaves.filter(keep).contains(leaves[i]));
    }
    assert(forall|i: int|
        0 <= i < after.panes.len() ==> #[trigger] after.panes[i] == screen.panes[if i < at {
            i
        } else {
            i + 1
        }]);
    assert forall|any: WindowId| #[trigger] has_pane(after.panes, any) <==> has_pane(
        screen.panes,
        any,
    ) && any != id by {
        if has_pane(screen.panes, any) && any != id {
            let i = choose|i: int|
                0 <= i < screen.panes.len() && (#[trigger] screen.panes[i]).id == any;
            assert(after.panes[if i < at { i } else { i - 1 }].id == any);
        }
        if has_pane(after.panes, any) {
            let i = choose|i: int| 0 <= i < after.panes.len() && (#[trigger] after.panes[i]).id == any;
            let k = if i < at { i } else { i + 1 };
            assert(screen.panes[k].id == any);
            if k < at {
                assert(screen.panes[k].id != screen.panes[at].id);
            } else {
                assert(screen.panes[at].id != screen.panes[k].id);
            }
        }
    }
    assert forall|any: WindowId| #[trigger]
        after.app.windows.layout.root.leaves().contains(any) <==> has_pane(after.panes, any) by {
        assert(layout.root.leaves().contains(any) <==> has_pane(screen.panes, any));
    }
    assert forall|i: int, j: int| 0 <= i < j < after.panes.len() implies (
    #[trigger] after.panes[i]).id != (#[trigger] after.panes[j]).id by {
        let a = if i < at { i } else { i + 1 };
        let b = if j < at { j } else { j + 1 };
        assert(screen.panes[a].id != screen.panes[b].id);
    }
    let focus = find_pane(screen.panes, layout.active);
    let moved = if focus < at { focus } else { focus - 1 };
    assert(after.panes[moved] == screen.panes[focus]);
    lemma_find_pane(after.panes, moved);
    assert forall|d: DocumentId| #[trigger] views(after.panes, d) == views(screen.panes, d) - (
    if document == d { 1int } else { 0 }) by {
        lemma_views_remove(screen.panes, at, d);
    }
    let drop = screen.closes_with(id);
    if document != screen.app.editor.document {
        assert(screen.panes[at].document == screen.app.editor.document || has_buffer(
            screen.buffers,
            document,
        ));
        lemma_has_buffer(screen.buffers, document);
    }
    let gone = find_buffer(screen.buffers, document);
    assert forall|i: int| 0 <= i < after.buffers.len() implies (
    #[trigger] after.buffers[i]).editor.document != screen.app.editor.document by {
        let k = if drop && i >= gone { i + 1 } else { i };
        assert(after.buffers[i] == screen.buffers[k]);
    }
    assert forall|i: int, j: int| 0 <= i < j < after.buffers.len() implies (
    #[trigger] after.buffers[i]).editor.document != (#[trigger] after.buffers[j]).editor.document by {
        let a = if drop && i >= gone { i + 1 } else { i };
        let b = if drop && j >= gone { j + 1 } else { j };
        assert(after.buffers[i] == screen.buffers[a] && after.buffers[j] == screen.buffers[b]);
        assert(screen.buffers[a].editor.document != screen.buffers[b].editor.document);
    }
    assert forall|i: int| 0 <= i < after.panes.len() implies (
    #[trigger] after.panes[i]).document == after.app.editor.document || has_buffer(
        after.buffers,
        after.panes[i].document,
    ) by {
        let shown = after.panes[i].document;
        let m = if i < at { i } else { i + 1 };
        assert(screen.panes[m].document == shown);
        if shown != screen.app.editor.document {
            let k = choose|k: int|
                0 <= k < screen.buffers.len() && (#[trigger] screen.buffers[k]).editor.document
                    == shown;
            if drop {
                lemma_views_positive(after.panes, i);
                assert(shown != document);
                assert(k != gone);
                assert(after.buffers[if k < gone { k } else { k - 1 }].editor.document == shown);
            } else {
                assert(after.buffers[k].editor.document == shown);
            }
        }
    }
    assert(has_trail(screen.trails, id));
    lemma_has_trail(screen.trails, id);
    let lost = find_trail(screen.trails, id);
    let rest = without_trail(screen.trails, id);
    assert forall|i: int| 0 <= i < rest.len() implies (#[trigger] rest[i]).1.valid() by {
        assert(rest[i] == screen.trails[if i < lost { i } else { i + 1 }]);
    }
    lemma_trails_without(rest, document);
    assert forall|any: WindowId| #[trigger] has_pane(after.panes, any) implies has_trail(
        after.trails,
        any,
    ) by {
        assert(has_pane(screen.panes, any));
        let k = choose|k: int| 0 <= k < screen.trails.len() && (#[trigger] screen.trails[k]).0 == any;
        assert(k != lost);
        let m = if k < lost { k } else { k - 1 };
        assert(rest[m].0 == any);
        assert(after.trails[m].0 == any);
    }
}

/// Closing all buffers but the commit messages keeps the histories in order and
/// the others as they are.
pub proof fn lemma_parted(trails: Trails, buffers: Seq<Buffer>, drafts: Seq<Draft>)
    requires
        trails_valid(trails),
    ensures
        trails_valid(parted_trails(trails, buffers, drafts)),
        parted_trails(trails, buffers, drafts).len() == trails.len(),
        forall|i: int|
            0 <= i < trails.len() ==> (#[trigger] parted_trails(trails, buffers, drafts)[i]).0
                == trails[i].0,
        forall|document: DocumentId| #[trigger]
            mentions(parted_trails(trails, buffers, drafts), document) ==> mentions(
                trails,
                document,
            ) && (has_buffer(buffers, document) ==> is_draft(drafts, document)),
        forall|i: int|
            0 <= i < retained(buffers, drafts).len() ==> exists|j: int|
                0 <= j < buffers.len() && buffers[j] == #[trigger] retained(buffers, drafts)[i],
        forall|j: int|
            0 <= j < buffers.len() && is_draft(drafts, (#[trigger] buffers[j]).editor.document)
                ==> retained(buffers, drafts).contains(buffers[j]),
    decreases buffers.len(),
{
    if buffers.len() > 0 {
        let rest = buffers.drop_last();
        let last = buffers.last();
        lemma_parted(trails, rest, drafts);
        let so_far = parted_trails(trails, rest, drafts);
        let after = parted_trails(trails, buffers, drafts);
        lemma_trails_without(so_far, last.editor.document);
        assert forall|document: DocumentId| #[trigger] mentions(after, document) implies mentions(
            trails,
            document,
        ) && (has_buffer(buffers, document) ==> is_draft(drafts, document)) by {
            assert(mentions(so_far, document));
            if has_buffer(buffers, document) {
                let j = choose|j: int|
                    0 <= j < buffers.len() && (#[trigger] buffers[j]).editor.document == document;
                if j < rest.len() {
                    assert(rest[j].editor.document == document);
                }
            }
        }
        let before = retained(rest, drafts);
        let kept = retained(buffers, drafts);
        assert forall|i: int| 0 <= i < kept.len() implies exists|j: int|
            0 <= j < buffers.len() && buffers[j] == #[trigger] kept[i] by {
            if i < before.len() {
                let j = choose|j: int| 0 <= j < rest.len() && rest[j] == before[i];
                assert(buffers[j] == kept[i]);
            } else {
                assert(buffers[buffers.len() - 1] == kept[i]);
            }
        }
        assert forall|j: int|
            0 <= j < buffers.len() && is_draft(drafts, (#[trigger] buffers[j]).editor.document)
            implies kept.contains(buffers[j]) by {
            if j < rest.len() {
                assert(rest[j] == buffers[j]);
                assert(before.contains(rest[j]));
                let i = choose|i: int| 0 <= i < before.len() && before[i] == rest[j];
                assert(kept[i] == buffers[j]);
            } else {
                assert(kept[kept.len() - 1] == buffers[j]);
            }
        }
    }
}

/// The commit messages among different buffers are different.
proof fn lemma_retained_distinct(buffers: Seq<Buffer>, drafts: Seq<Draft>)
    requires
        forall|i: int, j: int|
            0 <= i < j < buffers.len() ==> (#[trigger] buffers[i]).editor.document
                != (#[trigger] buffers[j]).editor.document,
    ensures
        forall|i: int, j: int|
            0 <= i < j < retained(buffers, drafts).len() ==> (#[trigger] retained(
                buffers,
                drafts,
            )[i]).editor.document != (#[trigger] retained(buffers, drafts)[j]).editor.document,
    decreases buffers.len(),
{
    if buffers.len() > 0 {
        let rest = buffers.drop_last();
        assert forall|i: int, j: int| 0 <= i < j < rest.len() implies (
        #[trigger] rest[i]).editor.document != (#[trigger] rest[j]).editor.document by {
            assert(buffers[i].editor.document != buffers[j].editor.document);
        }
        lemma_retained_distinct(rest, drafts);
        lemma_parted(seq![], rest, drafts);
        let before = retained(rest, drafts);
        let kept = retained(buffers, drafts);
        assert forall|i: int, j: int| 0 <= i < j < kept.len() implies (
        #[trigger] kept[i]).editor.document != (#[trigger] kept[j]).editor.document by {
            assert(kept[i] == before[i]);
            if j < before.len() {
                assert(kept[j] == before[j]);
            } else {
                let k = choose|k: int| 0 <= k < rest.len() && rest[k] == before[i];
                assert(buffers[k].editor.document != buffers[buffers.len() - 1].editor.document);
            }
        }
    }
}

/// A single window keeps the others' order trivially.
pub proof fn lemma_alone(screen: Screen)
    requires
        screen.valid(),
    ensures
        screen.alone().valid(),
{
    reveal(Screen::alone);
    let after = screen.alone();
    let id = screen.app.window();
    lemma_focused_pane(screen);
    assert(after.panes[0].id == id);
    assert(after.app.windows.layout.root.leaves() =~= seq![id]);
    assert(screen.app.windows.layout.root.leaves().contains(id));
    assert(has_trail(screen.trails, id));
    lemma_has_trail(screen.trails, id);
    let own = seq![(id, trail_of(screen.trails, id))];
    assert(own[0].1 == screen.trails[find_trail(screen.trails, id)].1);
    let drafts = screen.app.git_write.drafts@;
    lemma_parted(own, screen.buffers, drafts);
    lemma_retained_distinct(screen.buffers, drafts);
    assert(after.trails[0].0 == id);
    lemma_find_pane(after.panes, 0);
    assert forall|i: int| 0 <= i < after.buffers.len() implies (
    #[trigger] after.buffers[i]).editor.document != screen.app.editor.document by {
        let j = choose|j: int|
            0 <= j < screen.buffers.len() && screen.buffers[j] == after.buffers[i];
        assert(screen.buffers[j].editor.document != screen.app.editor.document);
    }
    assert forall|any: WindowId| #[trigger]
        after.app.windows.layout.root.leaves().contains(any) <==> has_pane(after.panes, any) by {
        if any == id {
            assert(after.app.windows.layout.root.leaves()[0] == id);
        }
    }
}

impl App {
    /// Splits the active window and shows a prepared document in the new part,
    /// where there is one. The file has been loaded before: a file error must
    /// not leave an accidental duplicate window behind.
    pub fn split_with_path(
        &mut self,
        vertical: bool,
        prepared: Option<Prepared>,
        out: &mut Vec<Effect>,
    ) -> (result: Result<(), Error>)
        requires
            old(self).screen().valid(),
            old(self).screen().split_error(
                if vertical { Axis::Vertical } else { Axis::Horizontal },
            ) is None ==> old(self).windows.layout.next < u64::MAX && old(self).windows.next_view
                < u64::MAX - 1,
            prepared is Some ==> old(self).screen().accepts(prepared->0),
        ensures
            ({
                let screen = old(self).screen();
                let axis = if vertical { Axis::Vertical } else { Axis::Horizontal };
                match (screen.split_error(axis), prepared) {
                    (Some(error), _) => {
                        &&& result == Err::<(), Error>(error)
                        &&& *final(self) == *old(self)
                        &&& final(out)@ == old(out)@
                    },
                    (None, None) => {
                        &&& result is Ok
                        &&& final(self).is(screen.split(axis))
                        &&& final(out)@ == old(out)@ + screen.split_effects(axis)
                    },
                    (None, Some(prepared)) => {
                        &&& result is Ok
                        &&& final(self).is(screen.split(axis).replaced(prepared))
                        &&& final(out)@ == old(out)@ + screen.split_effects(axis) + screen.split(
                            axis,
                        ).replace_effects(prepared)
                    },
                }
            }),
            final(self).screen().valid(),
    {
        let ghost before = self.screen();
        let axis = if vertical { Axis::Vertical } else { Axis::Horizontal };
        match self.split_window(axis, out) {
            Ok(()) => {},
            Err(error) => {
                return Err(error);
            },
        }
        match prepared {
            Some(prepared) => {
                proof {
                    lemma_split_shares(before, axis);
                    lemma_split_layout(before, axis);
                }
                assert(self.screen().accepts(prepared));
                self.replace_window_buffer(prepared, out)
            },
            None => Ok(()),
        }
    }

    /// Closes the active window and moves the focus to the next. The last view
    /// of a document with unsaved changes is protected, but for that of a commit
    /// message, which stays open without a window. The last window of all
    /// quits instead, once every Git operation has finished and no document that
    /// is not shown has unsaved changes.
    pub fn close_window(&mut self, force: bool, out: &mut Vec<Effect>) -> (result: Result<
        (),
        Error,
    >)
        requires
            old(self).screen().valid(),
        ensures
            window_closed(*old(self), force, *final(self), old(out)@, final(out)@, result),
            final(self).screen().valid(),
    {
        proof {
            reveal(Screen::refocused);
        }
        let ghost before = self.screen();
        let id = self.windows.layout.active;
        proof {
            lemma_focused_pane(before);
            lemma_views_positive(before.panes, find_pane(before.panes, id));
        }
        let index = self.pane_index(id);
        let document = self.windows.panes[index].document;
        let view = self.windows.panes[index].view;
        let ids = self.windows.layout.ids();
        if self.views_of(document) == 1 && self.is_dirty() && !force && (ids.len() == 1
            || !self.is_commit_draft()) {
            return Err(Error::UnsavedWindow);
        }
        if ids.len() == 1 {
            match self.check_git_writes_finished() {
                Ok(()) => {},
                Err(error) => {
                    return Err(error);
                },
            }
            if !force && self.any_dirty() {
                return Err(Error::UnsavedAll);
            }
            self.quit = true;
            return Ok(());
        }
        let next = next_window(&ids, id);
        proof {
            lemma_successor(before);
        }
        self.focus_window(next, out);
        let ghost moved = self.screen();
        let ghost done = out@;
        proof {
            lemma_remembered(before);
            lemma_refocused(before, next);
            assert(has_pane(moved.panes, id)) by {
                assert(moved.panes == before.remembered().panes);
                assert(has_pane(before.panes, id));
            }
            lemma_without_window(moved, id);
        }
        self.drop_window(id, document, view, out);
        Ok(())
    }

    /// Takes away a window that does not have the focus.
    fn drop_window(
        &mut self,
        id: WindowId,
        document: DocumentId,
        view: ViewId,
        out: &mut Vec<Effect>,
    )
        requires
            old(self).screen().valid(),
            id != old(self).window(),
            has_pane(old(self).windows.panes@, id),
            document == pane_of(old(self).windows.panes@, id).document,
            view == pane_of(old(self).windows.panes@, id).view,
        ensures
            final(self).is(old(self).screen().without_window(id)),
            final(out)@ == old(out)@ + old(self).screen().without_effects(id),
            final(self).screen().valid(),
    {
        proof {
            reveal(Screen::without_window);
            reveal(Screen::without_effects);
        }
        let ghost before = self.screen();
        proof {
            lemma_without_window(before, id);
            lemma_has_pane(before.panes, id);
            assert(before.panes[find_pane(before.panes, id)].document
                == before.app.editor.document || has_buffer(before.buffers, document));
            assert(has_trail(before.trails, id));
        }
        self.windows.layout.remove(id);
        let index = self.pane_index(id);
        self.windows.panes.remove(index);
        self.jumps.forget(id);
        if document != self.editor.document && self.views_of(document) == 0 {
            if self.draft_place(document) < self.git_write.drafts.len() {
                out.push(Effect::HideBuffer(document));
            } else {
                let at = self.buffer_index(document);
                proof {
                    lemma_has_buffer(before.buffers, document);
                }
                self.windows.buffers.remove(at);
                self.jumps.remove(document);
                out.push(Effect::DropBuffer(document));
            }
        } else {
            out.push(Effect::RemoveView(document, view));
        }
        assert(self.windows.panes@ == before.without_window(id).panes);
        assert(out@ =~= old(out)@ + before.without_effects(id));
        assert(self.is(before.without_window(id)));
    }

    /// Whether a document that is not active has unsaved changes.
    fn any_dirty(&self) -> (dirty: bool)
        ensures
            dirty == self.screen().others_dirty(),
    {
        let mut i: usize = 0;
        while i < self.windows.buffers.len()
            invariant
                i <= self.windows.buffers.len(),
                forall|j: int| 0 <= j < i ==> !(#[trigger] self.windows.buffers@[j]).editor.dirty,
            decreases self.windows.buffers.len() - i,
        {
            if self.windows.buffers[i].editor.dirty {
                assert(self.screen().buffers[i as int].editor.dirty);
                return true;
            }
            i += 1;
        }
        false
    }

    /// Whether a document that is neither active nor a commit message has
    /// unsaved changes.
    fn any_at_stake(&self) -> (yes: bool)
        ensures
            yes == self.screen().others_at_stake(),
    {
        let mut i: usize = 0;
        while i < self.windows.buffers.len()
            invariant
                i <= self.windows.buffers.len(),
                forall|j: int|
                    0 <= j < i ==> !(#[trigger] self.windows.buffers@[j]).editor.dirty
                        || self.screen().retains(self.windows.buffers@[j].editor.document),
            decreases self.windows.buffers.len() - i,
        {
            if self.windows.buffers[i].editor.dirty && self.draft_place(
                self.windows.buffers[i].editor.document,
            ) >= self.git_write.drafts.len() {
                assert(self.screen().buffers[i as int].editor.dirty);
                return true;
            }
            i += 1;
        }
        false
    }

    /// Closes every document but the active one and the commit messages.
    fn part(&mut self, out: &mut Vec<Effect>)
        requires
            trails_valid(old(self).jumps@),
        ensures
            ({
                let buffers = old(self).windows.buffers@;
                let drafts = old(self).git_write.drafts@;
                &&& *final(self) == (App {
                    windows: State {
                        buffers: final(self).windows.buffers,
                        ..old(self).windows
                    },
                    jumps: final(self).jumps,
                    ..*old(self)
                })
                &&& final(self).windows.buffers@ == retained(buffers, drafts)
                &&& final(self).jumps@ == parted_trails(old(self).jumps@, buffers, drafts)
                &&& final(out)@ == old(out)@ + parting_effects(buffers, drafts)
            }),
            trails_valid(final(self).jumps@),
    {
        let ghost all = self.windows.buffers@;
        let ghost drafts = self.git_write.drafts@;
        let ghost mut done: int = 0;
        let mut i: usize = 0;
        assert(all.take(0) =~= seq![]);
        assert(all.skip(0) =~= all);
        assert(self.windows.buffers@ =~= retained(all.take(0), drafts) + all.skip(0));
        assert(out@ =~= old(out)@ + parting_effects(all.take(0), drafts));
        while i < self.windows.buffers.len()
            invariant
                0 <= done <= all.len(),
                drafts == self.git_write.drafts@,
                i == retained(all.take(done), drafts).len(),
                self.windows.buffers@ == retained(all.take(done), drafts) + all.skip(done),
                *self == (App {
                    windows: State { buffers: self.windows.buffers, ..old(self).windows },
                    jumps: self.jumps,
                    ..*old(self)
                }),
                self.jumps@ == parted_trails(old(self).jumps@, all.take(done), drafts),
                out@ == old(out)@ + parting_effects(all.take(done), drafts),
                trails_valid(self.jumps@),
            decreases self.windows.buffers.len() - i,
        {
            let ghost so_far = all.take(done + 1);
            let ghost kept = retained(all.take(done), drafts);
            proof {
                assert(so_far.drop_last() =~= all.take(done));
                assert(so_far.last() == all[done]);
                assert(self.windows.buffers@[i as int] == all.skip(done)[0]);
            }
            let document = self.windows.buffers[i].editor.document;
            if self.draft_place(document) < self.git_write.drafts.len() {
                out.push(Effect::HideBuffer(document));
                i += 1;
                assert(self.windows.buffers@ =~= kept.push(all[done]) + all.skip(done + 1));
            } else {
                self.windows.buffers.remove(i);
                self.jumps.remove(document);
                out.push(Effect::DropBuffer(document));
                assert(self.windows.buffers@ =~= kept + all.skip(done + 1));
            }
            proof {
                done = done + 1;
                assert(out@ =~= old(out)@ + parting_effects(so_far, drafts));
            }
        }
        assert(all.take(done) =~= all);
    }

    /// Leaves the active window alone; the documents of the others are closed,
    /// unless one of them has unsaved changes. Commit messages stay open.
    pub fn only_window(&mut self, force: bool, out: &mut Vec<Effect>) -> (result: Result<
        (),
        Error,
    >)
        requires
            old(self).screen().valid(),
        ensures
            window_left_alone(*old(self), force, *final(self), old(out)@, final(out)@, result),
            final(self).screen().valid(),
    {
        proof {
            reveal(Screen::alone);
            reveal(Screen::alone_effects);
        }
        let ghost before = self.screen();
        if !force && self.any_at_stake() {
            return Err(Error::UnsavedOther);
        }
        proof {
            lemma_focused_pane(before);
            lemma_alone(before);
            assert(has_trail(before.trails, before.app.window()));
        }
        let id = self.windows.layout.active;
        self.windows.layout.only();
        let index = self.pane_index(id);
        let pane = self.windows.panes.remove(index);
        let mut panes = Vec::new();
        panes.push(pane);
        self.windows.panes = panes;
        self.jumps.retain(id);
        self.part(out);
        out.push(Effect::RetainActiveView);
        assert(self.windows.panes@ =~= before.alone().panes);
        assert(out@ =~= old(out)@ + before.alone_effects());
        assert(self.is(before.alone()));
        Ok(())
    }

    /// Quits, unless a Git operation is unfinished or a document has unsaved
    /// changes.
    pub fn quit_all(&mut self, force: bool) -> (result: Result<(), Error>)
        ensures
            quit_decided(*old(self), force, *final(self), result),
    {
        match self.check_git_writes_finished() {
            Ok(()) => {},
            Err(error) => {
                return Err(error);
            },
        }
        if !force && (self.is_dirty() || self.any_dirty()) {
            return Err(Error::UnsavedAll);
        }
        self.quit = true;
        Ok(())
    }
}

/// The window behind another in a list, around its end.
fn next_window(ids: &Vec<WindowId>, id: WindowId) -> (next: WindowId)
    requires
        ids@.contains(id),
    ensures
        ({
            let at = ids@.index_of_first(id)->0;
            &&& next == ids@[if at + 1 == ids@.len() { 0 } else { at + 1 }]
            &&& ids@.contains(next)
            &&& ids@.no_duplicates() && ids@.len() > 1 ==> next != id
        }),
{
    let mut i: usize = 0;
    proof {
        ids@.index_of_first_ensures(id);
    }
    while i < ids.len() && ids[i] != id
        invariant
            i <= ids.len(),
            ids@.contains(id),
            forall|j: int| 0 <= j < i ==> ids@[j] != id,
        decreases ids.len() - i,
    {
        i += 1;
    }
    let next: usize = if i + 1 >= ids.len() { 0 } else { i + 1 };
    ids[next]
}

/// After a split two windows show the active document, and no other document
/// has come or gone.
pub proof fn lemma_split_shares(screen: Screen, axis: Axis)
    requires
        screen.valid(),
        screen.split_error(axis) is None,
        screen.app.windows.layout.next < u64::MAX,
    ensures
        screen.split(axis).app.editor == screen.app.editor,
        screen.split(axis).buffers == screen.buffers,
        views(screen.split(axis).panes, screen.app.editor.document) >= 2,
        !screen.split(axis).would_lose(),
{
    reveal(Screen::widened);
    reveal(Screen::refocused);
    let wide = screen.widened(axis);
    let id = screen.app.windows.layout.next;
    lemma_widened(screen, axis);
    lemma_remembered(wide);
    lemma_has_pane(wide.panes, id);
    let last = screen.panes.len() as int;
    assert(wide.panes[last].id == id);
    lemma_find_pane(wide.panes, last);
}

/// The layout and the views after a split.
pub proof fn lemma_split_layout(screen: Screen, axis: Axis)
    ensures
        ({
            let after = screen.split(axis).app;
            &&& after.windows.layout == (Layout {
                root: screen.app.windows.layout.split_root(axis),
                active: screen.app.windows.layout.next,
                next: (screen.app.windows.layout.next + 1) as u64,
            })
            &&& after.size == screen.app.size
            &&& after.windows.next_view == (screen.app.windows.next_view + 1) as u64
        }),
{
    reveal(Screen::widened);
    reveal(Screen::refocused);
}

/// Showing another document takes one view and no window.
pub proof fn lemma_replaced_layout(screen: Screen, prepared: Prepared)
    requires
        screen.app.windows.next_view < u64::MAX,
    ensures
        ({
            let after = screen.replaced(prepared).app;
            &&& after.windows.layout == screen.app.windows.layout
            &&& after.size == screen.app.size
            &&& after.windows.next_view <= screen.app.windows.next_view + 1
        }),
{
    reveal(Screen::replaced);
}

/// Whether the application quits, or refuses to.
pub open spec fn quit_decided(
    before: App,
    force: bool,
    now: App,
    result: Result<(), Error>,
) -> bool {
    if before.git_write.pending@.len() > 0 {
        result == Err::<(), Error>(Error::GitBusyQuitting) && now == before
    } else if !force && (before.editor.dirty || before.screen().others_dirty()) {
        result == Err::<(), Error>(Error::UnsavedAll) && now == before
    } else {
        result is Ok && now == (App { quit: true, ..before })
    }
}

/// Whether the active window was closed, or refused to be.
pub open spec fn window_closed(
    before: App,
    force: bool,
    now: App,
    asked: Seq<Effect>,
    asks: Seq<Effect>,
    result: Result<(), Error>,
) -> bool {
    let screen = before.screen();
    if screen.would_lose() && !force {
        &&& result == Err::<(), Error>(Error::UnsavedWindow)
        &&& now == before
        &&& asks == asked
    } else if screen.app.windows.layout.root.leaves().len() == 1 {
        &&& asks == asked
        &&& if screen.app.git_write.pending@.len() > 0 {
            &&& result == Err::<(), Error>(Error::GitBusyQuitting)
            &&& now == before
        } else if screen.others_dirty() && !force {
            &&& result == Err::<(), Error>(Error::UnsavedAll)
            &&& now == before
        } else {
            &&& result is Ok
            &&& now == (App { quit: true, ..before })
        }
    } else {
        let id = screen.app.window();
        let next = screen.refocused(screen.successor());
        &&& result is Ok
        &&& now.is(next.without_window(id))
        &&& asks == asked + screen.focus_effects(screen.successor())
            + next.without_effects(id)
    }
}

/// Whether the active window was left alone, or refused to be.
pub open spec fn window_left_alone(
    before: App,
    force: bool,
    now: App,
    asked: Seq<Effect>,
    asks: Seq<Effect>,
    result: Result<(), Error>,
) -> bool {
    let screen = before.screen();
    if !force && screen.others_at_stake() {
        &&& result == Err::<(), Error>(Error::UnsavedOther)
        &&& now == before
        &&& asks == asked
    } else {
        &&& result is Ok
        &&& now.is(screen.alone())
        &&& asks == asked + screen.alone_effects()
    }
}

} // verus!
