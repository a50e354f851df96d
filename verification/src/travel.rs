//! Window commands: moving the focus, trading places, opening files in new
//! windows.

use crate::app::App;
use crate::editor::FileId;
use crate::effect::Effect;
use crate::error::Error;
use crate::find::{first_where, lemma_is_first};
use crate::language::same_id;
use crate::layout::{
    law_swap_permutes_the_windows, neighbor_of, Axis, Direction, Layout, WindowId, MAX_WINDOWS,
};
use crate::selection::DocumentId;
use crate::windows::{
    find_buffer, has_buffer, has_pane, lemma_has_buffer, lemma_replaced, lemma_replaced_layout,
    lemma_split_layout, lemma_split_shares, views, Buffer, Prepared, Screen, State,
};
use vstd::prelude::*;

verus! {

/// A window command of the keymap.
#[derive(Clone, Copy, Debug, PartialEq, Eq, Structural)]
pub enum WindowAction {
    SplitVertical,
    SplitHorizontal,
    Close,
    Only,
    OpenHorizontal,
    OpenVertical,
    Rotate,
    FocusLeft,
    FocusDown,
    FocusUp,
    FocusRight,
    SwapLeft,
    SwapDown,
    SwapUp,
    SwapRight,
}

impl WindowAction {
    /// The direction of a command that moves, and whether it takes the window
    /// along.
    pub open spec fn course(self) -> Option<(Direction, bool)> {
        match self {
            WindowAction::FocusLeft => Some((Direction::Left, false)),
            WindowAction::FocusDown => Some((Direction::Down, false)),
            WindowAction::FocusUp => Some((Direction::Up, false)),
            WindowAction::FocusRight => Some((Direction::Right, false)),
            WindowAction::SwapLeft => Some((Direction::Left, true)),
            WindowAction::SwapDown => Some((Direction::Down, true)),
            WindowAction::SwapUp => Some((Direction::Up, true)),
            WindowAction::SwapRight => Some((Direction::Right, true)),
            _ => None,
        }
    }
}

impl Screen {
    /// The window next to the active one in a direction.
    pub open spec fn neighbor(self, direction: Direction) -> Option<WindowId> {
        neighbor_of(self.app.windows.layout.shown(self.app.area()), self.app.window(), direction)
    }

    /// The screen on which the active window and another have traded places.
    pub open spec fn swapped(self, other: WindowId) -> Screen {
        Screen {
            app: App {
                windows: State {
                    layout: Layout {
                        root: self.app.windows.layout.root.with_swap(self.app.window(), other),
                        ..self.app.windows.layout
                    },
                    ..self.app.windows
                },
                ..self.app
            },
            ..self
        }
    }

    /// The screen after going a number of windows in a direction, or as far as
    /// there are any.
    pub open spec fn walked(self, direction: Direction, swap: bool, steps: nat) -> Screen
        decreases steps,
    {
        if steps == 0 {
            self
        } else {
            match self.neighbor(direction) {
                Some(other) => if swap {
                    self.swapped(other).walked(direction, swap, (steps - 1) as nat)
                } else {
                    self.refocused(other).walked(direction, swap, (steps - 1) as nat)
                },
                None => self,
            }
        }
    }

    /// What going in a direction asks for.
    pub open spec fn walk_effects(self, direction: Direction, swap: bool, steps: nat) -> Seq<Effect>
        decreases steps,
    {
        if steps == 0 || swap {
            seq![]
        } else {
            match self.neighbor(direction) {
                Some(other) => self.focus_effects(other) + self.refocused(other).walk_effects(
                    direction,
                    swap,
                    (steps - 1) as nat,
                ),
                None => seq![],
            }
        }
    }

    /// The window a number of places behind the active one, around the end.
    pub open spec fn rotated(self, count: usize) -> WindowId {
        let leaves = self.app.windows.layout.root.leaves();
        let at = leaves.index_of_first(self.app.window())->0;
        leaves[(at + count as int % leaves.len() as int) % leaves.len() as int]
    }

    /// The layouts of a number of splits, one after the other, each of the
    /// part that the one before made.
    pub open spec fn split_layout(self, axis: Axis, steps: nat) -> Layout
        decreases steps,
    {
        if steps == 0 {
            self.app.windows.layout
        } else {
            let layout = self.split_layout(axis, (steps - 1) as nat);
            Layout {
                root: layout.split_root(axis),
                active: layout.next,
                next: (layout.next + 1) as u64,
            }
        }
    }
}

/// Why the first of some files cannot be opened, each in a new window: there
/// is no room for the window, or the file cannot be loaded.
pub open spec fn first_refusal(
    screen: Screen,
    axis: Axis,
    files: Seq<Result<Prepared, Error>>,
    from: nat,
) -> Option<Error>
    decreases files.len() - from,
{
    if from >= files.len() {
        None
    } else {
        match (at_layout(screen, axis, from).split_error(axis), files[from as int]) {
            (Some(error), _) => Some(error),
            (None, Err(error)) => Some(error),
            (None, Ok(_)) => first_refusal(screen, axis, files, from + 1),
        }
    }
}

impl App {
    /// Lets the active window and another trade places.
    fn swap_window(&mut self, other: WindowId)
        requires
            old(self).screen().valid(),
            old(self).windows.layout.root.leaves().contains(other),
        ensures
            final(self).is(old(self).screen().swapped(other)),
            final(self).screen().valid(),
    {
        let ghost before = self.screen();
        self.windows.layout.swap(other);
        proof {
            law_swap_permutes_the_windows(before.app.windows.layout, other);
            let after = self.screen();
            let old_root = before.app.windows.layout.root;
            let new_root = after.app.windows.layout.root;
            assert forall|id: WindowId| #[trigger]
                after.app.windows.layout.root.leaves().contains(id) <==> has_pane(
                after.panes,
                id,
            ) by {
                assert(new_root.leaves().contains(id) <==> old_root.leaves().contains(id));
            }
        }
    }

    /// Goes a number of windows in a direction, or as far as there are any.
    fn walk(&mut self, direction: Direction, swap: bool, steps: usize, out: &mut Vec<Effect>)
        requires
            old(self).screen().valid(),
        ensures
            final(self).is(old(self).screen().walked(direction, swap, steps as nat)),
            final(out)@ == old(out)@ + old(self).screen().walk_effects(
                direction,
                swap,
                steps as nat,
            ),
            final(self).screen().valid(),
    {
        let ghost start = self.screen();
        let ghost whole = start.walk_effects(direction, swap, steps as nat);
        let mut left: usize = steps;
        assert(out@ + whole =~= old(out)@ + whole);
        while left > 0
            invariant
                left <= steps,
                self.screen().valid(),
                self.screen().walked(direction, swap, left as nat) == start.walked(
                    direction,
                    swap,
                    steps as nat,
                ),
                out@ + self.screen().walk_effects(direction, swap, left as nat) == old(out)@
                    + whole,
            ensures
                self.screen().valid(),
                self.screen() == start.walked(direction, swap, steps as nat),
                out@ == old(out)@ + whole,
            decreases left,
        {
            let ghost here = self.screen();
            let ghost done = out@;
            let area = self.window_area();
            match self.windows.layout.neighbor(direction, area) {
                Some(other) => {
                    assert(here.neighbor(direction) == Some(other));
                    assert(here.app.windows.layout.root.leaves().contains(other));
                    assert(has_pane(here.panes, other));
                    if swap {
                        self.swap_window(other);
                        assert(out@ + self.screen().walk_effects(
                            direction,
                            swap,
                            (left - 1) as nat,
                        ) =~= done + here.walk_effects(direction, swap, left as nat));
                    } else {
                        self.focus_window(other, out);
                        assert(out@ + self.screen().walk_effects(
                            direction,
                            swap,
                            (left - 1) as nat,
                        ) =~= done + here.walk_effects(direction, swap, left as nat));
                    }
                },
                None => {
                    assert(here.neighbor(direction) is None);
                    assert(out@ =~= done + here.walk_effects(direction, swap, left as nat));
                    break;
                },
            }
            left -= 1;
            assert(left == 0 ==> out@ + self.screen().walk_effects(direction, swap, 0) =~= out@);
        }
    }

    /// Moves the focus a number of windows on in the layout, around its end.
    fn rotate(&mut self, count: usize, out: &mut Vec<Effect>)
        requires
            old(self).screen().valid(),
        ensures
            ({
                let screen = old(self).screen();
                &&& final(self).is(screen.refocused(screen.rotated(count)))
                &&& final(out)@ == old(out)@ + screen.focus_effects(screen.rotated(count))
            }),
            final(self).screen().valid(),
    {
        let ghost screen = self.screen();
        let ids = self.windows.layout.ids();
        let active = self.windows.layout.active;
        let mut at: usize = 0;
        proof {
            ids@.index_of_first_ensures(active);
        }
        while at < ids.len() && ids[at] != active
            invariant
                at <= ids.len(),
                ids@.contains(active),
                forall|j: int| 0 <= j < at ==> ids@[j] != active,
            decreases ids.len() - at,
        {
            at += 1;
        }
        let len = ids.len();
        let step: usize = count % len;
        let sum: usize = at + step;
        let target: usize = sum % len;
        let id = ids[target];
        proof {
            assert(ids@.contains(id));
            assert(has_pane(screen.panes, id));
        }
        self.focus_window(id, out);
    }
}

/// Where a document with this file is among the buffers.
pub open spec fn find_file(buffers: Seq<Buffer>, file: Option<FileId>) -> int {
    first_where(buffers, |buffer: Buffer| buffer.editor.file == file)
}

impl Screen {
    /// Whether a document is open.
    pub open spec fn is_open(self, document: DocumentId) -> bool {
        document == self.app.editor.document || has_buffer(self.buffers, document)
    }

    /// The open document with a file, where there is one.
    pub open spec fn document_of(self, file: Option<FileId>) -> Option<DocumentId> {
        if self.app.editor.file == file {
            Some(self.app.editor.document)
        } else if find_file(self.buffers, file) < self.buffers.len() {
            Some(self.buffers[find_file(self.buffers, file)].editor.document)
        } else {
            None
        }
    }

    /// The document to show for a prepared one: one that is open already, where
    /// its file was opened under another name meanwhile.
    pub open spec fn aliased(self, prepared: Prepared) -> Prepared {
        match prepared {
            Prepared::New(buffer) => match self.document_of(buffer.editor.file) {
                Some(document) => Prepared::Existing(document),
                None => prepared,
            },
            Prepared::Existing(_) => prepared,
        }
    }

    /// The screen after the first of some files were opened, each in a new
    /// window.
    pub open spec fn opened(
        self,
        axis: Axis,
        files: Seq<Result<Prepared, Error>>,
        count: nat,
    ) -> Screen
        decreases count,
    {
        if count == 0 {
            self
        } else {
            let split = self.opened(axis, files, (count - 1) as nat).split(axis);
            split.replaced(split.aliased(files[count - 1]->Ok_0))
        }
    }

    /// What opening files in new windows asks for.
    pub open spec fn open_effects(
        self,
        axis: Axis,
        files: Seq<Result<Prepared, Error>>,
        count: nat,
    ) -> Seq<Effect>
        decreases count,
    {
        if count == 0 {
            seq![]
        } else {
            let before = self.opened(axis, files, (count - 1) as nat);
            let split = before.split(axis);
            self.open_effects(axis, files, (count - 1) as nat) + before.split_effects(axis)
                + split.replace_effects(split.aliased(files[count - 1]->Ok_0))
        }
    }

    /// Whether prepared files can be shown: an existing document is open, and a
    /// new one is neither open nor prepared twice.
    pub open spec fn accepts_all(self, files: Seq<Result<Prepared, Error>>) -> bool {
        &&& forall|i: int|
            0 <= i < files.len() ==> match #[trigger] files[i] {
                Ok(prepared) => self.accepts(prepared),
                Err(_) => true,
            }
        &&& forall|i: int, j: int|
            0 <= i < j < files.len() ==> match (#[trigger] files[i], #[trigger] files[j]) {
                (Ok(Prepared::New(a)), Ok(Prepared::New(b))) => a.editor.document
                    != b.editor.document,
                _ => true,
            }
    }
}

/// What is open once the active window of a split shows another document: that
/// one, and all that was open before.
proof fn lemma_replaced_open(screen: Screen, prepared: Prepared, document: DocumentId)
    requires
        screen.accepts(prepared),
        views(screen.panes, screen.app.editor.document) > 1,
    ensures
        screen.replaced(prepared).is_open(document) <==> screen.is_open(document) || document
            == Screen::prepared_document(prepared),
{
    reveal(Screen::replaced);
    reveal(Screen::keeps_document);
    if !screen.shows(prepared) {
        let after = screen.replaced(prepared);
        let old = screen.app.editor.document;
        let new = Screen::prepared_document(prepared);
        let last = after.buffers.len() - 1;
        assert(after.buffers[last].editor.document == old);
        if prepared is Existing {
            lemma_has_buffer(screen.buffers, new);
        }
        let gone = find_buffer(screen.buffers, new);
        if has_buffer(screen.buffers, document) && document != new {
            let k = choose|k: int|
                0 <= k < screen.buffers.len() && (#[trigger] screen.buffers[k]).editor.document
                    == document;
            let m = if prepared is Existing && k > gone { k - 1 } else { k };
            assert(after.buffers[m].editor.document == document);
        }
        if document == old {
            assert(has_buffer(after.buffers, document));
        }
        if has_buffer(after.buffers, document) {
            let m = choose|m: int|
                0 <= m < after.buffers.len() && (#[trigger] after.buffers[m]).editor.document
                    == document;
            if m < last {
                let k = if prepared is Existing && m >= gone { m + 1 } else { m };
                assert(screen.buffers[k].editor.document == document);
            }
        }
    }
}

impl App {
    /// The open document with a file, where there is one.
    pub fn document_with_file(&self, file: Option<FileId>) -> (document: Option<DocumentId>)
        ensures
            document == self.screen().document_of(file),
            document is Some ==> self.screen().is_open(document->0),
    {
        if same_id(self.editor.file, file) {
            return Some(self.editor.document);
        }
        let mut i: usize = 0;
        while i < self.windows.buffers.len() && !same_id(self.windows.buffers[i].editor.file, file)
            invariant
                i <= self.windows.buffers.len(),
                forall|j: int|
                    0 <= j < i ==> (#[trigger] self.windows.buffers@[j]).editor.file != file,
            decreases self.windows.buffers.len() - i,
        {
            i += 1;
        }
        proof {
            lemma_is_first(
                self.windows.buffers@,
                |buffer: Buffer| buffer.editor.file == file,
                i as int,
            );
        }
        if i < self.windows.buffers.len() {
            assert(self.screen().buffers[i as int].editor.document
                == self.windows.buffers@[i as int].editor.document);
            Some(self.windows.buffers[i].editor.document)
        } else {
            None
        }
    }

    /// The document to show for a prepared one.
    fn resolve_alias(&self, prepared: Prepared) -> (resolved: Prepared)
        requires
            self.screen().accepts(prepared),
        ensures
            resolved == self.screen().aliased(prepared),
            self.screen().accepts(resolved),
    {
        match prepared {
            Prepared::New(buffer) => match self.document_with_file(buffer.editor.file) {
                Some(document) => Prepared::Existing(document),
                None => Prepared::New(buffer),
            },
            Prepared::Existing(id) => Prepared::Existing(id),
        }
    }

    /// Validates that every file can be opened in a window of its own. Returns
    /// the files, or the first refusal.
    #[verifier::loop_isolation(false)]
    fn check_selected(
        &self,
        axis: Axis,
        files: Vec<Result<Prepared, Error>>,
    ) -> (ready: Result<Vec<Prepared>, Error>)
        requires
            self.windows.layout.next + files@.len() <= u64::MAX,
            self.windows.layout.valid(),
        ensures
            match (first_refusal(self.screen(), axis, files@, 0), ready) {
                (Some(error), Err(found)) => found == error,
                (None, Ok(ready)) => {
                    &&& ready@.len() == files@.len()
                    &&& forall|i: int|
                        0 <= i < files@.len() ==> #[trigger] files@[i] == Ok::<Prepared, Error>(
                            ready@[i],
                        )
                    &&& forall|i: nat|
                        i < files@.len() ==> (#[trigger] at_layout(
                            self.screen(),
                            axis,
                            i,
                        )).split_error(axis) is None
                },
                _ => false,
            },
    {
        let ghost all = files@;
        let ghost screen = self.screen();
        let total = files.len();
        let mut files = files;
        let mut ready: Vec<Prepared> = Vec::new();
        let mut proposed = self.windows.layout.duplicate();
        let area = self.window_area();
        let mut i: usize = 0;
        assert(all.skip(0) =~= all);
        while i < total
            invariant
                i <= total,
                total == all.len(),
                screen == self.screen(),
                area == screen.app.area(),
                screen.app.windows.layout.next + all.len() <= u64::MAX,
                files@ == all.skip(i as int),
                ready@.len() == i,
                forall|j: int| 0 <= j < i ==> #[trigger] all[j] == Ok::<Prepared, Error>(ready@[j]),
                proposed == screen.split_layout(axis, i as nat),
                proposed.next == screen.app.windows.layout.next + i,
                first_refusal(screen, axis, all, 0) == first_refusal(screen, axis, all, i as nat),
                forall|j: nat|
                    j < i ==> (#[trigger] at_layout(screen, axis, j)).split_error(axis) is None,
            decreases total - i,
        {
            let ghost here = at_layout(screen, axis, i as nat);
            match proposed.split(axis, area) {
                Ok(id) => {
                    proposed.active = id;
                },
                Err(error) => {
                    assert(here.split_error(axis) == Some(error));
                    return Err(error);
                },
            }
            assert(here.split_error(axis) is None);
            assert(proposed == screen.split_layout(axis, (i + 1) as nat));
            match files.remove(0) {
                Ok(prepared) => {
                    ready.push(prepared);
                    assert(all[i as int] == Ok::<Prepared, Error>(prepared));
                },
                Err(error) => {
                    assert(all[i as int] == Err::<Prepared, Error>(error));
                    return Err(error);
                },
            }
            i += 1;
            assert(files@ =~= all.skip(i as int));
        }
        Ok(ready)
    }

    /// Opens a file in a new window.
    fn open_one(&mut self, axis: Axis, prepared: Prepared, out: &mut Vec<Effect>)
        requires
            old(self).screen().valid(),
            old(self).screen().split_error(axis) is None,
            old(self).screen().accepts(prepared),
            old(self).windows.layout.next < u64::MAX,
            old(self).windows.next_view < u64::MAX - 1,
        ensures
            ({
                let split = old(self).screen().split(axis);
                let shown = split.aliased(prepared);
                &&& final(self).is(split.replaced(shown))
                &&& final(out)@ == old(out)@ + old(self).screen().split_effects(axis)
                    + split.replace_effects(shown)
                &&& final(self).windows.layout == (Layout {
                    root: old(self).windows.layout.split_root(axis),
                    active: old(self).windows.layout.next,
                    next: (old(self).windows.layout.next + 1) as u64,
                })
                &&& final(self).size == old(self).size
                &&& final(self).windows.next_view <= old(self).windows.next_view + 2
                &&& forall|d: DocumentId|
                    old(self).screen().is_open(d) ==> #[trigger] final(self).screen().is_open(d)
                &&& forall|d: DocumentId| #[trigger]
                    final(self).screen().is_open(d) ==> old(self).screen().is_open(d) || d
                        == Screen::prepared_document(prepared)
            }),
            final(self).screen().valid(),
    {
        let ghost here = self.screen();
        proof {
            lemma_split_shares(here, axis);
            lemma_split_layout(here, axis);
        }
        let _ = self.split_window(axis, out);
        let ghost split = self.screen();
        let shown = self.resolve_alias(prepared);
        proof {
            lemma_replaced(split, shown);
            lemma_replaced_layout(split, shown);
            assert forall|d: DocumentId| #[trigger] split.replaced(shown).is_open(d)
                <==> split.is_open(d) || d == Screen::prepared_document(shown) by {
                lemma_replaced_open(split, shown, d);
            }
            assert(split.is_open(Screen::prepared_document(shown)) || shown == prepared);
        }
        let _ = self.replace_window_buffer(shown, out);
    }

    /// Opens files, each in a new window. All splits and files are validated
    /// before the layout changes, so that a failure changes nothing.
    pub fn open_selected_files(
        &mut self,
        axis: Axis,
        files: Vec<Result<Prepared, Error>>,
        out: &mut Vec<Effect>,
    ) -> (result: Result<(), Error>)
        requires
            old(self).screen().valid(),
            old(self).windows.layout.next + files@.len() <= u64::MAX,
            old(self).windows.next_view + 2 * files@.len() <= u64::MAX,
            old(self).screen().accepts_all(files@),
        ensures
            ({
                let screen = old(self).screen();
                match first_refusal(screen, axis, files@, 0) {
                    Some(error) => {
                        &&& result == Err::<(), Error>(error)
                        &&& *final(self) == *old(self)
                        &&& final(out)@ == old(out)@
                    },
                    None => {
                        &&& result is Ok
                        &&& final(self).is(screen.opened(axis, files@, files@.len()))
                        &&& final(out)@ == old(out)@ + screen.open_effects(
                            axis,
                            files@,
                            files@.len(),
                        )
                    },
                }
            }),
            final(self).screen().valid(),
    {
        let ghost all = files@;
        let ghost start = self.screen();
        let ready = match self.check_selected(axis, files) {
            Ok(ready) => ready,
            Err(error) => {
                return Err(error);
            },
        };
        let ghost kept = ready@;
        let total = ready.len();
        let mut ready = ready;
        let mut i: usize = 0;
        assert(kept.skip(0) =~= kept);
        assert(out@ =~= old(out)@ + start.open_effects(axis, all, 0));
        assert forall|j: int| 0 <= j < all.len() implies match #[trigger] kept[j] {
            Prepared::New(buffer) => !start.is_open(buffer.editor.document),
            Prepared::Existing(id) => true,
        } by {
            assert(all[j] == Ok::<Prepared, Error>(kept[j]));
        }
        while i < total
            invariant
                i <= total,
                total == all.len(),
                total == kept.len(),
                ready@ == kept.skip(i as int),
                forall|j: int|
                    0 <= j < all.len() ==> #[trigger] all[j] == Ok::<Prepared, Error>(kept[j]),
                start.accepts_all(all),
                start.app.windows.layout.next + all.len() <= u64::MAX,
                start.app.windows.next_view + 2 * all.len() <= u64::MAX,
                self.screen() == start.opened(axis, all, i as nat),
                self.screen().valid(),
                self.windows.layout == start.split_layout(axis, i as nat),
                self.windows.layout.next == start.app.windows.layout.next + i,
                self.size == start.app.size,
                self.windows.next_view <= start.app.windows.next_view + 2 * i,
                out@ == old(out)@ + start.open_effects(axis, all, i as nat),
                forall|d: DocumentId| #[trigger] start.is_open(d) ==> self.screen().is_open(d),
                forall|j: int|
                    i <= j < all.len() ==> match #[trigger] kept[j] {
                        Prepared::New(buffer) => !self.screen().is_open(buffer.editor.document),
                        Prepared::Existing(id) => true,
                    },
                forall|j: nat|
                    j < all.len() ==> (#[trigger] at_layout(start, axis, j)).split_error(axis)
                        is None,
            decreases total - i,
        {
            let ghost here = self.screen();
            let prepared = ready.remove(0);
            assert(ready@ =~= kept.skip(i + 1));
            assert(prepared == kept[i as int]);
            assert(all[i as int] == Ok::<Prepared, Error>(prepared));
            assert(start.accepts(prepared));
            assert(at_layout(start, axis, i as nat).split_error(axis) is None);
            assert(here.accepts(prepared)) by {
                match prepared {
                    Prepared::Existing(id) => {
                        assert(start.is_open(id));
                    },
                    Prepared::New(buffer) => {},
                }
            }
            self.open_one(axis, prepared, out);
            proof {
                assert(out@ =~= old(out)@ + start.open_effects(axis, all, (i + 1) as nat));
                assert forall|j: int| i + 1 <= j < all.len() implies match #[trigger] kept[j] {
                    Prepared::New(buffer) => !self.screen().is_open(buffer.editor.document),
                    Prepared::Existing(id) => true,
                } by {
                    match kept[j] {
                        Prepared::New(buffer) => {
                            assert(all[j] == Ok::<Prepared, Error>(kept[j]));
                            assert(match (all[i as int], all[j]) {
                                (Ok(Prepared::New(a)), Ok(Prepared::New(b))) => a.editor.document
                                    != b.editor.document,
                                _ => true,
                            });
                            match prepared {
                                Prepared::New(other) => {},
                                Prepared::Existing(id) => {
                                    assert(start.is_open(id));
                                },
                            }
                        },
                        Prepared::Existing(_) => {},
                    }
                }
            }
            i += 1;
        }
        Ok(())
    }

    fn close_active(&mut self, out: &mut Vec<Effect>) -> (result: Result<(), Error>)
        requires
            old(self).screen().valid(),
        ensures
            closed(
                old(self).screen(),
                final(self).screen(),
                old(out)@,
                final(out)@,
                result,
            ),
            final(self).screen().valid(),
    {
        proof {
            reveal(closed);
        }
        let ghost before = self.screen();
        let result = self.close_window(false, out);
        assert(old(out)@ + Seq::<Effect>::empty() =~= old(out)@);
        assert(out@ =~= old(out)@ + (before.focus_effects(before.successor()) + before.refocused(
            before.successor(),
        ).without_effects(before.app.window())) || out@ == old(out)@);
        result
    }

    /// Carries out a window command. `selected` are the files named by the
    /// selections, for the commands that open them.
    pub fn window_action(
        &mut self,
        action: WindowAction,
        count: usize,
        selected: Result<Vec<Result<Prepared, Error>>, Error>,
        out: &mut Vec<Effect>,
    ) -> (result: Result<(), Error>)
        requires
            old(self).screen().valid(),
            selected matches Ok(files) ==> {
                &&& old(self).windows.layout.next + files@.len() < u64::MAX
                &&& old(self).windows.next_view + 2 * files@.len() < u64::MAX
                &&& old(self).screen().accepts_all(files@)
            },
            old(self).windows.layout.next < u64::MAX,
            old(self).windows.next_view < u64::MAX,
        ensures
            window_action_done(
                old(self).screen(),
                action,
                count,
                selected,
                final(self).screen(),
                old(out)@,
                final(out)@,
                result,
            ),
            final(self).screen().valid(),
    {
        match action {
            WindowAction::SplitVertical => self.split_window(Axis::Vertical, out),
            WindowAction::SplitHorizontal => self.split_window(Axis::Horizontal, out),
            WindowAction::Close => self.close_active(out),
            WindowAction::Only => self.only_window(false, out),
            WindowAction::OpenHorizontal => match selected {
                Ok(files) => self.open_selected_files(Axis::Horizontal, files, out),
                Err(error) => Err(error),
            },
            WindowAction::OpenVertical => match selected {
                Ok(files) => self.open_selected_files(Axis::Vertical, files, out),
                Err(error) => Err(error),
            },
            WindowAction::Rotate => {
                self.rotate(count, out);
                Ok(())
            },
            _ => {
                let (direction, swap) = match action {
                    WindowAction::FocusLeft => (Direction::Left, false),
                    WindowAction::FocusDown => (Direction::Down, false),
                    WindowAction::FocusUp => (Direction::Up, false),
                    WindowAction::FocusRight => (Direction::Right, false),
                    WindowAction::SwapLeft => (Direction::Left, true),
                    WindowAction::SwapDown => (Direction::Down, true),
                    WindowAction::SwapUp => (Direction::Up, true),
                    _ => (Direction::Right, true),
                };
                let steps: usize = if count <= MAX_WINDOWS { count } else { MAX_WINDOWS };
                self.walk(direction, swap, steps, out);
                Ok(())
            },
        }
    }
}

/// A screen with the layout that a number of splits lead to.
pub open spec fn at_layout(screen: Screen, axis: Axis, steps: nat) -> Screen {
    Screen {
        app: App {
            windows: State { layout: screen.split_layout(axis, steps), ..screen.app.windows },
            ..screen.app
        },
        ..screen
    }
}

/// Whether a command was refused, and changed nothing.
pub open spec fn refused(
    before: Screen,
    after: Screen,
    asked: Seq<Effect>,
    asks: Seq<Effect>,
    result: Result<(), Error>,
    error: Error,
) -> bool {
    result == Err::<(), Error>(error) && after == before && asks == asked
}

/// Whether a command led to a screen and asked for something.
pub open spec fn done(
    after: Screen,
    asked: Seq<Effect>,
    asks: Seq<Effect>,
    result: Result<(), Error>,
    screen: Screen,
    effects: Seq<Effect>,
) -> bool {
    result is Ok && after == screen && asks == asked + effects
}

/// Whether the active window was closed without force as it should be.
#[verifier::opaque]
pub open spec fn closed(
    before: Screen,
    after: Screen,
    asked: Seq<Effect>,
    asks: Seq<Effect>,
    result: Result<(), Error>,
) -> bool {
    if before.would_lose() {
        refused(before, after, asked, asks, result, Error::UnsavedWindow)
    } else if before.app.windows.layout.root.leaves().len() == 1
        && before.app.git_write.pending@.len() > 0 {
        refused(before, after, asked, asks, result, Error::GitBusyQuitting)
    } else if before.app.windows.layout.root.leaves().len() == 1 && before.others_dirty() {
        refused(before, after, asked, asks, result, Error::UnsavedAll)
    } else if before.app.windows.layout.root.leaves().len() == 1 {
        done(
            after,
            asked,
            asks,
            result,
            Screen { app: App { quit: true, ..before.app }, ..before },
            seq![],
        )
    } else {
        let next = before.refocused(before.successor());
        done(
            after,
            asked,
            asks,
            result,
            next.without_window(before.app.window()),
            before.focus_effects(before.successor()) + next.without_effects(
                before.app.window(),
            ),
        )
    }
}

/// Whether a window command did what it should: a refusal changes nothing.
pub open spec fn window_action_done(
    before: Screen,
    action: WindowAction,
    count: usize,
    selected: Result<Vec<Result<Prepared, Error>>, Error>,
    after: Screen,
    asked: Seq<Effect>,
    asks: Seq<Effect>,
    result: Result<(), Error>,
) -> bool {
    match action {
        WindowAction::SplitVertical => match before.split_error(Axis::Vertical) {
            Some(error) => refused(before, after, asked, asks, result, error),
            None => done(after, asked, asks, result, before.split(Axis::Vertical), before.split_effects(Axis::Vertical)),
        },
        WindowAction::SplitHorizontal => match before.split_error(Axis::Horizontal) {
            Some(error) => refused(before, after, asked, asks, result, error),
            None => done(after, asked, asks, result, before.split(Axis::Horizontal), before.split_effects(Axis::Horizontal)),
        },
        WindowAction::Close => closed(before, after, asked, asks, result),
        WindowAction::Only => if before.others_at_stake() {
            refused(before, after, asked, asks, result, Error::UnsavedOther)
        } else {
            done(after, asked, asks, result, before.alone(), before.alone_effects())
        },
        WindowAction::OpenHorizontal | WindowAction::OpenVertical => {
            let axis = if action == WindowAction::OpenHorizontal {
                Axis::Horizontal
            } else {
                Axis::Vertical
            };
            match selected {
                Err(error) => refused(before, after, asked, asks, result, error),
                Ok(files) => match first_refusal(before, axis, files@, 0) {
                    Some(error) => refused(before, after, asked, asks, result, error),
                    None => done(after, asked, asks, result, 
                        before.opened(axis, files@, files@.len()),
                        before.open_effects(axis, files@, files@.len()),
                    ),
                },
            }
        },
        WindowAction::Rotate => done(after, asked, asks, result, 
            before.refocused(before.rotated(count)),
            before.focus_effects(before.rotated(count)),
        ),
        _ => {
            let (direction, swap) = action.course()->0;
            let steps = if count <= MAX_WINDOWS { count as nat } else { MAX_WINDOWS as nat };
            done(after, asked, asks, result, 
                before.walked(direction, swap, steps),
                before.walk_effects(direction, swap, steps),
            )
        },
    }
}

} // verus!
