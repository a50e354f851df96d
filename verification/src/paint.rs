//! What the windows draw: which pane where, and the lines between them.

use crate::app::App;
use crate::layout::{Rect, WindowId};
use crate::selection::{DocumentId, ViewId};
use crate::shared::share;
use crate::windows::{
    find_pane, has_pane, lemma_focused_pane, lemma_has_pane, lemma_remembered, pane_of, Root, Screen,
};
use vstd::prelude::*;

verus! {

/// A character of the border between panes.
#[derive(Clone, Copy, Debug, PartialEq, Eq, Structural)]
pub struct Junction {
    pub x: u16,
    pub y: u16,
    pub glyph: char,
}

/// Whether a divider column passes through a cell.
pub open spec fn vertical(dividers: Seq<Rect>, x: int, y: int) -> bool {
    exists|i: int|
        0 <= i < dividers.len() && (#[trigger] dividers[i]).x == x && dividers[i].y <= y
            < dividers[i].y + dividers[i].height
}

/// Whether the status line of a pane meets a cell from the left.
pub open spec fn line_left(panes: Seq<(WindowId, Rect)>, x: int, y: int) -> bool {
    exists|i: int|
        0 <= i < panes.len() && (#[trigger] panes[i]).1.y + panes[i].1.height - 1 == y
            && panes[i].1.x < x && panes[i].1.x + panes[i].1.width >= x
}

/// Whether the status line of a pane meets a cell from the right.
pub open spec fn line_right(panes: Seq<(WindowId, Rect)>, x: int, y: int) -> bool {
    exists|i: int|
        0 <= i < panes.len() && (#[trigger] panes[i]).1.y + panes[i].1.height - 1 == y
            && panes[i].1.x <= x + 1 && panes[i].1.x + panes[i].1.width > x + 1
}

/// The character that joins lines from these sides.
pub open spec fn glyph(up: bool, down: bool, left: bool, right: bool) -> char {
    match (up, down, left, right) {
        (true, true, true, true) => '┼',
        (true, true, true, false) => '┤',
        (true, true, false, true) => '├',
        (true, false, true, true) => '┴',
        (false, true, true, true) => '┬',
        (true, false, true, false) => '┘',
        (true, false, false, true) => '└',
        (false, true, true, false) => '┐',
        (false, true, false, true) => '┌',
        _ => '│',
    }
}

/// The character of the border at a cell.
pub open spec fn junction(
    panes: Seq<(WindowId, Rect)>,
    dividers: Seq<Rect>,
    x: int,
    y: int,
) -> char {
    glyph(
        y > 0 && vertical(dividers, x, y - 1),
        vertical(dividers, x, y + 1),
        line_left(panes, x, y),
        line_right(panes, x, y),
    )
}

/// The row a divider is drawn from: the one above it too, where the status
/// line of a wider pane runs there.
pub open spec fn first_row(divider: Rect, above: bool) -> int {
    if above && divider.y > 0 { divider.y - 1 } else { divider.y as int }
}

/// The characters of a divider from a row on.
pub open spec fn rows_from(
    panes: Seq<(WindowId, Rect)>,
    dividers: Seq<Rect>,
    divider: Rect,
    y: int,
) -> Seq<Junction>
    decreases divider.y + divider.height - y,
{
    if y >= divider.y + divider.height {
        seq![]
    } else {
        seq![
            Junction {
                x: divider.x,
                y: y as u16,
                glyph: junction(panes, dividers, divider.x as int, y),
            },
        ] + rows_from(panes, dividers, divider, y + 1)
    }
}

/// The characters of the first dividers.
pub open spec fn borders(
    panes: Seq<(WindowId, Rect)>,
    dividers: Seq<Rect>,
    above: Seq<bool>,
    count: nat,
) -> Seq<Junction>
    decreases count,
{
    if count == 0 {
        seq![]
    } else {
        let divider = dividers[count - 1];
        borders(panes, dividers, above, (count - 1) as nat) + rows_from(
            panes,
            dividers,
            divider,
            first_row(divider, above[count - 1]),
        )
    }
}

fn passes(dividers: &Vec<Rect>, x: u16, y: u32) -> (yes: bool)
    ensures
        yes == vertical(dividers@, x as int, y as int),
{
    let mut i: usize = 0;
    while i < dividers.len()
        invariant
            i <= dividers.len(),
            forall|j: int|
                0 <= j < i ==> !((#[trigger] dividers@[j]).x == x && dividers@[j].y <= y
                    < dividers@[j].y + dividers@[j].height),
        decreases dividers.len() - i,
    {
        let d = dividers[i];
        if d.x == x && (d.y as u32) <= y && y < d.y as u32 + d.height as u32 {
            assert(dividers@[i as int].x == x);
            return true;
        }
        i += 1;
    }
    false
}

fn meets(panes: &Vec<(WindowId, Rect)>, x: u16, y: u16, left: bool) -> (yes: bool)
    ensures
        yes == if left {
            line_left(panes@, x as int, y as int)
        } else {
            line_right(panes@, x as int, y as int)
        },
{
    let mut i: usize = 0;
    while i < panes.len()
        invariant
            i <= panes.len(),
            forall|j: int|
                0 <= j < i ==> !((#[trigger] panes@[j]).1.y + panes@[j].1.height - 1 == y && if left {
                    panes@[j].1.x < x && panes@[j].1.x + panes@[j].1.width >= x
                } else {
                    panes@[j].1.x <= x + 1 && panes@[j].1.x + panes@[j].1.width > x + 1
                }),
        decreases panes.len() - i,
    {
        let r = panes[i].1;
        let bottom: u32 = r.y as u32 + r.height as u32;
        let end: u32 = r.x as u32 + r.width as u32;
        let at = if left {
            r.x < x && end >= x as u32
        } else {
            r.x as u32 <= x as u32 + 1 && end > x as u32 + 1
        };
        if bottom == y as u32 + 1 && at {
            assert(panes@[i as int].1 == r);
            return true;
        }
        i += 1;
    }
    false
}

fn join(up: bool, down: bool, left: bool, right: bool) -> (c: char)
    ensures
        c == glyph(up, down, left, right),
{
    match (up, down, left, right) {
        (true, true, true, true) => '┼',
        (true, true, true, false) => '┤',
        (true, true, false, true) => '├',
        (true, false, true, true) => '┴',
        (false, true, true, true) => '┬',
        (true, false, true, false) => '┘',
        (true, false, false, true) => '└',
        (false, true, true, false) => '┐',
        (false, true, false, true) => '┌',
        _ => '│',
    }
}

/// Join pane status rules to vertical dividers, including a divider starting
/// below a wider pane. `above` says, for each divider, whether a status line
/// runs directly above it; labels in that line take precedence over a border
/// junction.
pub fn paint_dividers(
    panes: &Vec<(WindowId, Rect)>,
    dividers: &Vec<Rect>,
    above: &Vec<bool>,
) -> (drawn: Vec<Junction>)
    requires
        above@.len() == dividers@.len(),
        forall|i: int| 0 <= i < dividers@.len() ==> (#[trigger] dividers@[i]).in_range(),
    ensures
        drawn@ == borders(panes@, dividers@, above@, dividers@.len()),
{
    let mut drawn: Vec<Junction> = Vec::new();
    let mut i: usize = 0;
    assert(drawn@ =~= borders(panes@, dividers@, above@, 0));
    while i < dividers.len()
        invariant
            i <= dividers.len(),
            above@.len() == dividers@.len(),
            forall|j: int| 0 <= j < dividers@.len() ==> (#[trigger] dividers@[j]).in_range(),
            drawn@ == borders(panes@, dividers@, above@, i as nat),
        decreases dividers.len() - i,
    {
        let divider = dividers[i];
        assert(dividers@[i as int].in_range());
        let ghost before = drawn@;
        let mut y: u16 = if above[i] && divider.y > 0 { divider.y - 1 } else { divider.y };
        let end: u16 = divider.y + divider.height;
        let ghost first = y as int;
        let ghost whole = rows_from(panes@, dividers@, divider, first);
        assert(before + whole =~= drawn@ + whole);
        while y < end
            invariant
                y <= end,
                end == divider.y + divider.height,
                drawn@ + rows_from(panes@, dividers@, divider, y as int) == before + whole,
            decreases end - y,
        {
            let x = divider.x;
            let up = y > 0 && passes(dividers, x, y as u32 - 1);
            let down = passes(dividers, x, y as u32 + 1);
            let left = meets(panes, x, y, true);
            let right = meets(panes, x, y, false);
            let cell = Junction { x, y, glyph: join(up, down, left, right) };
            let ghost rest = rows_from(panes@, dividers@, divider, y + 1);
            let ghost had = drawn@;
            drawn.push(cell);
            assert(drawn@ + rest =~= had + (seq![cell] + rest));
            y += 1;
        }
        assert(drawn@ =~= before + whole);
        i += 1;
    }
    drawn
}

/// What a pane draws.
#[derive(Debug)]
pub enum Content {
    /// The document with the focus, with its menus.
    Active,
    /// A repository.
    Git(Root),
    /// A document without the focus.
    Document(DocumentId, ViewId),
}

/// A pane to draw.
#[derive(Debug)]
pub struct PanePlan {
    pub id: WindowId,
    pub rect: Rect,
    pub content: Content,
}

/// The panes to draw, in order, and the dividers between them.
#[derive(Debug)]
pub struct WindowPlan {
    pub panes: Vec<PanePlan>,
    pub leaves: Vec<(WindowId, Rect)>,
    pub dividers: Vec<Rect>,
    /// Rows that a window alone leaves free for the command line.
    pub reserved_bottom: u16,
}

impl Screen {
    /// What a window draws.
    pub open spec fn content(self, id: WindowId) -> Content {
        let pane = pane_of(self.panes, id);
        if id == self.app.window() {
            Content::Active
        } else {
            match pane.git {
                Some(root) => Content::Git(root),
                None => Content::Document(pane.document, pane.view),
            }
        }
    }
}

impl App {
    /// Decides what the windows draw, in local coordinates of each. Popups and
    /// completion remain clipped to the focused pane.
    pub fn paint_windows(&mut self) -> (plan: WindowPlan)
        requires
            old(self).screen().valid(),
        ensures
            final(self).is(old(self).screen().remembered()),
            ({
                let screen = old(self).screen();
                let leaves = screen.app.windows.layout.shown(screen.app.area());
                &&& plan.leaves@ == leaves
                &&& plan.dividers@ == screen.app.windows.layout.shown_columns(screen.app.area())
                &&& plan.reserved_bottom == if leaves.len() == 1 { 1u16 } else { 0u16 }
                &&& plan.panes@.len() == leaves.len()
                &&& forall|i: int|
                    0 <= i < leaves.len() ==> #[trigger] plan.panes@[i] == (PanePlan {
                        id: leaves[i].0,
                        rect: leaves[i].1,
                        content: screen.content(leaves[i].0),
                    })
            }),
    {
        let ghost before = self.screen();
        proof {
            lemma_focused_pane(before);
            lemma_remembered(before);
        }
        self.remember_viewport();
        let area = self.window_area();
        let (leaves, dividers) = self.windows.layout.visible(area);
        proof {
            lemma_shown_windows(before);
        }
        let reserved_bottom: u16 = if leaves.len() == 1 { 1 } else { 0 };
        let mut panes: Vec<PanePlan> = Vec::new();
        let mut i: usize = 0;
        while i < leaves.len()
            invariant
                i <= leaves.len(),
                before.valid(),
                self.screen() == before.remembered(),
                leaves@ == before.app.windows.layout.shown(before.app.area()),
                panes.len() == i,
                forall|j: int|
                    0 <= j < leaves@.len() ==> has_pane(before.panes, (#[trigger] leaves@[j]).0),
                forall|j: int|
                    0 <= j < i ==> #[trigger] panes@[j] == (PanePlan {
                        id: leaves@[j].0,
                        rect: leaves@[j].1,
                        content: before.content(leaves@[j].0),
                    }),
            decreases leaves.len() - i,
        {
            let (id, rect) = leaves[i];
            assert(has_pane(before.panes, leaves@[i as int].0));
            let content = self.pane_content(id, Ghost(before));
            panes.push(PanePlan { id, rect, content });
            i += 1;
        }
        WindowPlan { panes, leaves, dividers, reserved_bottom }
    }

    /// What a window draws.
    fn pane_content(&self, id: WindowId, Ghost(before): Ghost<Screen>) -> (content: Content)
        requires
            before.valid(),
            has_pane(before.panes, id),
            self.screen() == before.remembered(),
        ensures
            content == before.content(id),
    {
        proof {
            lemma_focused_pane(before);
            lemma_remembered(before);
            lemma_has_pane(before.panes, id);
        }
        if id == self.windows.layout.active {
            return Content::Active;
        }
        let mut i: usize = 0;
        let ghost at = find_pane(before.panes, id);
        assert(self.windows.panes@[at].id == id);
        while i < self.windows.panes.len() && self.windows.panes[i].id != id
            invariant
                i <= self.windows.panes.len(),
                0 <= at < self.windows.panes@.len(),
                self.windows.panes@[at].id == id,
                forall|j: int| 0 <= j < i ==> (#[trigger] self.windows.panes@[j]).id != id,
            decreases self.windows.panes.len() - i,
        {
            i += 1;
        }
        proof {
            assert(before.panes[i as int].id == before.panes[at].id);
            if i < at {
                assert(before.panes[i as int].id != before.panes[at].id);
            }
            if at < i {
                assert(before.panes[at].id != before.panes[i as int].id);
            }
        }
        let pane = &self.windows.panes[i];
        match &pane.git {
            Some(root) => Content::Git(share(root)),
            None => Content::Document(pane.document, pane.view),
        }
    }
}

/// Every window on the screen has a pane.
pub proof fn lemma_shown_windows(screen: Screen)
    requires
        screen.valid(),
    ensures
        forall|i: int|
            0 <= i < screen.app.windows.layout.shown(screen.app.area()).len() ==> has_pane(
                screen.panes,
                (#[trigger] screen.app.windows.layout.shown(screen.app.area())[i]).0,
            ),
{
    let layout = screen.app.windows.layout;
    let area = screen.app.area();
    layout.root.lemma_panes(Rect::of_size(area));
    lemma_focused_pane(screen);
    assert forall|i: int| 0 <= i < layout.shown(area).len() implies has_pane(
        screen.panes,
        (#[trigger] layout.shown(area)[i]).0,
    ) by {
        if crate::layout::all_roomy(layout.root.panes(Rect::of_size(area))) {
            assert(layout.root.leaves()[i] == layout.shown(area)[i].0);
            assert(layout.root.leaves().contains(layout.shown(area)[i].0));
        }
    }
}

} // verus!
