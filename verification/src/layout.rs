//! Bounded binary split layout, independent of buffers and drawing.

use crate::error::Error;
use vstd::prelude::*;

verus! {

/// Identity of a window; never reused within a layout.
pub type WindowId = u64;

/// A layout never holds more windows than this.
pub const MAX_WINDOWS: usize = 16;

/// No window of a drawn split is narrower than this.
pub const MIN_WIDTH: u16 = 12;

/// No window of a drawn split is lower than this.
pub const MIN_HEIGHT: u16 = 3;

#[derive(Clone, Copy, Debug, PartialEq, Eq, Structural)]
pub enum Axis {
    Vertical,
    Horizontal,
}

#[derive(Clone, Copy, Debug, PartialEq, Eq, Structural)]
pub enum Direction {
    Left,
    Down,
    Up,
    Right,
}

#[derive(Clone, Copy, Debug, PartialEq, Eq, Structural)]
pub struct Rect {
    pub x: u16,
    pub y: u16,
    pub width: u16,
    pub height: u16,
}

impl Default for Rect {
    fn default() -> (rect: Rect)
        ensures
            rect == (Rect { x: 0, y: 0, width: 0, height: 0 }),
    {
        Rect { x: 0, y: 0, width: 0, height: 0 }
    }
}

impl Rect {
    pub fn size(self) -> (size: (u16, u16))
        ensures
            size == (self.width, self.height),
    {
        (self.width, self.height)
    }

    /// The rectangle of this size at the origin.
    pub open spec fn of_size(size: (u16, u16)) -> Rect {
        Rect { x: 0, y: 0, width: size.0, height: size.1 }
    }

    /// Whether the far edges are representable, so that coordinates inside
    /// the rectangle never overflow.
    pub open spec fn in_range(&self) -> bool {
        &&& self.x + self.width <= u16::MAX
        &&& self.y + self.height <= u16::MAX
    }

    /// Whether the cell at column `x` and row `y` lies in the rectangle.
    pub open spec fn has_cell(&self, x: int, y: int) -> bool {
        &&& self.x <= x < self.x + self.width
        &&& self.y <= y < self.y + self.height
    }

    /// Whether the cell at column `x` and row `y` lies in the rectangle.
    pub fn contains(&self, x: u16, y: u16) -> (inside: bool)
        ensures
            inside == self.has_cell(x as int, y as int),
    {
        self.x <= x && (x as u32) < self.x as u32 + self.width as u32 && self.y <= y && (y as u32)
            < self.y as u32 + self.height as u32
    }

    /// Whether a window of this size may be drawn beside others.
    pub open spec fn roomy(&self) -> bool {
        self.width >= MIN_WIDTH && self.height >= MIN_HEIGHT
    }

    /// The left part of a vertical split.
    pub open spec fn left_part(self) -> Rect {
        Rect {
            width: (if self.width == 0 { 0int } else { (self.width - 1) / 2 }) as u16,
            ..self
        }
    }

    /// The column between the parts of a vertical split; empty where the
    /// rectangle has no column at all.
    pub open spec fn divider(self) -> Rect {
        Rect {
            x: (self.x + self.left_part().width) as u16,
            width: if self.width == 0 { 0u16 } else { 1u16 },
            ..self
        }
    }

    /// The right part of a vertical split: what the left part and the divider
    /// leave.
    pub open spec fn right_part(self) -> Rect {
        Rect {
            x: (self.divider().x + self.divider().width) as u16,
            width: (self.width - self.left_part().width - self.divider().width) as u16,
            ..self
        }
    }

    /// The upper half of a horizontal split.
    pub open spec fn upper_part(self) -> Rect {
        Rect { height: self.height / 2, ..self }
    }

    /// The lower half of a horizontal split, directly below the upper half,
    /// whose status line separates the two.
    pub open spec fn lower_part(self) -> Rect {
        Rect {
            y: (self.y + self.height / 2) as u16,
            height: (self.height - self.height / 2) as u16,
            ..self
        }
    }
}

/// A tree of splits with windows at its leaves.
#[derive(Debug)]
pub enum Node {
    Leaf(WindowId),
    Split(Axis, Box<Node>, Box<Node>),
}

/// The identity that takes the place of `id` when `a` and `b` trade places.
pub open spec fn traded(id: WindowId, a: WindowId, b: WindowId) -> WindowId {
    if id == a {
        b
    } else if id == b {
        a
    } else {
        id
    }
}

impl Node {
    /// The windows of the tree, first parts before second parts.
    pub open spec fn leaves(&self) -> Seq<WindowId>
        decreases self,
    {
        match self {
            Node::Leaf(id) => seq![*id],
            Node::Split(_, a, b) => a.leaves() + b.leaves(),
        }
    }

    /// The windows with the rectangles they get when the tree fills `rect`.
    pub open spec fn panes(&self, rect: Rect) -> Seq<(WindowId, Rect)>
        decreases self,
    {
        match self {
            Node::Leaf(id) => seq![(*id, rect)],
            Node::Split(Axis::Vertical, a, b) =>
                a.panes(rect.left_part()) + b.panes(rect.right_part()),
            Node::Split(Axis::Horizontal, a, b) =>
                a.panes(rect.upper_part()) + b.panes(rect.lower_part()),
        }
    }

    /// The divider columns drawn when the tree fills `rect`, outermost first.
    pub open spec fn columns(&self, rect: Rect) -> Seq<Rect>
        decreases self,
    {
        match self {
            Node::Leaf(_) => seq![],
            Node::Split(Axis::Vertical, a, b) =>
                seq![rect.divider()] + a.columns(rect.left_part()) + b.columns(rect.right_part()),
            Node::Split(Axis::Horizontal, a, b) =>
                a.columns(rect.upper_part()) + b.columns(rect.lower_part()),
        }
    }

    /// The tree whose first leaf `target` is split along `axis`, with `id` as
    /// the second part.
    pub open spec fn with_split(&self, target: WindowId, id: WindowId, axis: Axis) -> Node
        decreases self,
    {
        match self {
            Node::Leaf(old) => if *old == target {
                Node::Split(axis, Box::new(Node::Leaf(target)), Box::new(Node::Leaf(id)))
            } else {
                *self
            },
            Node::Split(along, a, b) => if a.leaves().contains(target) {
                Node::Split(*along, Box::new(a.with_split(target, id, axis)), *b)
            } else {
                Node::Split(*along, *a, Box::new(b.with_split(target, id, axis)))
            },
        }
    }

    /// The tree without the leaves `target`; a split that lost one part is
    /// replaced by the other.
    pub open spec fn without(&self, target: WindowId) -> Option<Node>
        decreases self,
    {
        match self {
            Node::Leaf(id) => if *id == target { None } else { Some(*self) },
            Node::Split(axis, a, b) => match (a.without(target), b.without(target)) {
                (Some(a), Some(b)) => Some(Node::Split(*axis, Box::new(a), Box::new(b))),
                (Some(a), None) => Some(a),
                (None, rest) => rest,
            },
        }
    }

    /// The tree of the same shape in which `x` and `y` trade places.
    pub open spec fn with_swap(&self, x: WindowId, y: WindowId) -> Node
        decreases self,
    {
        match self {
            Node::Leaf(id) => Node::Leaf(traded(*id, x, y)),
            Node::Split(axis, a, b) => Node::Split(
                *axis,
                Box::new(a.with_swap(x, y)),
                Box::new(b.with_swap(x, y)),
            ),
        }
    }

    /// A tree has a leaf, and as many panes as leaves, in the same order.
    pub proof fn lemma_panes(&self, rect: Rect)
        ensures
            self.leaves().len() >= 1,
            self.panes(rect).len() == self.leaves().len(),
            forall|i: int| 0 <= i < self.leaves().len() ==> #[trigger] self.panes(rect)[i].0
                == self.leaves()[i],
        decreases self,
    {
        match self {
            Node::Leaf(_) => {},
            Node::Split(Axis::Vertical, a, b) => {
                a.lemma_panes(rect.left_part());
                b.lemma_panes(rect.right_part());
            },
            Node::Split(Axis::Horizontal, a, b) => {
                a.lemma_panes(rect.upper_part());
                b.lemma_panes(rect.lower_part());
            },
        }
    }

    /// An equal tree.
    fn duplicate(&self) -> (node: Node)
        ensures
            node == *self,
        decreases self,
    {
        match self {
            Node::Leaf(id) => Node::Leaf(*id),
            Node::Split(axis, a, b) => Node::Split(
                *axis,
                Box::new(a.duplicate()),
                Box::new(b.duplicate()),
            ),
        }
    }

    /// Adds the panes and divider columns of the tree in `rect`.
    pub fn divide(
        &self,
        rect: Rect,
        leaves: &mut Vec<(WindowId, Rect)>,
        dividers: &mut Vec<Rect>,
    )
        requires
            rect.in_range(),
        ensures
            final(leaves)@ == old(leaves)@ + self.panes(rect),
            final(dividers)@ == old(dividers)@ + self.columns(rect),
        decreases self,
    {
        match self {
            Node::Leaf(id) => {
                leaves.push((*id, rect));
                assert(leaves@ =~= old(leaves)@ + self.panes(rect));
                assert(dividers@ =~= old(dividers)@ + self.columns(rect));
            },
            Node::Split(axis, first, second) => {
                let mut a = rect;
                let mut b = rect;
                match axis {
                    Axis::Vertical => {
                        let available: u16 = if rect.width == 0 { 0 } else { rect.width - 1 };
                        let column: u16 = if rect.width == 0 { 0 } else { 1 };
                        a.width = available / 2;
                        let divider = Rect { x: rect.x + a.width, width: column, ..rect };
                        b.x = divider.x + divider.width;
                        b.width = available - a.width;
                        dividers.push(divider);
                        assert(a == rect.left_part());
                        assert(b == rect.right_part());
                        assert(divider == rect.divider());
                    },
                    Axis::Horizontal => {
                        a.height = rect.height / 2;
                        b.y = rect.y + a.height;
                        b.height = rect.height - a.height;
                        assert(a == rect.upper_part());
                        assert(b == rect.lower_part());
                    },
                }
                first.divide(a, leaves, dividers);
                second.divide(b, leaves, dividers);
                assert(leaves@ =~= old(leaves)@ + self.panes(rect));
                assert(dividers@ =~= old(dividers)@ + self.columns(rect));
            },
        }
    }

    /// Splits the first leaf `target`; reports whether there was one.
    pub fn split(&mut self, target: WindowId, id: WindowId, axis: Axis) -> (done: bool)
        ensures
            done == old(self).leaves().contains(target),
            *final(self) == old(self).with_split(target, id, axis),
        decreases *old(self),
    {
        proof {
            self.lemma_split_absent(target, id, axis);
        }
        match self {
            Node::Leaf(old_id) => {
                let found = *old_id == target;
                assert(self.leaves() =~= seq![*old_id]);
                if found {
                    assert(self.leaves()[0] == target);
                    *self = Node::Split(
                        axis,
                        Box::new(Node::Leaf(target)),
                        Box::new(Node::Leaf(id)),
                    );
                }
                found
            },
            Node::Split(_, a, b) => {
                proof {
                    lemma_concat_contains(a.leaves(), b.leaves(), target);
                    a.lemma_split_absent(target, id, axis);
                }
                a.split(target, id, axis) || b.split(target, id, axis)
            },
        }
    }

    /// The tree without `target`, or nothing when that was its only window.
    pub fn remove(self, target: WindowId) -> (rest: Option<Node>)
        ensures
            rest == self.without(target),
        decreases self,
    {
        match self {
            Node::Leaf(id) => if id == target { None } else { Some(Node::Leaf(id)) },
            Node::Split(axis, a, b) => match (a.remove(target), b.remove(target)) {
                (Some(a), Some(b)) => Some(Node::Split(axis, Box::new(a), Box::new(b))),
                (Some(a), None) => Some(a),
                (None, rest) => rest,
            },
        }
    }

    /// Lets the windows `a` and `b` trade places.
    pub fn swap(&mut self, a: WindowId, b: WindowId)
        ensures
            *final(self) == old(self).with_swap(a, b),
        decreases *old(self),
    {
        match self {
            Node::Leaf(id) => {
                if *id == a {
                    *id = b;
                } else if *id == b {
                    *id = a;
                }
            },
            Node::Split(_, first, second) => {
                first.swap(a, b);
                second.swap(a, b);
            },
        }
    }

    /// Splitting at a window that is not there changes nothing.
    pub proof fn lemma_split_absent(&self, target: WindowId, id: WindowId, axis: Axis)
        ensures
            !self.leaves().contains(target) ==> self.with_split(target, id, axis) == *self,
        decreases self,
    {
        match self {
            Node::Leaf(old) => {
                assert(self.leaves()[0] == *old);
            },
            Node::Split(_, a, b) => {
                lemma_concat_contains(a.leaves(), b.leaves(), target);
                a.lemma_split_absent(target, id, axis);
                b.lemma_split_absent(target, id, axis);
            },
        }
    }
}

/// What a concatenation contains, one of its parts contains.
pub proof fn lemma_concat_contains<T>(a: Seq<T>, b: Seq<T>, value: T)
    ensures
        (a + b).contains(value) <==> a.contains(value) || b.contains(value),
{
    if a.contains(value) {
        let i = choose|i: int| 0 <= i < a.len() && a[i] == value;
        assert((a + b)[i] == value);
    }
    if b.contains(value) {
        let i = choose|i: int| 0 <= i < b.len() && b[i] == value;
        assert((a + b)[a.len() + i] == value);
    }
    if (a + b).contains(value) {
        let i = choose|i: int| 0 <= i < (a + b).len() && (a + b)[i] == value;
        if i < a.len() {
            assert(a[i] == value);
        } else {
            assert(b[i - a.len()] == value);
        }
    }
}

/// Where a window of a layout comes in the order of neighbours: first the gap
/// in the direction of travel, then how far the middles are apart across it,
/// then the identity.
pub open spec fn rank(
    direction: Direction,
    from: Rect,
    to: Rect,
    id: WindowId,
) -> (int, int, int) {
    let across_rows = distance_of(2 * to.y + to.height - 2 * from.y - from.height);
    let across_columns = distance_of(2 * to.x + to.width - 2 * from.x - from.width);
    match direction {
        Direction::Left => (from.x - to.x - to.width, across_rows, id as int),
        Direction::Right => (to.x - from.x - from.width, across_rows, id as int),
        Direction::Up => (from.y - to.y - to.height, across_columns, id as int),
        Direction::Down => (to.y - from.y - from.height, across_columns, id as int),
    }
}

pub open spec fn distance_of(value: int) -> int {
    if value < 0 { -value } else { value }
}

/// Whether one rank comes before another, read as words are.
pub open spec fn ranks_before(a: (int, int, int), b: (int, int, int)) -> bool {
    a.0 < b.0 || (a.0 == b.0 && (a.1 < b.1 || (a.1 == b.1 && a.2 < b.2)))
}

/// Whether `to` lies wholly beyond `from` in a direction and shares a row or
/// a column with it.
pub open spec fn lies_beyond(direction: Direction, from: Rect, to: Rect) -> bool {
    let shares_row = to.y < from.y + from.height && to.y + to.height > from.y;
    let shares_column = to.x < from.x + from.width && to.x + to.width > from.x;
    match direction {
        Direction::Left => shares_row && to.x + to.width <= from.x,
        Direction::Right => shares_row && from.x + from.width <= to.x,
        Direction::Up => shares_column && to.y + to.height <= from.y,
        Direction::Down => shares_column && from.y + from.height <= to.y,
    }
}

/// The rectangle of the first pane that shows `id`.
pub open spec fn pane_of(panes: Seq<(WindowId, Rect)>, id: WindowId) -> Option<Rect>
    decreases panes.len(),
{
    if panes.len() == 0 {
        None
    } else if panes[0].0 == id {
        Some(panes[0].1)
    } else {
        pane_of(panes.drop_first(), id)
    }
}

/// Whether the pane at `i` can be reached from `active` in a direction.
pub open spec fn reachable(
    panes: Seq<(WindowId, Rect)>,
    active: WindowId,
    direction: Direction,
    i: int,
) -> bool {
    &&& 0 <= i < panes.len()
    &&& panes[i].0 != active
    &&& pane_of(panes, active) is Some
    &&& lies_beyond(direction, pane_of(panes, active)->0, panes[i].1)
}

/// Whether `found` is the neighbour of `active`: of the windows beyond it,
/// the one that ranks first.
pub open spec fn is_neighbor(
    panes: Seq<(WindowId, Rect)>,
    active: WindowId,
    direction: Direction,
    found: Option<WindowId>,
) -> bool {
    match found {
        None => forall|i: int| !#[trigger] reachable(panes, active, direction, i),
        Some(id) => exists|i: int| #[trigger]
            reachable(panes, active, direction, i) && panes[i].0 == id && forall|j: int|
                #[trigger]
                reachable(panes, active, direction, j) ==> !ranks_before(
                    rank(direction, pane_of(panes, active)->0, panes[j].1, panes[j].0),
                    rank(direction, pane_of(panes, active)->0, panes[i].1, id),
                ),
    }
}

/// The neighbour of `active` in a direction.
pub open spec fn neighbor_of(
    panes: Seq<(WindowId, Rect)>,
    active: WindowId,
    direction: Direction,
) -> Option<WindowId> {
    choose|found: Option<WindowId>| is_neighbor(panes, active, direction, found)
}

/// There is only one neighbour in a direction.
pub proof fn lemma_neighbor_unique(
    panes: Seq<(WindowId, Rect)>,
    active: WindowId,
    direction: Direction,
    found: Option<WindowId>,
)
    requires
        is_neighbor(panes, active, direction, found),
    ensures
        neighbor_of(panes, active, direction) == found,
{
    let other = neighbor_of(panes, active, direction);
    assert(is_neighbor(panes, active, direction, other));
    match (found, other) {
        (Some(a), Some(b)) => {
            let from = pane_of(panes, active)->0;
            let i = choose|i: int| #[trigger]
                reachable(panes, active, direction, i) && panes[i].0 == a && forall|j: int|
                    #[trigger]
                    reachable(panes, active, direction, j) ==> !ranks_before(
                        rank(direction, from, panes[j].1, panes[j].0),
                        rank(direction, from, panes[i].1, a),
                    );
            let k = choose|k: int| #[trigger]
                reachable(panes, active, direction, k) && panes[k].0 == b && forall|j: int|
                    #[trigger]
                    reachable(panes, active, direction, j) ==> !ranks_before(
                        rank(direction, from, panes[j].1, panes[j].0),
                        rank(direction, from, panes[k].1, b),
                    );
            assert(!ranks_before(
                rank(direction, from, panes[k].1, b),
                rank(direction, from, panes[i].1, a),
            ));
            assert(!ranks_before(
                rank(direction, from, panes[i].1, a),
                rank(direction, from, panes[k].1, b),
            ));
        },
        _ => {},
    }
}

/// The neighbour is another of the windows.
pub proof fn law_neighbor_is_another_window(layout: Layout, direction: Direction, size: (u16, u16))
    requires
        neighbor_of(layout.shown(size), layout.active, direction) is Some,
        is_neighbor(
            layout.shown(size),
            layout.active,
            direction,
            neighbor_of(layout.shown(size), layout.active, direction),
        ),
    ensures
        neighbor_of(layout.shown(size), layout.active, direction)->0 != layout.active,
        layout.root.leaves().contains(
            neighbor_of(layout.shown(size), layout.active, direction)->0,
        ),
{
    let panes = layout.shown(size);
    let id = neighbor_of(panes, layout.active, direction)->0;
    let i = choose|i: int| #[trigger]
        reachable(panes, layout.active, direction, i) && panes[i].0 == id;
    layout.root.lemma_panes(Rect::of_size(size));
    if all_roomy(layout.root.panes(Rect::of_size(size))) {
        assert(layout.root.leaves()[i] == id);
    }
}

/// Whether every pane is large enough to be drawn beside the others.
pub open spec fn all_roomy(panes: Seq<(WindowId, Rect)>) -> bool {
    forall|i: int| 0 <= i < panes.len() ==> (#[trigger] panes[i]).1.roomy()
}

fn fits(panes: &Vec<(WindowId, Rect)>) -> (all: bool)
    ensures
        all == all_roomy(panes@),
{
    let mut i: usize = 0;
    while i < panes.len()
        invariant
            i <= panes.len(),
            forall|j: int| 0 <= j < i ==> (#[trigger] panes@[j]).1.roomy(),
        decreases panes.len() - i,
    {
        if panes[i].1.width < MIN_WIDTH || panes[i].1.height < MIN_HEIGHT {
            assert(!panes@[i as int].1.roomy());
            return false;
        }
        i += 1;
    }
    true
}

/// The windows of the screen and which of them has the focus.
#[derive(Debug)]
pub struct Layout {
    pub root: Node,
    pub active: WindowId,
    pub next: WindowId,
}

impl Default for Layout {
    fn default() -> (layout: Layout)
        ensures
            layout.root == Node::Leaf(0),
            layout.active == 0,
            layout.next == 1,
            layout.valid(),
            layout.focused(),
    {
        assert(Node::Leaf(0).leaves()[0] == 0);
        Layout { root: Node::Leaf(0), active: 0, next: 1 }
    }
}

impl Layout {
    /// What every layout keeps: between one and the greatest number of
    /// windows, each once, each older than the next identity.
    pub open spec fn valid(&self) -> bool {
        &&& 1 <= self.root.leaves().len() <= MAX_WINDOWS
        &&& self.root.leaves().no_duplicates()
        &&& forall|i: int|
            0 <= i < self.root.leaves().len() ==> #[trigger] self.root.leaves()[i] < self.next
    }

    /// Whether the active window is one of the layout's.
    pub open spec fn focused(&self) -> bool {
        self.root.leaves().contains(self.active)
    }

    /// The layout with the active window split, its new part being `next`.
    pub open spec fn split_root(&self, axis: Axis) -> Node {
        self.root.with_split(self.active, self.next, axis)
    }

    /// The panes drawn on a screen of this size: all of them, or the active
    /// one alone where one of them would be too small.
    pub open spec fn shown(&self, size: (u16, u16)) -> Seq<(WindowId, Rect)> {
        if all_roomy(self.root.panes(Rect::of_size(size))) {
            self.root.panes(Rect::of_size(size))
        } else {
            seq![(self.active, Rect::of_size(size))]
        }
    }

    /// The divider columns drawn on a screen of this size.
    pub open spec fn shown_columns(&self, size: (u16, u16)) -> Seq<Rect> {
        if all_roomy(self.root.panes(Rect::of_size(size))) {
            self.root.columns(Rect::of_size(size))
        } else {
            seq![]
        }
    }

    /// An equal layout.
    pub fn duplicate(&self) -> (layout: Layout)
        ensures
            layout == *self,
    {
        Layout { root: self.root.duplicate(), active: self.active, next: self.next }
    }

    /// Every pane and divider column, however small.
    pub fn raw(&self, size: (u16, u16)) -> (drawn: (Vec<(WindowId, Rect)>, Vec<Rect>))
        ensures
            drawn.0@ == self.root.panes(Rect::of_size(size)),
            drawn.1@ == self.root.columns(Rect::of_size(size)),
    {
        let mut leaves = Vec::new();
        let mut dividers = Vec::new();
        self.root.divide(
            Rect { width: size.0, height: size.1, ..Rect::default() },
            &mut leaves,
            &mut dividers,
        );
        assert(leaves@ =~= self.root.panes(Rect::of_size(size)));
        assert(dividers@ =~= self.root.columns(Rect::of_size(size)));
        (leaves, dividers)
    }

    /// The windows in layout order.
    pub fn ids(&self) -> (ids: Vec<WindowId>)
        ensures
            ids@ == self.root.leaves(),
    {
        let panes = self.raw((0, 0)).0;
        let mut ids = Vec::new();
        proof {
            self.root.lemma_panes(Rect::of_size((0, 0)));
        }
        let mut i: usize = 0;
        while i < panes.len()
            invariant
                i <= panes.len(),
                panes.len() == self.root.leaves().len(),
                forall|j: int|
                    0 <= j < panes.len() ==> #[trigger] panes@[j].0 == self.root.leaves()[j],
                ids@ == self.root.leaves().take(i as int),
            decreases panes.len() - i,
        {
            ids.push(panes[i].0);
            i += 1;
            assert(ids@ =~= self.root.leaves().take(i as int));
        }
        assert(ids@ =~= self.root.leaves());
        ids
    }

    /// A tiny resize temporarily displays the active pane alone. The complete
    /// layout is retained and restored as soon as the terminal fits it again.
    pub fn visible(&self, size: (u16, u16)) -> (drawn: (Vec<(WindowId, Rect)>, Vec<Rect>))
        ensures
            drawn.0@ == self.shown(size),
            drawn.1@ == self.shown_columns(size),
    {
        let (leaves, dividers) = self.raw(size);
        if fits(&leaves) {
            (leaves, dividers)
        } else {
            let alone = Rect { width: size.0, height: size.1, ..Rect::default() };
            let mut leaves = Vec::new();
            leaves.push((self.active, alone));
            assert(leaves@ =~= self.shown(size));
            let dividers = Vec::new();
            assert(dividers@ =~= self.shown_columns(size));
            (leaves, dividers)
        }
    }

    /// Splits the active window and returns the identity of the new part. The
    /// caller focuses the new window after installing its view. A refusal
    /// leaves the layout as it was.
    pub fn split(&mut self, axis: Axis, size: (u16, u16)) -> (result: Result<WindowId, Error>)
        requires
            old(self).root.leaves().len() < MAX_WINDOWS && all_roomy(
                old(self).split_root(axis).panes(Rect::of_size(size)),
            ) ==> old(self).next < u64::MAX,
        ensures
            match result {
                Ok(id) => {
                    &&& old(self).root.leaves().len() < MAX_WINDOWS
                    &&& all_roomy(old(self).split_root(axis).panes(Rect::of_size(size)))
                    &&& id == old(self).next
                    &&& final(self).root == old(self).split_root(axis)
                    &&& final(self).active == old(self).active
                    &&& final(self).next == old(self).next + 1
                },
                Err(Error::TooManyWindows) => {
                    &&& old(self).root.leaves().len() >= MAX_WINDOWS
                    &&& *final(self) == *old(self)
                },
                Err(Error::TerminalTooSmall) => {
                    &&& old(self).root.leaves().len() < MAX_WINDOWS
                    &&& !all_roomy(old(self).split_root(axis).panes(Rect::of_size(size)))
                    &&& *final(self) == *old(self)
                },
                Err(_) => false,
            },
            old(self).valid() ==> final(self).valid(),
            old(self).focused() ==> final(self).focused(),
    {
        if self.ids().len() >= MAX_WINDOWS {
            return Err(Error::TooManyWindows);
        }
        let id = self.next;
        let mut proposed = self.duplicate();
        proposed.root.split(self.active, id, axis);
        if !fits(&proposed.raw(size).0) {
            return Err(Error::TerminalTooSmall);
        }
        proposed.next = id + 1;
        proof {
            law_split_adds_one_window(*self, axis);
            self.root.lemma_split_contains(self.active, id, axis, self.active);
        }
        *self = proposed;
        Ok(id)
    }

    /// Takes a window out of the layout; its space goes to the other part of
    /// its split.
    pub fn remove(&mut self, id: WindowId)
        requires
            old(self).root.without(id) is Some,
        ensures
            Some(final(self).root) == old(self).root.without(id),
            final(self).active == old(self).active,
            final(self).next == old(self).next,
            old(self).valid() ==> final(self).valid(),
            old(self).focused() && old(self).active != id ==> final(self).focused(),
    {
        proof {
            law_remove_drops_only_that_window(*self, id);
        }
        match self.root.duplicate().remove(id) {
            Some(root) => {
                self.root = root;
            },
            None => {},
        }
    }

    /// Leaves the active window alone on the screen.
    pub fn only(&mut self)
        ensures
            final(self).root == Node::Leaf(old(self).active),
            final(self).active == old(self).active,
            final(self).next == old(self).next,
            old(self).valid() && old(self).focused() ==> final(self).valid(),
            final(self).focused(),
    {
        self.root = Node::Leaf(self.active);
        assert(self.root.leaves()[0] == self.active);
    }

    /// The window next to the active one in a direction.
    pub fn neighbor(&self, direction: Direction, size: (u16, u16)) -> (found: Option<WindowId>)
        ensures
            is_neighbor(self.shown(size), self.active, direction, found),
            found == neighbor_of(self.shown(size), self.active, direction),
            found is Some ==> found->0 != self.active && self.root.leaves().contains(found->0),
    {
        let found = self.find_neighbor(direction, size);
        proof {
            lemma_neighbor_unique(self.shown(size), self.active, direction, found);
            if found is Some {
                law_neighbor_is_another_window(*self, direction, size);
            }
        }
        found
    }

    fn find_neighbor(
        &self,
        direction: Direction,
        size: (u16, u16),
    ) -> (found: Option<WindowId>)
        ensures
            is_neighbor(self.shown(size), self.active, direction, found),
    {
        let leaves = self.visible(size).0;
        let ghost panes = leaves@;
        let mut start: usize = 0;
        assert(panes.skip(0) =~= panes);
        while start < leaves.len() && leaves[start].0 != self.active
            invariant
                start <= leaves.len(),
                leaves@ == panes,
                pane_of(panes, self.active) == pane_of(panes.skip(start as int), self.active),
            decreases leaves.len() - start,
        {
            assert(panes.skip(start as int).drop_first() =~= panes.skip(start as int + 1));
            start += 1;
        }
        if start == leaves.len() {
            assert(forall|i: int| !#[trigger] reachable(panes, self.active, direction, i));
            return None;
        }
        let current = leaves[start].1;
        assert(pane_of(panes, self.active) == Some(current));
        let mut best: Option<usize> = None;
        let mut i: usize = 0;
        while i < leaves.len()
            invariant
                i <= leaves.len(),
                leaves@ == panes,
                pane_of(panes, self.active) == Some(current),
                match best {
                    None => forall|j: int|
                        0 <= j < i ==> !#[trigger] reachable(panes, self.active, direction, j),
                    Some(k) => k < i && reachable(panes, self.active, direction, k as int)
                        && forall|j: int|
                        0 <= j < i && #[trigger] reachable(panes, self.active, direction, j)
                            ==> !ranks_before(
                            rank(direction, current, panes[j].1, panes[j].0),
                            rank(direction, current, panes[k as int].1, panes[k as int].0),
                        ),
                },
            decreases leaves.len() - i,
        {
            let (id, to) = leaves[i];
            if id != self.active && beyond(direction, current, to) {
                assert(reachable(panes, self.active, direction, i as int));
                match best {
                    None => {
                        best = Some(i);
                    },
                    Some(k) => {
                        if precedes(
                            rank_of(direction, current, to, id),
                            rank_of(direction, current, leaves[k].1, leaves[k].0),
                        ) {
                            best = Some(i);
                        }
                    },
                }
            }
            i += 1;
        }
        match best {
            None => None,
            Some(k) => Some(leaves[k].0),
        }
    }

    /// Lets the active window and another trade places.
    pub fn swap(&mut self, other: WindowId)
        ensures
            final(self).root == old(self).root.with_swap(old(self).active, other),
            final(self).active == old(self).active,
            final(self).next == old(self).next,
            old(self).valid() && old(self).focused() && old(self).root.leaves().contains(other)
                ==> final(self).valid() && final(self).focused(),
    {
        proof {
            law_swap_permutes_the_windows(*self, other);
        }
        self.root.swap(self.active, other);
    }
}

fn beyond(direction: Direction, from: Rect, to: Rect) -> (yes: bool)
    ensures
        yes == lies_beyond(direction, from, to),
{
    let shares_row = (to.y as i32) < from.y as i32 + from.height as i32 && to.y as i32
        + to.height as i32 > from.y as i32;
    let shares_column = (to.x as i32) < from.x as i32 + from.width as i32 && to.x as i32
        + to.width as i32 > from.x as i32;
    match direction {
        Direction::Left => shares_row && to.x as i32 + to.width as i32 <= from.x as i32,
        Direction::Right => shares_row && from.x as i32 + from.width as i32 <= to.x as i32,
        Direction::Up => shares_column && to.y as i32 + to.height as i32 <= from.y as i32,
        Direction::Down => shares_column && from.y as i32 + from.height as i32 <= to.y as i32,
    }
}

fn rank_of(direction: Direction, from: Rect, to: Rect, id: WindowId) -> (key: (i32, i32, u64))
    ensures
        rank(direction, from, to, id) == (key.0 as int, key.1 as int, key.2 as int),
{
    let (cx, cy, cw, ch) = (from.x as i32, from.y as i32, from.width as i32, from.height as i32);
    let (x, y, w, h) = (to.x as i32, to.y as i32, to.width as i32, to.height as i32);
    let rows: i32 = 2 * y + h - 2 * cy - ch;
    let rows: i32 = if rows < 0 { -rows } else { rows };
    let columns: i32 = 2 * x + w - 2 * cx - cw;
    let columns: i32 = if columns < 0 { -columns } else { columns };
    match direction {
        Direction::Left => (cx - x - w, rows, id),
        Direction::Right => (x - cx - cw, rows, id),
        Direction::Up => (cy - y - h, columns, id),
        Direction::Down => (y - cy - ch, columns, id),
    }
}

fn precedes(a: (i32, i32, u64), b: (i32, i32, u64)) -> (yes: bool)
    ensures
        yes == ranks_before(
            (a.0 as int, a.1 as int, a.2 as int),
            (b.0 as int, b.1 as int, b.2 as int),
        ),
{
    a.0 < b.0 || (a.0 == b.0 && (a.1 < b.1 || (a.1 == b.1 && a.2 < b.2)))
}

impl Node {
    /// What a split tree contains: what the tree contained, and the new
    /// window where the split one was there.
    pub proof fn lemma_split_contains(
        &self,
        target: WindowId,
        id: WindowId,
        axis: Axis,
        any: WindowId,
    )
        ensures
            self.with_split(target, id, axis).leaves().contains(any) <==> self.leaves().contains(
                any,
            ) || (any == id && self.leaves().contains(target)),
        decreases self,
    {
        match self {
            Node::Leaf(old) => {
                assert(self.leaves()[0] == *old);
                if *old == target {
                    let parts = self.with_split(target, id, axis);
                    assert(parts.leaves() =~= seq![target, id]) by {
                        reveal_with_fuel(Node::leaves, 3);
                    }
                    assert(parts.leaves()[0] == target && parts.leaves()[1] == id);
                }
            },
            Node::Split(along, a, b) => {
                a.lemma_split_contains(target, id, axis, any);
                b.lemma_split_contains(target, id, axis, any);
                lemma_concat_contains(a.leaves(), b.leaves(), any);
                lemma_concat_contains(a.leaves(), b.leaves(), target);
                lemma_concat_contains(
                    a.with_split(target, id, axis).leaves(),
                    b.leaves(),
                    any,
                );
                lemma_concat_contains(
                    a.leaves(),
                    b.with_split(target, id, axis).leaves(),
                    any,
                );
            },
        }
    }

    /// A split puts the new window directly behind the first `target`.
    pub proof fn lemma_split_leaves(&self, target: WindowId, id: WindowId, axis: Axis)
        requires
            self.leaves().contains(target),
        ensures
            self.with_split(target, id, axis).leaves() == self.leaves().insert(
                self.leaves().index_of_first(target)->0 + 1,
                id,
            ),
        decreases self,
    {
        match self {
            Node::Leaf(old) => {
                assert(*old == target);
                assert(self.leaves()[0] == target);
                self.leaves().index_of_first_ensures(target);
                reveal_with_fuel(Node::leaves, 3);
                assert(self.with_split(target, id, axis).leaves() =~= self.leaves().insert(1, id));
            },
            Node::Split(along, a, b) => {
                lemma_concat_contains(a.leaves(), b.leaves(), target);
                self.leaves().index_of_first_ensures(target);
                a.leaves().index_of_first_ensures(target);
                b.leaves().index_of_first_ensures(target);
                let whole = self.leaves().index_of_first(target)->0;
                if a.leaves().contains(target) {
                    a.lemma_split_leaves(target, id, axis);
                    let part = a.leaves().index_of_first(target)->0;
                    assert(self.leaves()[part] == target);
                    assert(whole < a.leaves().len());
                    assert(self.leaves()[whole] == a.leaves()[whole]);
                    assert(whole == part);
                } else {
                    b.lemma_split_leaves(target, id, axis);
                    let part = b.leaves().index_of_first(target)->0;
                    assert(self.leaves()[a.leaves().len() + part] == target);
                    if whole < a.leaves().len() {
                        assert(a.leaves()[whole] == target);
                    }
                    assert(self.leaves()[whole] == b.leaves()[whole - a.leaves().len()]);
                    assert(whole == a.leaves().len() + part);
                }
                assert(self.with_split(target, id, axis).leaves() =~= self.leaves().insert(
                    whole + 1,
                    id,
                ));
            },
        }
    }

    /// Taking a window out keeps every other one, in order.
    pub proof fn lemma_without_leaves(&self, target: WindowId)
        ensures
            match self.without(target) {
                Some(rest) => rest.leaves() == self.leaves().filter(|id: WindowId| id != target),
                None => self.leaves().filter(|id: WindowId| id != target) =~= seq![],
            },
        decreases self,
    {
        let keep = |id: WindowId| id != target;
        match self {
            Node::Leaf(id) => {
                reveal_with_fuel(Seq::filter, 2);
                assert(self.leaves().drop_last() =~= seq![]);
                assert(self.leaves().filter(keep) =~= if *id == target {
                    seq![]
                } else {
                    seq![*id]
                });
            },
            Node::Split(_, a, b) => {
                a.lemma_without_leaves(target);
                b.lemma_without_leaves(target);
                Seq::filter_distributes_over_add(a.leaves(), b.leaves(), keep);
            },
        }
    }

    /// Trading places renames the leaves and nothing else.
    pub proof fn lemma_swap_leaves(&self, a: WindowId, b: WindowId)
        ensures
            self.with_swap(a, b).leaves() == self.leaves().map_values(
                |id: WindowId| traded(id, a, b),
            ),
        decreases self,
    {
        match self {
            Node::Leaf(_) => {
                assert(self.with_swap(a, b).leaves() =~= self.leaves().map_values(
                    |id: WindowId| traded(id, a, b),
                ));
            },
            Node::Split(_, x, y) => {
                x.lemma_swap_leaves(a, b);
                y.lemma_swap_leaves(a, b);
                assert(self.with_swap(a, b).leaves() =~= self.leaves().map_values(
                    |id: WindowId| traded(id, a, b),
                ));
            },
        }
    }
}

/// A successful split adds exactly the new window, directly behind the active
/// one, and keeps the layout valid.
pub proof fn law_split_adds_one_window(layout: Layout, axis: Axis)
    requires
        layout.root.leaves().len() < MAX_WINDOWS,
    ensures
        layout.focused() ==> layout.split_root(axis).leaves() == layout.root.leaves().insert(
            layout.root.leaves().index_of_first(layout.active)->0 + 1,
            layout.next,
        ),
        !layout.focused() ==> layout.split_root(axis) == layout.root,
        layout.valid() ==> {
            let leaves = layout.split_root(axis).leaves();
            &&& 1 <= leaves.len() <= MAX_WINDOWS
            &&& leaves.no_duplicates()
            &&& forall|i: int| 0 <= i < leaves.len() ==> #[trigger] leaves[i] < layout.next + 1
        },
{
    layout.root.lemma_split_absent(layout.active, layout.next, axis);
    if layout.focused() {
        layout.root.lemma_split_leaves(layout.active, layout.next, axis);
        layout.root.leaves().index_of_first_ensures(layout.active);
        let at = layout.root.leaves().index_of_first(layout.active)->0 + 1;
        layout.root.leaves().insert_ensures(at, layout.next);
    }
}

/// Taking a window out of the layout keeps all others, in order.
pub proof fn law_remove_drops_only_that_window(layout: Layout, id: WindowId)
    ensures
        layout.root.without(id) is Some ==> {
            let rest = layout.root.without(id)->0;
            &&& rest.leaves() == layout.root.leaves().filter(|any: WindowId| any != id)
            &&& layout.valid() ==> (Layout { root: rest, ..layout }).valid()
            &&& forall|any: WindowId| #[trigger]
                rest.leaves().contains(any) <==> layout.root.leaves().contains(any) && any != id
        },
{
    let keep = |any: WindowId| any != id;
    layout.root.lemma_without_leaves(id);
    if layout.root.without(id) is Some {
        let rest = layout.root.without(id)->0;
        let leaves = layout.root.leaves();
        broadcast use vstd::seq_lib::group_filter_ensures;
        rest.lemma_panes(Rect::of_size((0, 0)));
        lemma_filter_keeps_distinct(leaves, keep);
        assert forall|any: WindowId| #[trigger]
            rest.leaves().contains(any) <==> leaves.contains(any) && any != id by {
            if leaves.contains(any) && any != id {
                let i = choose|i: int| 0 <= i < leaves.len() && leaves[i] == any;
                assert(keep(leaves[i]));
                assert(leaves.filter(keep).contains(leaves[i]));
            }
            if rest.leaves().contains(any) {
                let i = choose|i: int| 0 <= i < rest.leaves().len() && rest.leaves()[i] == any;
                assert(keep(leaves.filter(keep)[i]));
                assert(leaves.contains(leaves.filter(keep)[i]));
            }
        }
        if layout.valid() {
            assert forall|i: int| 0 <= i < rest.leaves().len() implies #[trigger] rest.leaves()[i]
                < layout.next by {
                assert(leaves.contains(rest.leaves()[i]));
            }
        }
    }
}

proof fn lemma_filter_keeps_distinct(leaves: Seq<WindowId>, keep: spec_fn(WindowId) -> bool)
    ensures
        leaves.no_duplicates() ==> leaves.filter(keep).no_duplicates(),
        leaves.filter(keep).len() <= leaves.len(),
        forall|i: int|
            0 <= i < leaves.filter(keep).len() ==> leaves.contains(
                #[trigger] leaves.filter(keep)[i],
            ),
    decreases leaves.len(),
{
    reveal(Seq::filter);
    if leaves.len() > 0 {
        let front = leaves.drop_last();
        lemma_filter_keeps_distinct(front, keep);
        assert forall|i: int| 0 <= i < leaves.filter(keep).len() implies leaves.contains(
            #[trigger] leaves.filter(keep)[i],
        ) && (i < front.filter(keep).len() && leaves.no_duplicates() ==> leaves.filter(keep)[i]
            != leaves.last()) by {
            if i < front.filter(keep).len() {
                let kept = front.filter(keep)[i];
                let j = choose|j: int| 0 <= j < front.len() && front[j] == kept;
                assert(leaves[j] == kept);
            } else {
                assert(leaves[leaves.len() - 1] == leaves.last());
            }
        }
    }
}

/// Removing the window that a split added restores the layout.
pub proof fn law_remove_undoes_split(node: Node, target: WindowId, id: WindowId, axis: Axis)
    requires
        !node.leaves().contains(id),
        node.leaves().contains(target),
    ensures
        node.with_split(target, id, axis).without(id) == Some(node),
    decreases node,
{
    lemma_without_absent(node, id);
    match node {
        Node::Leaf(old) => {
            assert(node.leaves()[0] == old);
            reveal_with_fuel(Node::without, 3);
        },
        Node::Split(_, a, b) => {
            lemma_concat_contains(a.leaves(), b.leaves(), target);
            lemma_concat_contains(a.leaves(), b.leaves(), id);
            lemma_without_absent(*a, id);
            lemma_without_absent(*b, id);
            if a.leaves().contains(target) {
                law_remove_undoes_split(*a, target, id, axis);
            } else {
                law_remove_undoes_split(*b, target, id, axis);
            }
        },
    }
}

proof fn lemma_without_absent(node: Node, id: WindowId)
    requires
        !node.leaves().contains(id),
    ensures
        node.without(id) == Some(node),
    decreases node,
{
    match node {
        Node::Leaf(old) => {
            assert(node.leaves()[0] == old);
        },
        Node::Split(_, a, b) => {
            lemma_concat_contains(a.leaves(), b.leaves(), id);
            lemma_without_absent(*a, id);
            lemma_without_absent(*b, id);
        },
    }
}

/// Trading places twice changes nothing.
pub proof fn law_swap_undoes_itself(node: Node, a: WindowId, b: WindowId)
    ensures
        node.with_swap(a, b).with_swap(a, b) == node,
    decreases node,
{
    match node {
        Node::Leaf(_) => {},
        Node::Split(_, x, y) => {
            law_swap_undoes_itself(*x, a, b);
            law_swap_undoes_itself(*y, a, b);
        },
    }
}

/// Trading places keeps the set of windows: the same ones are there, each
/// once, and the layout stays valid.
pub proof fn law_swap_permutes_the_windows(layout: Layout, other: WindowId)
    ensures
        layout.focused() && layout.root.leaves().contains(other) ==> {
            let root = layout.root.with_swap(layout.active, other);
            &&& forall|any: WindowId| #[trigger]
                root.leaves().contains(any) <==> layout.root.leaves().contains(any)
            &&& layout.valid() ==> (Layout { root, ..layout }).valid()
        },
{
    let root = layout.root.with_swap(layout.active, other);
    let active = layout.active;
    layout.root.lemma_swap_leaves(active, other);
    let before = layout.root.leaves();
    if layout.focused() && before.contains(other) {
        assert forall|any: WindowId| #[trigger]
            root.leaves().contains(any) <==> before.contains(any) by {
            if before.contains(any) {
                assert(before.contains(traded(any, active, other)));
                let i = choose|i: int|
                    0 <= i < before.len() && before[i] == traded(any, active, other);
                assert(root.leaves()[i] == any);
            }
            if root.leaves().contains(any) {
                let i = choose|i: int| 0 <= i < root.leaves().len() && root.leaves()[i] == any;
                assert(before.contains(before[i]));
                assert(any == traded(before[i], active, other));
            }
        }
        if layout.valid() {
            assert forall|i: int| 0 <= i < root.leaves().len() implies #[trigger] root.leaves()[i]
                < layout.next by {
                assert(root.leaves().contains(root.leaves()[i]));
            }
        }
    }
}

/// Trading places moves windows between rectangles and leaves the rectangles
/// and the dividers where they are.
pub proof fn law_swap_keeps_the_geometry(node: Node, a: WindowId, b: WindowId, rect: Rect)
    ensures
        node.with_swap(a, b).columns(rect) == node.columns(rect),
        node.with_swap(a, b).panes(rect) == node.panes(rect).map_values(
            |pane: (WindowId, Rect)| (traded(pane.0, a, b), pane.1),
        ),
    decreases node,
{
    let rename = |pane: (WindowId, Rect)| (traded(pane.0, a, b), pane.1);
    match node {
        Node::Leaf(_) => {
            assert(node.with_swap(a, b).panes(rect) =~= node.panes(rect).map_values(rename));
        },
        Node::Split(Axis::Vertical, x, y) => {
            law_swap_keeps_the_geometry(*x, a, b, rect.left_part());
            law_swap_keeps_the_geometry(*y, a, b, rect.right_part());
            assert(node.with_swap(a, b).panes(rect) =~= node.panes(rect).map_values(rename));
        },
        Node::Split(Axis::Horizontal, x, y) => {
            law_swap_keeps_the_geometry(*x, a, b, rect.upper_part());
            law_swap_keeps_the_geometry(*y, a, b, rect.lower_part());
            assert(node.with_swap(a, b).panes(rect) =~= node.panes(rect).map_values(rename));
        },
    }
}

/// How many of the panes cover a cell.
pub open spec fn panes_at(panes: Seq<(WindowId, Rect)>, x: int, y: int) -> nat
    decreases panes.len(),
{
    if panes.len() == 0 {
        0
    } else {
        panes_at(panes.drop_last(), x, y) + if panes.last().1.has_cell(x, y) { 1nat } else { 0 }
    }
}

/// How many of the divider columns cover a cell.
pub open spec fn columns_at(columns: Seq<Rect>, x: int, y: int) -> nat
    decreases columns.len(),
{
    if columns.len() == 0 {
        0
    } else {
        columns_at(columns.drop_last(), x, y) + if columns.last().has_cell(x, y) { 1nat } else { 0 }
    }
}

proof fn lemma_panes_at(a: Seq<(WindowId, Rect)>, b: Seq<(WindowId, Rect)>, x: int, y: int)
    ensures
        panes_at(a + b, x, y) == panes_at(a, x, y) + panes_at(b, x, y),
    decreases b.len(),
{
    if b.len() == 0 {
        assert(a + b =~= a);
    } else {
        lemma_panes_at(a, b.drop_last(), x, y);
        assert((a + b).drop_last() =~= a + b.drop_last());
    }
}

proof fn lemma_columns_at(a: Seq<Rect>, b: Seq<Rect>, x: int, y: int)
    ensures
        columns_at(a + b, x, y) == columns_at(a, x, y) + columns_at(b, x, y),
    decreases b.len(),
{
    if b.len() == 0 {
        assert(a + b =~= a);
    } else {
        lemma_columns_at(a, b.drop_last(), x, y);
        assert((a + b).drop_last() =~= a + b.drop_last());
    }
}

/// The panes and dividers tile the screen: each of its cells belongs to
/// exactly one of them, and no cell outside belongs to any.
pub proof fn law_panes_and_dividers_tile_the_screen(node: Node, rect: Rect, x: int, y: int)
    requires
        rect.in_range(),
    ensures
        panes_at(node.panes(rect), x, y) + columns_at(node.columns(rect), x, y)
            == if rect.has_cell(x, y) { 1nat } else { 0 },
    decreases node,
{
    match node {
        Node::Leaf(id) => {
            reveal_with_fuel(panes_at, 2);
            assert(node.panes(rect).drop_last() =~= seq![]);
        },
        Node::Split(Axis::Vertical, a, b) => {
            law_panes_and_dividers_tile_the_screen(*a, rect.left_part(), x, y);
            law_panes_and_dividers_tile_the_screen(*b, rect.right_part(), x, y);
            lemma_panes_at(a.panes(rect.left_part()), b.panes(rect.right_part()), x, y);
            let line = seq![rect.divider()];
            lemma_columns_at(line, a.columns(rect.left_part()), x, y);
            lemma_columns_at(
                line + a.columns(rect.left_part()),
                b.columns(rect.right_part()),
                x,
                y,
            );
            reveal_with_fuel(columns_at, 2);
            assert(line.drop_last() =~= seq![]);
        },
        Node::Split(Axis::Horizontal, a, b) => {
            law_panes_and_dividers_tile_the_screen(*a, rect.upper_part(), x, y);
            law_panes_and_dividers_tile_the_screen(*b, rect.lower_part(), x, y);
            lemma_panes_at(a.panes(rect.upper_part()), b.panes(rect.lower_part()), x, y);
            lemma_columns_at(a.columns(rect.upper_part()), b.columns(rect.lower_part()), x, y);
        },
    }
}

/// A tiny terminal shows the active window alone, on the whole screen; one
/// that has room for every window shows all of them again.
pub proof fn law_resize_restores_the_layout(layout: Layout, tiny: (u16, u16), size: (u16, u16))
    requires
        !all_roomy(layout.root.panes(Rect::of_size(tiny))),
        all_roomy(layout.root.panes(Rect::of_size(size))),
    ensures
        layout.shown(tiny) == seq![(layout.active, Rect::of_size(tiny))],
        layout.shown_columns(tiny) == Seq::<Rect>::empty(),
        layout.shown(size).len() == layout.root.leaves().len(),
        forall|i: int|
            0 <= i < layout.root.leaves().len() ==> (#[trigger] layout.shown(size)[i]).0
                == layout.root.leaves()[i] && layout.shown(size)[i].1.roomy(),
{
    layout.root.lemma_panes(Rect::of_size(size));
}

/// A change of a layout.
pub enum Change {
    /// The active window is split.
    Split(Axis),
    /// A window that does not have the focus is taken out.
    Remove(WindowId),
    /// The active window is left alone.
    Only,
    /// The active window and another trade places.
    Swap(WindowId),
    /// The focus moves.
    Focus(WindowId),
}

impl Layout {
    /// Whether a change can be made.
    pub open spec fn allows(self, change: Change) -> bool {
        match change {
            Change::Split(_) => self.root.leaves().len() < MAX_WINDOWS && self.next < u64::MAX,
            Change::Remove(id) => self.root.without(id) is Some && id != self.active,
            Change::Only => true,
            Change::Swap(id) | Change::Focus(id) => self.root.leaves().contains(id),
        }
    }

    /// The layout after a change.
    pub open spec fn changed(self, change: Change) -> Layout {
        match change {
            Change::Split(axis) => Layout {
                root: self.split_root(axis),
                next: (self.next + 1) as u64,
                ..self
            },
            Change::Remove(id) => Layout { root: self.root.without(id)->0, ..self },
            Change::Only => Layout { root: Node::Leaf(self.active), ..self },
            Change::Swap(id) => Layout { root: self.root.with_swap(self.active, id), ..self },
            Change::Focus(id) => Layout { active: id, ..self },
        }
    }

    /// Whether changes can be made one after the other.
    pub open spec fn allows_all(self, changes: Seq<Change>) -> bool
        decreases changes.len(),
    {
        changes.len() > 0 ==> self.allows(changes[0]) && self.changed(changes[0]).allows_all(
            changes.drop_first(),
        )
    }

    /// The layout after changes, one after the other.
    pub open spec fn after(self, changes: Seq<Change>) -> Layout
        decreases changes.len(),
    {
        if changes.len() == 0 {
            self
        } else {
            self.changed(changes[0]).after(changes.drop_first())
        }
    }
}

/// A change brings no window but a new one.
proof fn lemma_changed(layout: Layout, change: Change, id: WindowId)
    requires
        layout.valid(),
        layout.focused(),
        layout.allows(change),
    ensures
        layout.changed(change).valid(),
        layout.changed(change).focused(),
        layout.next <= layout.changed(change).next,
        id < layout.next && layout.changed(change).root.leaves().contains(id)
            ==> layout.root.leaves().contains(id),
{
    let after = layout.changed(change);
    match change {
        Change::Split(axis) => {
            law_split_adds_one_window(layout, axis);
            layout.root.lemma_split_contains(layout.active, layout.next, axis, layout.active);
            layout.root.lemma_split_contains(layout.active, layout.next, axis, id);
        },
        Change::Remove(gone) => {
            law_remove_drops_only_that_window(layout, gone);
        },
        Change::Only => {
            assert(after.root.leaves() =~= seq![layout.active]);
            assert(after.root.leaves()[0] == layout.active);
            let leaves = layout.root.leaves();
            let i = choose|i: int| 0 <= i < leaves.len() && leaves[i] == layout.active;
            assert(leaves[i] < layout.next);
        },
        Change::Swap(other) => {
            law_swap_permutes_the_windows(layout, other);
        },
        Change::Focus(_) => {},
    }
}

/// The identity of a window is never used again: one that is not there, though
/// it could have been, never comes back.
pub proof fn law_identities_are_never_reused(
    layout: Layout,
    changes: Seq<Change>,
    id: WindowId,
)
    requires
        layout.valid(),
        layout.focused(),
        layout.allows_all(changes),
        id < layout.next,
        !layout.root.leaves().contains(id),
    ensures
        !layout.after(changes).root.leaves().contains(id),
    decreases changes.len(),
{
    if changes.len() > 0 {
        lemma_changed(layout, changes[0], id);
        law_identities_are_never_reused(
            layout.changed(changes[0]),
            changes.drop_first(),
            id,
        );
    }
}

} // verus!
