//! Window commands by what is seen on the screen: the rectangles of the windows.

use crate::effect::Effect;
use crate::error::Error;
use crate::layout::{
    all_roomy, is_neighbor, law_neighbor_is_another_window, law_swap_keeps_the_geometry,
    lemma_neighbor_unique, neighbor_of, pane_of, rank, ranks_before, reachable, Axis, Direction,
    Node, Rect, WindowId,
};
use crate::travel::{window_action_done, WindowAction};
use crate::windows::{Prepared, Screen};
use vstd::prelude::*;

verus! {

/// The windows on the screen, each with its rectangle.
pub open spec fn drawn(screen: Screen) -> Seq<(WindowId, Rect)> {
    screen.app.windows.layout.shown(screen.app.area())
}

/// Whether a rectangle is where a command goes from another: wholly on that
/// side of it, with a row or a column in common.
pub open spec fn is_there(action: WindowAction, from: Rect, to: Rect) -> bool {
    let same_rows = to.y < from.y + from.height && from.y < to.y + to.height;
    let same_columns = to.x < from.x + from.width && from.x < to.x + to.width;
    match action {
        WindowAction::FocusDown | WindowAction::SwapDown => same_columns && to.y >= from.y
            + from.height,
        WindowAction::FocusUp | WindowAction::SwapUp => same_columns && from.y >= to.y + to.height,
        WindowAction::FocusRight | WindowAction::SwapRight => same_rows && to.x >= from.x
            + from.width,
        WindowAction::FocusLeft | WindowAction::SwapLeft => same_rows && from.x >= to.x + to.width,
        _ => false,
    }
}

/// Whether one rectangle is no farther away than another on the side that a
/// command goes to.
pub open spec fn no_farther(action: WindowAction, to: Rect, other: Rect) -> bool {
    match action {
        WindowAction::FocusDown | WindowAction::SwapDown => to.y <= other.y,
        WindowAction::FocusUp | WindowAction::SwapUp => to.y + to.height >= other.y + other.height,
        WindowAction::FocusRight | WindowAction::SwapRight => to.x <= other.x,
        WindowAction::FocusLeft | WindowAction::SwapLeft => to.x + to.width >= other.x + other.width,
        _ => false,
    }
}

/// Whether a command moves the focus.
pub open spec fn moves_focus(action: WindowAction) -> bool {
    action == WindowAction::FocusDown || action == WindowAction::FocusUp || action
        == WindowAction::FocusLeft || action == WindowAction::FocusRight
}

/// Whether a command takes the window along.
pub open spec fn moves_window(action: WindowAction) -> bool {
    action == WindowAction::SwapDown || action == WindowAction::SwapUp || action
        == WindowAction::SwapLeft || action == WindowAction::SwapRight
}

/// Whether a window that is `k`-th on the screen is the one to go to from the
/// `from`-th: it is on that side, and none that is there is nearer.
pub open spec fn is_next(action: WindowAction, panes: Seq<(WindowId, Rect)>, from: int, k: int)
    -> bool {
    &&& 0 <= k < panes.len()
    &&& k != from
    &&& is_there(action, panes[from].1, panes[k].1)
    &&& forall|j: int|
        0 <= j < panes.len() && j != from && is_there(action, panes[from].1, (#[trigger] panes[j]).1)
            ==> no_farther(action, panes[k].1, panes[j].1)
}

/// The window that comes first of those that are beyond another is one of them.
proof fn lemma_first_beyond(
    panes: Seq<(WindowId, Rect)>,
    active: WindowId,
    direction: Direction,
    n: int,
) -> (best: Option<int>)
    requires
        0 <= n <= panes.len(),
    ensures
        match best {
            None => forall|j: int|
                0 <= j < n ==> !#[trigger] reachable(panes, active, direction, j),
            Some(k) => 0 <= k < n && reachable(panes, active, direction, k) && forall|j: int|
                0 <= j < n && #[trigger] reachable(panes, active, direction, j) ==> !ranks_before(
                    rank(direction, pane_of(panes, active)->0, panes[j].1, panes[j].0),
                    rank(direction, pane_of(panes, active)->0, panes[k].1, panes[k].0),
                ),
        },
    decreases n,
{
    if n == 0 {
        None
    } else {
        let best = lemma_first_beyond(panes, active, direction, n - 1);
        let i = n - 1;
        if reachable(panes, active, direction, i) {
            match best {
                None => Some(i),
                Some(k) => if ranks_before(
                    rank(direction, pane_of(panes, active)->0, panes[i].1, panes[i].0),
                    rank(direction, pane_of(panes, active)->0, panes[k].1, panes[k].0),
                ) {
                    Some(i)
                } else {
                    Some(k)
                },
            }
        } else {
            best
        }
    }
}

/// There is a window beyond another, or none.
pub proof fn lemma_neighbor(panes: Seq<(WindowId, Rect)>, active: WindowId, direction: Direction)
    ensures
        is_neighbor(panes, active, direction, neighbor_of(panes, active, direction)),
{
    let best = lemma_first_beyond(panes, active, direction, panes.len() as int);
    match best {
        None => {
            assert(is_neighbor(panes, active, direction, None));
            lemma_neighbor_unique(panes, active, direction, None);
        },
        Some(k) => {
            assert(reachable(panes, active, direction, k));
            assert(is_neighbor(panes, active, direction, Some(panes[k].0)));
            lemma_neighbor_unique(panes, active, direction, Some(panes[k].0));
        },
    }
}

/// The windows on the screen are different ones, and the active one is there.
pub proof fn lemma_drawn(screen: Screen) -> (at: int)
    requires
        screen.valid(),
    ensures
        0 <= at < drawn(screen).len(),
        drawn(screen)[at].0 == screen.app.window(),
        forall|i: int, j: int|
            0 <= i < j < drawn(screen).len() ==> (#[trigger] drawn(screen)[i]).0 != (
            #[trigger] drawn(screen)[j]).0,
        pane_of(drawn(screen), screen.app.window()) == Some(drawn(screen)[at].1),
{
    let layout = screen.app.windows.layout;
    let rect = Rect::of_size(screen.app.area());
    let panes = drawn(screen);
    layout.root.lemma_panes(rect);
    let at = if all_roomy(layout.root.panes(rect)) {
        let at = choose|at: int|
            0 <= at < layout.root.leaves().len() && layout.root.leaves()[at] == layout.active;
        assert(layout.root.leaves()[at] == layout.active);
        assert(panes[at].0 == layout.active);
        at
    } else {
        assert(panes[0].0 == layout.active);
        0
    };
    assert forall|i: int, j: int| 0 <= i < j < panes.len() implies (#[trigger] panes[i]).0 != (
    #[trigger] panes[j]).0 by {
        assert(layout.root.leaves()[i] != layout.root.leaves()[j]);
    }
    lemma_pane_of(panes, at);
    at
}

/// The rectangle of a window is found.
proof fn lemma_pane_of(panes: Seq<(WindowId, Rect)>, at: int)
    requires
        0 <= at < panes.len(),
        forall|i: int, j: int|
            0 <= i < j < panes.len() ==> (#[trigger] panes[i]).0 != (#[trigger] panes[j]).0,
    ensures
        pane_of(panes, panes[at].0) == Some(panes[at].1),
    decreases panes.len(),
{
    if at > 0 {
        let rest = panes.drop_first();
        assert(panes[0].0 != panes[at].0);
        assert forall|i: int, j: int| 0 <= i < j < rest.len() implies (#[trigger] rest[i]).0 != (
        #[trigger] rest[j]).0 by {
            assert(panes[i + 1].0 != panes[j + 1].0);
        }
        lemma_pane_of(rest, at - 1);
    }
}

/// The direction that a command goes in.
spec fn heading(action: WindowAction) -> Direction {
    match action {
        WindowAction::FocusDown | WindowAction::SwapDown => Direction::Down,
        WindowAction::FocusUp | WindowAction::SwapUp => Direction::Up,
        WindowAction::FocusRight | WindowAction::SwapRight => Direction::Right,
        _ => Direction::Left,
    }
}

/// The neighbour on a side is the nearest window there.
proof fn lemma_nearest(screen: Screen, action: WindowAction, at: int)
    requires
        screen.valid(),
        moves_focus(action) || moves_window(action),
        0 <= at < drawn(screen).len(),
        drawn(screen)[at].0 == screen.app.window(),
    ensures
        match screen.neighbor(heading(action)) {
            None => forall|j: int|
                0 <= j < drawn(screen).len() && j != at ==> !is_there(
                    action,
                    drawn(screen)[at].1,
                    (#[trigger] drawn(screen)[j]).1,
                ),
            Some(id) => id != screen.app.window() && screen.app.windows.layout.root.leaves().contains(
                id,
            ) && exists|k: int| #[trigger] is_next(action, drawn(screen), at, k) && drawn(screen)[k].0
                == id,
        },
{
    let panes = drawn(screen);
    let here = lemma_drawn(screen);
    assert(here == at);
    let active = screen.app.window();
    let direction = heading(action);
    lemma_neighbor(panes, active, direction);
    let from = panes[at].1;
    assert forall|j: int|
        0 <= j < panes.len() && j != at && is_there(action, from, (#[trigger] panes[j]).1) implies reachable(
        panes,
        active,
        direction,
        j,
    ) by {
        if j < at {
            assert(panes[j].0 != panes[at].0);
        } else {
            assert(panes[at].0 != panes[j].0);
        }
    }
    match screen.neighbor(direction) {
        None => {},
        Some(id) => {
            law_neighbor_is_another_window(screen.app.windows.layout, direction, screen.app.area());
            let k = choose|k: int| #[trigger]
                reachable(panes, active, direction, k) && panes[k].0 == id && forall|j: int|
                    #[trigger]
                    reachable(panes, active, direction, j) ==> !ranks_before(
                        rank(direction, from, panes[j].1, panes[j].0),
                        rank(direction, from, panes[k].1, id),
                    );
            assert(is_next(action, panes, at, k));
        },
    }
}

/// A focus command goes to the nearest window on the side that it names: down
/// to one that begins at or below the lower edge of the active window and shares
/// a column with it, and likewise up, left and right. Where there is none, the
/// focus stays. No window changes its place.
pub proof fn law_focus_goes_to_the_side_that_is_named(
    before: Screen,
    action: WindowAction,
    selected: Result<Vec<Result<Prepared, Error>>, Error>,
    after: Screen,
    asked: Seq<Effect>,
    asks: Seq<Effect>,
    result: Result<(), Error>,
    at: int,
)
    requires
        before.valid(),
        moves_focus(action),
        window_action_done(before, action, 1, selected, after, asked, asks, result),
        0 <= at < drawn(before).len(),
        drawn(before)[at].0 == before.app.window(),
    ensures
        result is Ok,
        after.app.windows.layout.root == before.app.windows.layout.root,
        after.panes.len() == before.panes.len(),
        forall|i: int|
            0 <= i < after.panes.len() ==> (#[trigger] after.panes[i]).id == before.panes[i].id
                && after.panes[i].document == before.panes[i].document,
        (exists|j: int|
            0 <= j < drawn(before).len() && j != at && is_there(
                action,
                drawn(before)[at].1,
                (#[trigger] drawn(before)[j]).1,
            )) ==> exists|k: int| #[trigger] is_next(action, drawn(before), at, k) && drawn(before)[k].0
            == after.app.window(),
        !(exists|j: int|
            0 <= j < drawn(before).len() && j != at && is_there(
                action,
                drawn(before)[at].1,
                (#[trigger] drawn(before)[j]).1,
            )) ==> after == before,
{
    reveal_with_fuel(Screen::walked, 2);
    reveal(Screen::refocused);
    lemma_nearest(before, action, at);
    crate::windows::lemma_focused_pane(before);
    crate::windows::lemma_has_pane(before.panes, before.app.window());
}

/// A swap command exchanges the active window with the nearest one on the side
/// that it names, and with it alone: every rectangle stays, the focus stays with
/// the window, and where there is none on that side nothing changes.
pub proof fn law_swaps_trade_places_with_the_side_that_is_named(
    before: Screen,
    action: WindowAction,
    selected: Result<Vec<Result<Prepared, Error>>, Error>,
    after: Screen,
    asked: Seq<Effect>,
    asks: Seq<Effect>,
    result: Result<(), Error>,
    at: int,
)
    requires
        before.valid(),
        moves_window(action),
        window_action_done(before, action, 1, selected, after, asked, asks, result),
        0 <= at < drawn(before).len(),
        drawn(before)[at].0 == before.app.window(),
    ensures
        result is Ok,
        asks == asked,
        after.app.window() == before.app.window(),
        after.panes == before.panes,
        (exists|j: int|
            0 <= j < drawn(before).len() && j != at && is_there(
                action,
                drawn(before)[at].1,
                (#[trigger] drawn(before)[j]).1,
            )) ==> exists|k: int| #[trigger]
            is_next(action, drawn(before), at, k) && {
                let (a, b) = (drawn(before), drawn(after));
                &&& a.len() == b.len()
                &&& b[k].0 == before.app.window()
                &&& b[at].0 == a[k].0
                &&& forall|i: int| 0 <= i < a.len() ==> (#[trigger] b[i]).1 == a[i].1
                &&& forall|i: int|
                    0 <= i < a.len() && i != k && i != at ==> (#[trigger] b[i]).0 == a[i].0
            },
        !(exists|j: int|
            0 <= j < drawn(before).len() && j != at && is_there(
                action,
                drawn(before)[at].1,
                (#[trigger] drawn(before)[j]).1,
            )) ==> after == before,
{
    reveal_with_fuel(Screen::walked, 2);
    lemma_nearest(before, action, at);
    let here = lemma_drawn(before);
    match before.neighbor(heading(action)) {
        None => {
            assert(asks =~= asked);
        },
        Some(id) => {
            assert(asks =~= asked);
            let k = choose|k: int| #[trigger]
                is_next(action, drawn(before), at, k) && drawn(before)[k].0 == id;
            let rect = Rect::of_size(before.app.area());
            let root = before.app.windows.layout.root;
            let active = before.app.window();
            law_swap_keeps_the_geometry(root, active, id, rect);
            let (a, b) = (drawn(before), drawn(after));
            root.lemma_panes(rect);
            assert(a.len() > 1) by {
                if a.len() == 1 {
                    assert(k == at);
                }
            }
            assert(all_roomy(root.panes(rect)));
            assert(a == root.panes(rect));
            let moved = after.app.windows.layout.root.panes(rect);
            assert forall|i: int| 0 <= i < moved.len() implies (#[trigger] moved[i]).1.roomy() by {
                assert(moved[i].1 == root.panes(rect)[i].1);
                assert(root.panes(rect)[i].1.roomy());
            }
            assert(all_roomy(moved));
            assert(b == moved);
            assert forall|i: int| 0 <= i < a.len() && i != k && i != at implies (#[trigger] b[i]).0
                == a[i].0 by {
                if i < k { assert(a[i].0 != a[k].0); } else { assert(a[k].0 != a[i].0); }
                if i < at { assert(a[i].0 != a[at].0); } else { assert(a[at].0 != a[i].0); }
            }
        },
    }
}

/// A count repeats a focus or swap command: going further is going one window and
/// then the rest of the way. A count of nothing stays where it is.
pub proof fn law_counts_repeat_window_commands(
    before: Screen,
    action: WindowAction,
    count: usize,
    selected: Result<Vec<Result<Prepared, Error>>, Error>,
    one: Screen,
    rest: Screen,
    whole: Screen,
    asked: Seq<Effect>,
    between: Seq<Effect>,
    stepwise: Seq<Effect>,
    asks: Seq<Effect>,
    results: (Result<(), Error>, Result<(), Error>, Result<(), Error>),
)
    requires
        moves_focus(action) || moves_window(action),
        count < 16,
        window_action_done(before, action, 1, selected, one, asked, between, results.0),
        window_action_done(one, action, count, selected, rest, between, stepwise, results.1),
        window_action_done(
            before,
            action,
            (count + 1) as usize,
            selected,
            whole,
            asked,
            asks,
            results.2,
        ),
    ensures
        whole == rest,
        asks == stepwise,
        count == 0 ==> rest == one && stepwise == between,
{
    let direction = heading(action);
    let swap = moves_window(action);
    assert(action.course() == Some((direction, swap)));
    lemma_one_more(before, direction, swap, count as nat);
    assert(one == before.walked(direction, swap, 1));
    assert(rest == one.walked(direction, swap, count as nat));
    assert(whole == before.walked(direction, swap, (count + 1) as nat));
    assert(asks =~= stepwise);
    if count == 0 {
        assert(one.walk_effects(direction, swap, 0) =~= seq![]);
        assert(stepwise =~= between);
    }
}

/// Going one window more is going one and then the rest.
proof fn lemma_one_more(screen: Screen, direction: Direction, swap: bool, count: nat)
    ensures
        screen.walked(direction, swap, count + 1) == screen.walked(direction, swap, 1).walked(
            direction,
            swap,
            count,
        ),
        screen.walk_effects(direction, swap, count + 1) == screen.walk_effects(direction, swap, 1)
            + screen.walked(direction, swap, 1).walk_effects(direction, swap, count),
        screen.walked(direction, swap, 0) == screen,
{
    let whole = screen.walk_effects(direction, swap, count + 1);
    let first = screen.walk_effects(direction, swap, 1);
    match screen.neighbor(direction) {
        Some(other) => {
            let next = if swap { screen.swapped(other) } else { screen.refocused(other) };
            assert(next.walked(direction, swap, 0) == next);
            assert(screen.walked(direction, swap, 1) == next);
            assert(screen.walked(direction, swap, count + 1) == next.walked(direction, swap, count));
            if !swap {
                assert(next.walk_effects(direction, swap, 0) =~= seq![]);
                assert(first =~= screen.focus_effects(other));
                assert(whole =~= first + next.walk_effects(direction, swap, count));
            } else {
                assert(whole =~= first + next.walk_effects(direction, swap, count));
            }
        },
        None => {
            assert(screen.walked(direction, swap, 1) == screen);
            assert(screen.walked(direction, swap, count) == screen);
            assert(whole =~= first + screen.walk_effects(direction, swap, count));
        },
    }
}

/// Rotating goes as many windows on as the count says, in the order of the
/// layout and around its end, and moves no window.
pub proof fn law_rotation_goes_around_the_windows(
    before: Screen,
    count: usize,
    selected: Result<Vec<Result<Prepared, Error>>, Error>,
    after: Screen,
    asked: Seq<Effect>,
    asks: Seq<Effect>,
    result: Result<(), Error>,
    at: int,
)
    requires
        before.valid(),
        window_action_done(
            before,
            WindowAction::Rotate,
            count,
            selected,
            after,
            asked,
            asks,
            result,
        ),
        0 <= at < before.app.windows.layout.root.leaves().len(),
        before.app.windows.layout.root.leaves()[at] == before.app.window(),
    ensures
        result is Ok,
        after.app.windows.layout.root == before.app.windows.layout.root,
        ({
            let leaves = before.app.windows.layout.root.leaves();
            after.app.window() == leaves[(at + count) % (leaves.len() as int)]
        }),
{
    reveal(Screen::refocused);
    let leaves = before.app.windows.layout.root.leaves();
    leaves.index_of_first_ensures(before.app.window());
    assert(leaves.index_of_first(before.app.window())->0 == at);
    vstd::arithmetic::div_mod::lemma_add_mod_noop_right(
        at,
        count as int,
        leaves.len() as int,
    );
}

/// What a split puts in the place of a window: its two parts, the old window
/// first.
proof fn lemma_split_panes(
    node: Node,
    target: WindowId,
    id: WindowId,
    axis: Axis,
    rect: Rect,
    at: int,
)
    requires
        0 <= at < node.leaves().len(),
        node.leaves()[at] == target,
        forall|i: int| 0 <= i < at ==> node.leaves()[i] != target,
    ensures
        ({
            let panes = node.panes(rect);
            let old = panes[at].1;
            let (a, b) = match axis {
                Axis::Vertical => (old.left_part(), old.right_part()),
                Axis::Horizontal => (old.upper_part(), old.lower_part()),
            };
            node.with_split(target, id, axis).panes(rect) == panes.take(at) + seq![
                (target, a),
                (id, b),
            ] + panes.skip(at + 1)
        }),
    decreases node,
{
    let panes = node.panes(rect);
    let old = panes[at].1;
    let (a, b) = match axis {
        Axis::Vertical => (old.left_part(), old.right_part()),
        Axis::Horizontal => (old.upper_part(), old.lower_part()),
    };
    let want = panes.take(at) + seq![(target, a), (id, b)] + panes.skip(at + 1);
    match node {
        Node::Leaf(only) => {
            reveal_with_fuel(Node::panes, 3);
            assert(node.with_split(target, id, axis).panes(rect) =~= want);
        },
        Node::Split(along, x, y) => {
            let (first, second) = match along {
                Axis::Vertical => (rect.left_part(), rect.right_part()),
                Axis::Horizontal => (rect.upper_part(), rect.lower_part()),
            };
            x.lemma_panes(first);
            y.lemma_panes(second);
            assert(panes == x.panes(first) + y.panes(second));
            if at < x.leaves().len() {
                assert(x.leaves()[at] == target);
                assert forall|i: int| 0 <= i < at implies x.leaves()[i] != target by {
                    assert(node.leaves()[i] == x.leaves()[i]);
                }
                lemma_split_panes(*x, target, id, axis, first, at);
                assert(node.with_split(target, id, axis).panes(rect) =~= want);
            } else {
                let inner = at - x.leaves().len();
                assert(y.leaves()[inner] == target);
                assert forall|i: int| 0 <= i < inner implies y.leaves()[i] != target by {
                    assert(node.leaves()[i + x.leaves().len()] == y.leaves()[i]);
                }
                assert(!x.leaves().contains(target)) by {
                    if x.leaves().contains(target) {
                        let i = choose|i: int| 0 <= i < x.leaves().len() && x.leaves()[i] == target;
                        assert(node.leaves()[i] == target);
                    }
                }
                lemma_split_panes(*y, target, id, axis, second, inner);
                assert(node.with_split(target, id, axis).panes(rect) =~= want);
            }
        },
    }
}

/// Whether a rectangle was cut into an upper and a lower part of about the same
/// height, without a gap.
pub open spec fn cut_across(whole: Rect, upper: Rect, lower: Rect) -> bool {
    &&& upper.x == whole.x && lower.x == whole.x
    &&& upper.width == whole.width && lower.width == whole.width
    &&& upper.y == whole.y
    &&& lower.y == whole.y + upper.height
    &&& upper.height + lower.height == whole.height
    &&& upper.height <= lower.height <= upper.height + 1
}

/// Whether a rectangle was cut into a left and a right part of about the same
/// width, with a column between them.
pub open spec fn cut_along(whole: Rect, left: Rect, right: Rect) -> bool {
    &&& left.y == whole.y && right.y == whole.y
    &&& left.height == whole.height && right.height == whole.height
    &&& left.x == whole.x
    &&& right.x == whole.x + left.width + 1
    &&& left.width + 1 + right.width == whole.width
    &&& left.width <= right.width <= left.width + 1
}

/// Whether the active window was cut in two, and the new part, below or to the
/// right, has the focus. The other windows stay where they are.
pub open spec fn is_cut(before: Screen, after: Screen, across: bool, at: int) -> bool {
    let (a, b) = (drawn(before), drawn(after));
    &&& b.len() == a.len() + 1
    &&& b[at].0 == before.app.window()
    &&& b[at + 1].0 == after.app.window()
    &&& after.app.window() != before.app.window()
    &&& across ==> cut_across(a[at].1, b[at].1, b[at + 1].1)
    &&& !across ==> cut_along(a[at].1, b[at].1, b[at + 1].1)
    &&& forall|i: int| 0 <= i < at ==> #[trigger] b[i] == a[i]
    &&& forall|i: int| at < i < a.len() ==> #[trigger] a[i] == b[i + 1]
}

/// What a split leads to on the screen.
proof fn lemma_split_drawn(before: Screen, after: Screen, axis: Axis, at: int)
    requires
        before.valid(),
        before.split_error(axis) is None,
        before.app.windows.layout.next < u64::MAX,
        after.app.windows.layout.root == before.app.windows.layout.split_root(axis),
        after.app.windows.layout.active == before.app.windows.layout.next,
        after.app.size == before.app.size,
        0 <= at < drawn(before).len(),
        drawn(before)[at].0 == before.app.window(),
    ensures
        is_cut(before, after, axis == Axis::Horizontal, at),
        drawn(before).len() == before.app.windows.layout.root.leaves().len(),
{
    let layout = before.app.windows.layout;
    let rect = Rect::of_size(before.app.area());
    let root = layout.root;
    let leaves = root.leaves();
    root.lemma_panes(rect);
    let here = lemma_drawn(before);
    let spot = choose|i: int| 0 <= i < leaves.len() && leaves[i] == layout.active;
    assert(leaves[spot] == layout.active);
    assert forall|i: int| 0 <= i < spot implies leaves[i] != layout.active by {
        assert(leaves[i] != leaves[spot]);
    }
    lemma_split_panes(root, layout.active, layout.next, axis, rect, spot);
    let panes = root.panes(rect);
    let cut = layout.split_root(axis).panes(rect);
    assert(all_roomy(cut));
    assert(cut[spot].1.roomy() && cut[spot + 1].1.roomy());
    assert forall|i: int| 0 <= i < panes.len() implies (#[trigger] panes[i]).1.roomy() by {
        if i < spot {
            assert(cut[i] == panes[i]);
            assert(cut[i].1.roomy());
        } else if i > spot {
            assert(cut[i + 1] == panes[i]);
            assert(cut[i + 1].1.roomy());
        }
    }
    assert(all_roomy(panes));
    assert(drawn(before) == panes);
    assert(drawn(after) == cut);
    assert(panes[spot].0 == layout.active);
    assert(spot == at) by {
        if spot < at {
            assert(panes[spot].0 != panes[at].0);
        } else if at < spot {
            assert(panes[at].0 != panes[spot].0);
        }
    }
    lemma_inside(root, rect, at);
    assert(leaves[at] < layout.next);
}

/// The rectangles of windows stay inside the screen.
proof fn lemma_inside(node: Node, rect: Rect, at: int)
    requires
        rect.in_range(),
        0 <= at < node.panes(rect).len(),
    ensures
        node.panes(rect)[at].1.in_range(),
    decreases node,
{
    match node {
        Node::Leaf(_) => {},
        Node::Split(Axis::Vertical, a, b) => {
            if at < a.panes(rect.left_part()).len() {
                lemma_inside(*a, rect.left_part(), at);
            } else {
                lemma_inside(*b, rect.right_part(), at - a.panes(rect.left_part()).len());
            }
        },
        Node::Split(Axis::Horizontal, a, b) => {
            if at < a.panes(rect.upper_part()).len() {
                lemma_inside(*a, rect.upper_part(), at);
            } else {
                lemma_inside(*b, rect.lower_part(), at - a.panes(rect.upper_part()).len());
            }
        },
    }
}

/// A horizontal split cuts the active window into an upper and a lower part, and
/// a vertical one into a left and a right part. The new part, the lower or the
/// right one, has the focus and shows the same document. Nothing changes where
/// there are too many windows or a part would be too small.
pub proof fn law_splits_cut_the_window_in_two(
    before: Screen,
    action: WindowAction,
    count: usize,
    selected: Result<Vec<Result<Prepared, Error>>, Error>,
    after: Screen,
    asked: Seq<Effect>,
    asks: Seq<Effect>,
    result: Result<(), Error>,
    at: int,
)
    requires
        before.valid(),
        before.app.windows.layout.next < u64::MAX,
        action == WindowAction::SplitHorizontal || action == WindowAction::SplitVertical,
        window_action_done(before, action, count, selected, after, asked, asks, result),
        0 <= at < drawn(before).len(),
        drawn(before)[at].0 == before.app.window(),
    ensures
        result is Ok ==> {
            &&& is_cut(before, after, action == WindowAction::SplitHorizontal, at)
            &&& after.app.editor == before.app.editor
            &&& after.panes.len() == before.panes.len() + 1
            &&& after.panes.last().id == after.app.window()
            &&& after.panes.last().document == before.app.editor.document
            &&& after.buffers == before.buffers
        },
        result is Err ==> after == before && asks == asked,
        before.app.windows.layout.root.leaves().len() >= 16 ==> result == Err::<(), Error>(
            Error::TooManyWindows,
        ),
        before.app.windows.layout.root.leaves().len() < 16 && drawn(before).len()
            == before.app.windows.layout.root.leaves().len() ==> {
            let old = drawn(before)[at].1;
            let fits = if action == WindowAction::SplitHorizontal {
                old.height >= 6 && old.width >= 12
            } else {
                old.height >= 3 && old.width >= 25
            };
            if fits {
                result is Ok
            } else {
                result == Err::<(), Error>(Error::TerminalTooSmall)
            }
        },
{
    reveal(Screen::widened);
    reveal(Screen::refocused);
    let axis = if action == WindowAction::SplitHorizontal {
        Axis::Horizontal
    } else {
        Axis::Vertical
    };
    if result is Ok {
        lemma_split_drawn(before, after, axis, at);
        crate::windows::lemma_widened(before, axis);
        let wide = before.widened(axis);
        let id = before.app.windows.layout.next;
        crate::windows::lemma_remembered(wide);
        let pane = crate::windows::pane_of(wide.remembered().panes, id);
        crate::windows::lemma_has_pane(wide.panes, id);
        crate::windows::lemma_has_pane(wide.remembered().panes, id);
        let last = wide.panes.len() - 1;
        assert(wide.panes[last].id == id);
        let found = crate::windows::find_pane(wide.remembered().panes, id);
        assert(wide.remembered().panes[found].id == id);
        assert(wide.panes[found].id == id);
        assert(found == last);
    }
    if drawn(before).len() == before.app.windows.layout.root.leaves().len() {
        lemma_room(before, axis, at);
    }
}

/// When the parts of a split are large enough.
proof fn lemma_room(before: Screen, axis: Axis, at: int)
    requires
        before.valid(),
        0 <= at < drawn(before).len(),
        drawn(before)[at].0 == before.app.window(),
        drawn(before).len() == before.app.windows.layout.root.leaves().len(),
    ensures
        ({
            let old = drawn(before)[at].1;
            all_roomy(
                before.app.windows.layout.split_root(axis).panes(
                    Rect::of_size(before.app.area()),
                ),
            ) <==> if axis == Axis::Horizontal {
                old.height >= 6 && old.width >= 12
            } else {
                old.height >= 3 && old.width >= 25
            }
        }),
{
    let layout = before.app.windows.layout;
    let rect = Rect::of_size(before.app.area());
    let root = layout.root;
    let panes = root.panes(rect);
    root.lemma_panes(rect);
    if !all_roomy(panes) {
        assert(root.leaves().len() == 1);
        match root {
            Node::Leaf(_) => {},
            Node::Split(_, a, b) => {
                a.lemma_panes(rect);
                b.lemma_panes(rect);
            },
        }
        assert(panes =~= drawn(before));
    }
    assert(drawn(before) == panes);
    let here = lemma_drawn(before);
    assert forall|i: int| 0 <= i < at implies root.leaves()[i] != layout.active by {
        assert(panes[i].0 != panes[at].0);
    }
    lemma_split_panes(root, layout.active, layout.next, axis, rect, at);
    let cut = layout.split_root(axis).panes(rect);
    assert forall|i: int| 0 <= i < panes.len() && i != at implies (#[trigger] panes[i]).1.roomy() by {
        assert(panes.len() > 1);
        assert(all_roomy(panes));
    }
    if cut[at].1.roomy() && cut[at + 1].1.roomy() {
        assert forall|i: int| 0 <= i < cut.len() implies (#[trigger] cut[i]).1.roomy() by {
            if i < at {
                assert(cut[i] == panes[i]);
                assert(panes[i].1.roomy());
            } else if i > at + 1 {
                assert(cut[i] == panes[i - 1]);
                assert(panes[i - 1].1.roomy());
            }
        }
        assert(all_roomy(cut));
    } else {
        if !cut[at].1.roomy() {
            assert(!all_roomy(cut));
        } else {
            assert(!all_roomy(cut));
        }
    }
}

/// Opening a file in a new window makes the same windows as the split of that
/// name, and the new one shows the file: the document that was prepared, or an
/// open one that has the same file.
pub proof fn law_files_open_in_the_new_part(
    before: Screen,
    across: bool,
    count: usize,
    files: Vec<Result<Prepared, Error>>,
    split: Screen,
    after: Screen,
    asked: Seq<Effect>,
    divided: Seq<Effect>,
    asks: Seq<Effect>,
    results: (Result<(), Error>, Result<(), Error>),
)
    requires
        before.valid(),
        before.app.windows.layout.next < u64::MAX,
        before.app.windows.next_view < u64::MAX - 1,
        files@.len() == 1,
        before.accepts_all(files@),
        window_action_done(
            before,
            if across {
                WindowAction::SplitHorizontal
            } else {
                WindowAction::SplitVertical
            },
            count,
            Ok(files),
            split,
            asked,
            divided,
            results.0,
        ),
        window_action_done(
            before,
            if across {
                WindowAction::OpenHorizontal
            } else {
                WindowAction::OpenVertical
            },
            count,
            Ok(files),
            after,
            asked,
            asks,
            results.1,
        ),
    ensures
        results.0 is Err ==> results.1 == results.0 && after == before,
        results.0 is Ok && files@[0] is Err ==> results.1 is Err && after == before,
        results.0 is Ok && files@[0] is Ok ==> {
            &&& results.1 is Ok
            &&& after.app.windows.layout == split.app.windows.layout
            &&& match files@[0]->Ok_0 {
                Prepared::Existing(document) => after.app.editor.document == document,
                Prepared::New(buffer) => after.app.editor == buffer.editor
                    || after.app.editor.file == buffer.editor.file,
            }
        },
{
    let axis = if across { Axis::Horizontal } else { Axis::Vertical };
    reveal_with_fuel(crate::travel::first_refusal, 2);
    reveal_with_fuel(Screen::opened, 2);
    assert(crate::travel::at_layout(before, axis, 0) == before);
    if results.0 is Ok && files@[0] is Ok {
        let prepared = files@[0]->Ok_0;
        assert(before.accepts(prepared));
        let one = before.split(axis);
        assert(before.opened(axis, files@, 0) == before);
        crate::windows::lemma_split_layout(before, axis);
        let shown = one.aliased(prepared);
        crate::windows::lemma_replaced_layout(one, shown);
        crate::windows::lemma_split_shares(before, axis);
        reveal(Screen::replaced);
        crate::windows::lemma_widened(before, axis);
        crate::windows::lemma_refocused(before.widened(axis), before.app.windows.layout.next);
        lemma_found_file(one, prepared);
        assert(one.accepts(prepared));
        match shown {
            Prepared::Existing(id) => {
                if id != one.app.editor.document {
                    crate::windows::lemma_has_buffer(one.buffers, id);
                }
            },
            Prepared::New(_) => {},
        }
    }
}

/// A document that is shown in place of a prepared one has its file.
proof fn lemma_found_file(screen: Screen, prepared: Prepared)
    requires
        screen.valid(),
    ensures
        match (prepared, screen.aliased(prepared)) {
            (Prepared::New(buffer), Prepared::Existing(id)) => if id
                == screen.app.editor.document {
                screen.app.editor.file == buffer.editor.file
            } else {
                &&& crate::windows::has_buffer(screen.buffers, id)
                &&& screen.buffers[crate::windows::find_buffer(screen.buffers, id)].editor.file
                    == buffer.editor.file
            },
            (_, shown) => shown == prepared,
        },
{
    if let Prepared::New(buffer) = prepared {
        let file = buffer.editor.file;
        let test = |any: crate::windows::Buffer| any.editor.file == file;
        crate::find::lemma_first_where(screen.buffers, test);
        let at = crate::travel::find_file(screen.buffers, file);
        if screen.app.editor.file != file && at < screen.buffers.len() {
            let id = screen.buffers[at].editor.document;
            assert(test(screen.buffers[at]));
            assert(crate::windows::has_buffer(screen.buffers, id));
            crate::windows::lemma_has_buffer(screen.buffers, id);
            let found = crate::windows::find_buffer(screen.buffers, id);
            if found < at {
                assert(screen.buffers[found].editor.document != screen.buffers[at].editor.document);
            } else if at < found {
                assert(screen.buffers[at].editor.document != screen.buffers[found].editor.document);
            }
        }
    }
}

/// Closing a window takes it and no other away, and the focus goes to the window
/// behind it in the layout, around the end. The last one of all quits.
pub proof fn law_closing_takes_one_window_away(
    before: Screen,
    count: usize,
    selected: Result<Vec<Result<Prepared, Error>>, Error>,
    after: Screen,
    asked: Seq<Effect>,
    asks: Seq<Effect>,
    result: Result<(), Error>,
    at: int,
)
    requires
        before.valid(),
        !before.app.editor.dirty,
        window_action_done(before, WindowAction::Close, count, selected, after, asked, asks, result),
        0 <= at < before.app.windows.layout.root.leaves().len(),
        before.app.windows.layout.root.leaves()[at] == before.app.window(),
    ensures
        ({
            let leaves = before.app.windows.layout.root.leaves();
            &&& leaves.len() > 1 ==> {
                &&& result is Ok
                &&& after.app.quit == before.app.quit
                &&& after.app.windows.layout.root.leaves() == leaves.filter(
                    |id: WindowId| id != before.app.window(),
                )
                &&& after.app.window() == leaves[(at + 1) % (leaves.len() as int)]
            }
            &&& leaves.len() == 1 && before.app.git_write.pending@.len() == 0
                && before.buffers.len() == 0 ==> result is Ok && after.app.quit
        }),
{
    reveal(crate::travel::closed);
    reveal(Screen::refocused);
    reveal(Screen::without_window);
    let layout = before.app.windows.layout;
    let leaves = layout.root.leaves();
    leaves.index_of_first_ensures(before.app.window());
    assert(leaves.index_of_first(before.app.window())->0 == at);
    if leaves.len() > 1 {
        let next = before.refocused(before.successor());
        crate::windows::lemma_successor(before);
        crate::windows::lemma_refocused(before, before.successor());
        crate::windows::lemma_remembered(before);
        crate::windows::lemma_focused_pane(before);
        assert(next.panes == before.remembered().panes);
        crate::windows::lemma_without_window(next, before.app.window());
        crate::layout::law_remove_drops_only_that_window(
            next.app.windows.layout,
            before.app.window(),
        );
        if at + 1 < leaves.len() {
            vstd::arithmetic::div_mod::lemma_small_mod((at + 1) as nat, leaves.len());
        } else {
            vstd::arithmetic::div_mod::lemma_mod_self_0(leaves.len() as int);
        }
    }
}

/// Whether the active document has unsaved changes and no other window shows it.
pub open spec fn alone_with_changes(screen: Screen) -> bool {
    &&& screen.app.editor.dirty
    &&& forall|i: int|
        0 <= i < screen.panes.len() && (#[trigger] screen.panes[i]).document
            == screen.app.editor.document ==> screen.panes[i].id == screen.app.window()
}

/// Whether another document has unsaved changes.
pub open spec fn changes_elsewhere(screen: Screen) -> bool {
    exists|i: int| 0 <= i < screen.buffers.len() && (#[trigger] screen.buffers[i]).editor.dirty
}

/// A window with unsaved changes that no other window shows is not closed, and
/// documents with unsaved changes keep their windows: the command is refused and
/// nothing changes.
pub proof fn law_window_commands_refuse_to_lose_changes(
    before: Screen,
    action: WindowAction,
    count: usize,
    selected: Result<Vec<Result<Prepared, Error>>, Error>,
    after: Screen,
    asked: Seq<Effect>,
    asks: Seq<Effect>,
    result: Result<(), Error>,
)
    requires
        before.valid(),
        before.app.git_write.drafts@.len() == 0,
        window_action_done(before, action, count, selected, after, asked, asks, result),
        action == WindowAction::Close && alone_with_changes(before) || action
            == WindowAction::Only && changes_elsewhere(before),
    ensures
        result is Err,
        after == before,
        asks == asked,
{
    reveal(crate::travel::closed);
    if action == WindowAction::Close {
        crate::windows::lemma_focused_pane(before);
        lemma_one_view(before, before.panes.len() as int);
        assert(before.panes.take(before.panes.len() as int) =~= before.panes);
        assert(before.would_lose());
    } else {
        let i = choose|i: int|
            0 <= i < before.buffers.len() && (#[trigger] before.buffers[i]).editor.dirty;
        assert(before.buffers[i].editor.dirty);
        assert(before.others_at_stake());
    }
}

/// Whether the pane of the active window is one of the first.
spec fn has_active_pane(screen: Screen, n: int) -> bool {
    exists|i: int| 0 <= i < n && (#[trigger] screen.panes[i]).id == screen.app.window()
}

/// A document that the active window alone shows is shown once at most.
proof fn lemma_one_view(screen: Screen, n: int)
    requires
        screen.valid(),
        0 <= n <= screen.panes.len(),
        forall|i: int|
            0 <= i < screen.panes.len() && (#[trigger] screen.panes[i]).document
                == screen.app.editor.document ==> screen.panes[i].id == screen.app.window(),
    ensures
        crate::windows::views(screen.panes.take(n), screen.app.editor.document) <= 1,
        crate::windows::views(screen.panes.take(n), screen.app.editor.document) == 1
            ==> has_active_pane(screen, n),
    decreases n,
{
    if n > 0 {
        lemma_one_view(screen, n - 1);
        let part = screen.panes.take(n);
        assert(part.drop_last() =~= screen.panes.take(n - 1));
        assert(part.last() == screen.panes[n - 1]);
        if screen.panes[n - 1].document == screen.app.editor.document {
            assert(screen.panes[n - 1].id == screen.app.window());
            if crate::windows::views(screen.panes.take(n - 1), screen.app.editor.document) == 1 {
                let i = choose|i: int|
                    0 <= i < n - 1 && (#[trigger] screen.panes[i]).id == screen.app.window();
                assert(screen.panes[i].id != screen.panes[n - 1].id);
            }
        }
    }
}

/// Leaving the active window alone keeps it and its document, on the whole
/// screen.
pub proof fn law_one_window_is_left_alone(
    before: Screen,
    count: usize,
    selected: Result<Vec<Result<Prepared, Error>>, Error>,
    after: Screen,
    asked: Seq<Effect>,
    asks: Seq<Effect>,
    result: Result<(), Error>,
)
    requires
        before.valid(),
        window_action_done(before, WindowAction::Only, count, selected, after, asked, asks, result),
        forall|i: int|
            0 <= i < before.buffers.len() ==> !(#[trigger] before.buffers[i]).editor.dirty,
    ensures
        result is Ok,
        after.app.window() == before.app.window(),
        after.app.editor == before.app.editor,
        after.app.viewport == before.app.viewport,
        drawn(after) == seq![(before.app.window(), Rect::of_size(before.app.area()))],
        after.panes.len() == 1,
        before.panes.contains(after.panes[0]),
        after.panes[0].id == before.app.window(),
{
    reveal(Screen::alone);
    crate::windows::lemma_focused_pane(before);
    crate::windows::lemma_has_pane(before.panes, before.app.window());
    reveal_with_fuel(Node::panes, 2);
    assert(drawn(after) =~= seq![(before.app.window(), Rect::of_size(before.app.area()))]);
}

/// Each window keeps the part of its document that it shows: going to another
/// window and back leads to the same part, and to the same document.
pub proof fn law_windows_remember_what_they_show(screen: Screen, id: WindowId)
    requires
        screen.valid(),
        crate::windows::has_pane(screen.panes, id),
        id != screen.app.window(),
    ensures
        ({
            let there = screen.refocused(id);
            let back = there.refocused(screen.app.window());
            &&& there.app.window() == id
            &&& there.app.editor.document == crate::windows::pane_of(screen.panes, id).document
            &&& there.app.viewport == crate::windows::pane_of(screen.panes, id).viewport
            &&& there.app.prompt is None
            &&& back.app.window() == screen.app.window()
            &&& back.app.viewport == screen.app.viewport
            &&& back.app.editor.document == screen.app.editor.document
        }),
{
    reveal(Screen::refocused);
    let home = screen.app.window();
    let there = screen.refocused(id);
    crate::windows::lemma_remembered(screen);
    crate::windows::lemma_focused_pane(screen);
    crate::windows::lemma_refocused(screen, id);
    crate::windows::lemma_has_pane(screen.panes, id);
    crate::windows::lemma_has_pane(screen.panes, home);
    let kept = screen.remembered().panes;
    crate::windows::lemma_has_pane(kept, id);
    crate::windows::lemma_has_pane(kept, home);
    assert(there.panes == kept);
    crate::windows::lemma_remembered(there);
    let again = there.remembered().panes;
    crate::windows::lemma_has_pane(again, home);
    let back = there.refocused(home);
    crate::windows::lemma_refocused(there, home);
    let at = crate::windows::find_pane(kept, home);
    assert(crate::windows::find_pane(again, home) == at);
    assert(kept[crate::windows::find_pane(kept, id)].id != kept[at].id);
}

} // verus!
