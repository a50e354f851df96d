//! The pointer by what is drawn under it.

use crate::app::App;
use crate::event::{MouseButton, MouseEvent, MouseEventKind};
use crate::find::lemma_first_where;
use crate::layout::{pane_of, Rect};
use crate::mouse::{under, Pointed, Popups, Wheel};
use vstd::prelude::*;

verus! {

/// Whether a cell is inside an area, where there is one.
pub open spec fn inside(area: Option<Rect>, x: int, y: int) -> bool {
    area matches Some(area) && area.x <= x < area.x + area.width && area.y <= y < area.y
        + area.height
}

/// Whether nothing in front of the windows takes pointer input.
pub open spec fn reaches_windows(app: App, event: MouseEvent) -> bool {
    &&& app.mouse.enabled
    &&& app.mouse.focused
    &&& app.prompt is None
    &&& app.picker.active is None
    &&& app.actions.menu is None
    &&& !(app.editor.keys_pending && inside(app.mouse.hints, event.column as int, event.row as int))
}

/// Whether the wheel was turned.
pub open spec fn turned_down(event: MouseEvent) -> bool {
    event.kind == MouseEventKind::ScrollDown
}

/// Whether the wheel was turned.
pub open spec fn turned_up(event: MouseEvent) -> bool {
    event.kind == MouseEventKind::ScrollUp
}

/// Whether a wheel goes the way it was turned, three lines for each notch.
pub open spec fn goes_along(wheel: Wheel, event: MouseEvent, count: usize) -> bool {
    &&& wheel.down <==> turned_down(event)
    &&& !wheel.down <==> turned_up(event)
    &&& count * 3 <= usize::MAX ==> wheel.lines == count * 3
    &&& count * 3 > usize::MAX ==> wheel.lines == usize::MAX
}

/// The wheel scrolls the window whose text it is turned over, the way it is
/// turned, three lines a notch; the status line belongs to no text. Neither the
/// pointer nor the other buttons scroll a window.
pub proof fn law_the_wheel_scrolls_what_is_under_it(
    app: App,
    event: MouseEvent,
    count: usize,
    popups: Popups,
    at: int,
)
    requires
        reaches_windows(app, event),
        popups.signature is None,
        !popups.completion,
        popups.hover is None,
        ({
            let panes = app.windows.layout.shown(app.area());
            &&& 0 <= at < panes.len()
            &&& inside(Some(panes[at].1), event.column as int, event.row as int)
            &&& forall|i: int|
                0 <= i < panes.len() && i != at ==> !inside(
                    Some((#[trigger] panes[i]).1),
                    event.column as int,
                    event.row as int,
                )
        }),
    ensures
        ({
            let (window, area) = app.windows.layout.shown(app.area())[at];
            let on_status = event.row + 1 == area.y + area.height;
            let pointed = app.pointed(event, count, popups);
            &&& (turned_down(event) || turned_up(event)) && !on_status ==> {
                pointed matches Pointed::Scroll { id, wheel, rect } && id == window && rect == area
                    && goes_along(wheel, event, count)
            }
            &&& (turned_down(event) || turned_up(event)) && on_status ==> pointed
                == Pointed::Nothing
            &&& pointed is Scroll ==> turned_down(event) || turned_up(event)
        }),
{
    let panes = app.windows.layout.shown(app.area());
    let test = under(event.column as int, event.row as int);
    lemma_first_where(panes, test);
    assert(test(panes[at]));
    let first = crate::find::first_where(panes, test);
    assert(first == at) by {
        if first < panes.len() && first != at {
            assert(test(panes[first]));
            assert(!inside(Some(panes[first].1), event.column as int, event.row as int));
        }
    }
}

/// Popups lie on top of the text of the active window: the wheel scrolls the
/// signature before the hover text, each only where it is drawn, and the menu of
/// suggestions keeps what is turned or pressed over it.
pub proof fn law_popups_take_what_is_over_them(
    app: App,
    event: MouseEvent,
    count: usize,
    popups: Popups,
    pane: Rect,
)
    requires
        reaches_windows(app, event),
        pane_of(app.windows.layout.shown(app.area()), app.window()) == Some(pane),
        inside(Some(pane), event.column as int, event.row as int),
        turned_down(event) || turned_up(event) || event.kind is Down,
    ensures
        ({
            let x = event.column - pane.x;
            let y = event.row - pane.y;
            let pointed = app.pointed(event, count, popups);
            let over_signature = inside(popups.signature, x, y);
            let over_menu = popups.completion && inside(app.mouse.completion, x, y);
            let over_hover = inside(popups.hover, x, y);
            &&& pointed is Signature <==> over_signature
            &&& pointed is Hover <==> !over_signature && !over_menu && over_hover
            &&& over_menu && !over_signature ==> pointed == Pointed::Nothing
            &&& match pointed {
                Pointed::Signature(Some(wheel)) => goes_along(wheel, event, count),
                Pointed::Signature(None) => event.kind is Down,
                Pointed::Hover(Some(wheel)) => goes_along(wheel, event, count),
                Pointed::Hover(None) => event.kind is Down,
                Pointed::Scroll { wheel, .. } => goes_along(wheel, event, count),
                _ => true,
            }
            &&& pointed == Pointed::BeginResize <==> event.kind == MouseEventKind::Down(
                MouseButton::Left,
            ) && !over_signature && !over_menu && !over_hover
        }),
{
}

/// A divider is dragged with the left button: pressing it takes hold, moving it
/// moves the divider and letting it go ends that.
pub proof fn law_the_left_button_drags(app: App, event: MouseEvent, count: usize, popups: Popups)
    requires
        app.mouse.enabled,
        app.mouse.focused,
    ensures
        app.pointed(event, count, popups) == Pointed::Resize <==> app.mouse.drag && (event.kind
            == MouseEventKind::Drag(MouseButton::Left) || event.kind == MouseEventKind::Up(
            MouseButton::Left,
        )),
        app.pointed(event, count, popups) == Pointed::BeginResize ==> event.kind
            == MouseEventKind::Down(MouseButton::Left),
        app.drags(event) ==> app.mouse.drag,
        app.drags(event) ==> event.kind is Drag || event.kind is Moved,
        app.mouse.drag && (event.kind is Drag || event.kind is Moved) ==> app.drags(event),
{
}

/// A press of the left button away from the popups takes hold of a divider.
pub proof fn law_a_press_takes_hold(app: App, event: MouseEvent, count: usize, popups: Popups)
    requires
        reaches_windows(app, event),
        popups.signature is None,
        !popups.completion,
        popups.hover is None,
    ensures
        event.kind == MouseEventKind::Down(MouseButton::Left) ==> app.pointed(event, count, popups)
            == Pointed::BeginResize,
{
}

} // verus!
