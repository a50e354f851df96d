//! Pointer routing uses the same pane rectangles as drawing. Reading an
//! inactive view never changes focus, undo grouping, or its selections.

use crate::app::App;
use crate::event::{MouseButton, MouseEvent, MouseEventKind};
use crate::find::{first_where, lemma_is_first};
use crate::layout::{Rect, WindowId};
use crate::message::Message;
use crate::text::same_text;
use vstd::prelude::*;

verus! {

/// Whether pointer input is used, and for what.
#[derive(Clone, Copy, Debug, PartialEq, Eq, Structural)]
pub struct State {
    pub enabled: bool,
    pub focused: bool,
    /// Whether a divider is being dragged.
    pub drag: bool,
    /// Where the menu of suggestions was drawn, in its pane.
    pub completion: Option<Rect>,
    /// Where the key hints were drawn.
    pub hints: Option<Rect>,
}

impl Default for State {
    fn default() -> (state: State)
        ensures
            state == (State {
                enabled: true,
                focused: true,
                drag: false,
                completion: None,
                hints: None,
            }),
    {
        State { enabled: true, focused: true, drag: false, completion: None, hints: None }
    }
}

/// Popups of the active pane that take pointer input, in its coordinates.
#[derive(Clone, Copy, Debug, PartialEq, Eq, Structural)]
pub struct Popups {
    /// The signature, where it is drawn.
    pub signature: Option<Rect>,
    /// Whether the menu of suggestions is drawn.
    pub completion: bool,
    /// The hover popup, where it is drawn.
    pub hover: Option<Rect>,
}

/// A number of lines to scroll.
#[derive(Clone, Copy, Debug, PartialEq, Eq, Structural)]
pub struct Wheel {
    pub down: bool,
    pub lines: usize,
}

/// What a pointer event does.
#[derive(Clone, Copy, Debug, PartialEq, Eq, Structural)]
pub enum Pointed {
    /// Nothing.
    Nothing,
    /// Move the divider that is dragged.
    Resize,
    /// Begin to drag the divider at the pointer, where there is one.
    BeginResize,
    /// Scroll the signature, where the wheel was turned over it.
    Signature(Option<Wheel>),
    /// Scroll the hover popup, where the wheel was turned over it.
    Hover(Option<Wheel>),
    /// Scroll a window.
    Scroll { id: WindowId, wheel: Wheel, rect: Rect },
}

/// What a turn of the wheel scrolls: three lines for each notch.
pub open spec fn wheel_of(kind: MouseEventKind, count: usize) -> Option<Wheel> {
    let lines = if count * 3 <= usize::MAX { (count * 3) as usize } else { usize::MAX };
    match kind {
        MouseEventKind::ScrollDown => Some(Wheel { down: true, lines }),
        MouseEventKind::ScrollUp => Some(Wheel { down: false, lines }),
        _ => None,
    }
}

fn turned(kind: MouseEventKind, count: usize) -> (wheel: Option<Wheel>)
    ensures
        wheel == wheel_of(kind, count),
{
    let lines: usize = match count.checked_mul(3) {
        Some(lines) => lines,
        None => usize::MAX,
    };
    match kind {
        MouseEventKind::ScrollDown => Some(Wheel { down: true, lines }),
        MouseEventKind::ScrollUp => Some(Wheel { down: false, lines }),
        _ => None,
    }
}

/// Whether a cell lies in an area, where there is one.
pub open spec fn covers(area: Option<Rect>, x: int, y: int) -> bool {
    area matches Some(area) && area.has_cell(x, y)
}

fn is_over(area: Option<Rect>, x: u16, y: u16) -> (yes: bool)
    ensures
        yes == covers(area, x as int, y as int),
{
    match area {
        Some(area) => area.contains(x, y),
        None => false,
    }
}

/// The test whether a pane covers a cell.
pub open spec fn under(x: int, y: int) -> spec_fn((WindowId, Rect)) -> bool {
    |pane: (WindowId, Rect)| pane.1.has_cell(x, y)
}

/// The window whose text is under a cell: not its status line.
pub open spec fn window_under(
    panes: Seq<(WindowId, Rect)>,
    x: int,
    y: int,
) -> Option<(WindowId, Rect)> {
    let at = first_where(panes, under(x, y));
    if at < panes.len() && y < panes[at].1.y + (if panes[at].1.height == 0 {
        0int
    } else {
        panes[at].1.height - 1
    }) {
        Some(panes[at])
    } else {
        None
    }
}

fn window_at(panes: &Vec<(WindowId, Rect)>, x: u16, y: u16) -> (found: Option<(WindowId, Rect)>)
    ensures
        found == window_under(panes@, x as int, y as int),
{
    let mut i: usize = 0;
    while i < panes.len() && !panes[i].1.contains(x, y)
        invariant
            i <= panes.len(),
            forall|j: int| 0 <= j < i ==> !under(x as int, y as int)(#[trigger] panes@[j]),
        decreases panes.len() - i,
    {
        i += 1;
    }
    proof {
        lemma_is_first(panes@, under(x as int, y as int), i as int);
    }
    if i == panes.len() {
        return None;
    }
    let (id, rect) = panes[i];
    let rows: u32 = if rect.height == 0 { 0 } else { (rect.height - 1) as u32 };
    if (y as u32) < rect.y as u32 + rows {
        Some((id, rect))
    } else {
        None
    }
}

impl App {
    pub fn mouse_enabled(&self) -> (enabled: bool)
        ensures
            enabled == self.mouse.enabled,
    {
        self.mouse.enabled
    }

    /// Turns pointer input on or off, or, without an argument, only says which
    /// it is.
    pub fn configure_mouse(&mut self, argument: &str)
        ensures
            mouse_configured(*old(self), argument@, *final(self)),
    {
        if !argument.is_empty() {
            self.mouse.enabled = same_text(argument, "on");
            self.cancel_mouse_drag();
        }
        self.message = if self.mouse.enabled { Message::MouseOn } else { Message::MouseOff };
    }

    pub fn cancel_mouse_drag(&mut self)
        ensures
            *final(self) == (App {
                mouse: State { drag: false, ..old(self).mouse },
                ..*old(self)
            }),
    {
        self.mouse.drag = false;
    }

    /// Takes note of whether the terminal has the focus.
    pub fn mouse_focus(&mut self, focused: bool)
        ensures
            *final(self) == (App {
                mouse: State { focused, drag: false, ..old(self).mouse },
                ..*old(self)
            }),
    {
        self.mouse.focused = focused;
        self.cancel_mouse_drag();
    }

    /// Whether a dialog owns pointer input, which then never reaches the panes
    /// underneath.
    pub open spec fn pointer_blocked(self, x: int, y: int) -> bool {
        ||| self.prompt is Some
        ||| self.picker.active is Some
        ||| self.actions.menu is Some
        ||| self.editor.keys_pending && covers(self.mouse.hints, x, y)
    }

    /// What a pointer event does to the popups of the active pane, where one of
    /// them is under the pointer.
    pub open spec fn over_popup(
        self,
        popups: Popups,
        x: int,
        y: int,
        wheel: Option<Wheel>,
    ) -> Option<Pointed> {
        match crate::layout::pane_of(self.windows.layout.shown(self.area()), self.window()) {
            Some(pane) => if !pane.has_cell(x, y) {
                None
            } else if covers(popups.signature, x - pane.x, y - pane.y) {
                Some(Pointed::Signature(wheel))
            } else if popups.completion && covers(
                self.mouse.completion,
                x - pane.x,
                y - pane.y,
            ) {
                Some(Pointed::Nothing)
            } else if covers(popups.hover, x - pane.x, y - pane.y) {
                Some(Pointed::Hover(wheel))
            } else {
                None
            },
            None => None,
        }
    }

    /// What a pointer event does. `count` combines adjacent turns of the wheel.
    pub open spec fn pointed(self, event: MouseEvent, count: usize, popups: Popups) -> Pointed {
        let x = event.column as int;
        let y = event.row as int;
        let wheel = wheel_of(event.kind, count);
        let dragged = event.kind == MouseEventKind::Drag(MouseButton::Left) || event.kind
            == MouseEventKind::Up(MouseButton::Left);
        if !self.mouse.enabled || !self.mouse.focused {
            Pointed::Nothing
        } else if dragged && self.mouse.drag {
            Pointed::Resize
        } else if event.kind is Up || event.kind is Moved || event.kind is Drag {
            Pointed::Nothing
        } else if self.pointer_blocked(x, y) {
            Pointed::Nothing
        } else {
            match self.over_popup(popups, x, y, wheel) {
                Some(pointed) => pointed,
                None => if event.kind == MouseEventKind::Down(MouseButton::Left) {
                    Pointed::BeginResize
                } else {
                    match (wheel, window_under(self.windows.layout.shown(self.area()), x, y)) {
                        (Some(wheel), Some((id, rect))) => Pointed::Scroll {
                            id,
                            wheel,
                            rect,
                        },
                        _ => Pointed::Nothing,
                    }
                },
            }
        }
    }

    /// Whether a divider is still dragged after a pointer event: only moving it
    /// goes on with that, and moving the pointer alone does not end it.
    pub open spec fn drags(self, event: MouseEvent) -> bool {
        if !self.mouse.enabled || !self.mouse.focused {
            self.mouse.drag
        } else {
            match event.kind {
                MouseEventKind::Drag(_) | MouseEventKind::Moved => self.mouse.drag,
                _ => false,
            }
        }
    }

    /// Routes a pointer event. `count` combines only adjacent wheel events at
    /// identical coordinates.
    pub fn handle_mouse(&mut self, event: MouseEvent, count: usize, popups: Popups) -> (pointed:
        Pointed)
        ensures
            pointed == old(self).pointed(event, count, popups),
            *final(self) == (App {
                mouse: State { drag: old(self).drags(event), ..old(self).mouse },
                ..*old(self)
            }),
    {
        if !self.mouse.enabled || !self.mouse.focused {
            return Pointed::Nothing;
        }
        match event.kind {
            MouseEventKind::Drag(MouseButton::Left) => {
                return if self.mouse.drag { Pointed::Resize } else { Pointed::Nothing };
            },
            MouseEventKind::Up(button) => {
                let dragged = self.mouse.drag && button == MouseButton::Left;
                self.cancel_mouse_drag();
                return if dragged { Pointed::Resize } else { Pointed::Nothing };
            },
            MouseEventKind::Moved | MouseEventKind::Drag(_) => {
                return Pointed::Nothing;
            },
            _ => {
                self.cancel_mouse_drag();
            },
        }
        let (x, y) = (event.column, event.row);
        if self.prompt.is_some() || self.picker.active.is_some() || self.actions.menu.is_some() || (
        self.editor.keys_pending && is_over(self.mouse.hints, x, y)) {
            return Pointed::Nothing;
        }
        let wheel = turned(event.kind, count);
        match self.popup_at(popups, x, y, wheel) {
            Some(pointed) => {
                return pointed;
            },
            None => {},
        }
        match event.kind {
            MouseEventKind::Down(MouseButton::Left) => {
                return Pointed::BeginResize;
            },
            _ => {},
        }
        let wheel = match wheel {
            Some(wheel) => wheel,
            None => {
                return Pointed::Nothing;
            },
        };
        let area = self.window_area();
        let (panes, _) = self.windows.layout.visible(area);
        match window_at(&panes, x, y) {
            Some((id, rect)) => Pointed::Scroll { id, wheel, rect },
            None => Pointed::Nothing,
        }
    }

    fn popup_at(&self, popups: Popups, x: u16, y: u16, wheel: Option<Wheel>) -> (pointed: Option<
        Pointed,
    >)
        ensures
            pointed == self.over_popup(popups, x as int, y as int, wheel),
    {
        let area = self.window_area();
        let (panes, _) = self.windows.layout.visible(area);
        let active = self.windows.layout.active;
        let ghost all = panes@;
        let mut i: usize = 0;
        assert(all.skip(0) =~= all);
        while i < panes.len() && panes[i].0 != active
            invariant
                i <= panes.len(),
                all == panes@,
                crate::layout::pane_of(all, active) == crate::layout::pane_of(
                    all.skip(i as int),
                    active,
                ),
            decreases panes.len() - i,
        {
            assert(all.skip(i as int).drop_first() =~= all.skip(i + 1));
            i += 1;
        }
        if i == panes.len() {
            return None;
        }
        let pane = panes[i].1;
        if !pane.contains(x, y) {
            return None;
        }
        let (local_x, local_y) = (x - pane.x, y - pane.y);
        if is_over(popups.signature, local_x, local_y) {
            Some(Pointed::Signature(wheel))
        } else if popups.completion && is_over(self.mouse.completion, local_x, local_y) {
            Some(Pointed::Nothing)
        } else if is_over(popups.hover, local_x, local_y) {
            Some(Pointed::Hover(wheel))
        } else {
            None
        }
    }

    /// Takes note of whether a divider was there to be dragged.
    pub fn resize_begun(&mut self, drag: bool)
        ensures
            *final(self) == (App { mouse: State { drag, ..old(self).mouse }, ..*old(self) }),
    {
        self.mouse.drag = drag;
    }
}

/// Nothing under a dialog is scrolled or dragged.
pub proof fn law_dialogs_block_the_pointer(
    app: App,
    event: MouseEvent,
    count: usize,
    popups: Popups,
)
    requires
        !app.mouse.drag,
        app.prompt is Some || app.picker.active is Some || app.actions.menu is Some,
    ensures
        app.pointed(event, count, popups) == Pointed::Nothing,
{
}

/// Pointer input is ignored while it is turned off or the terminal does not
/// have the focus.
pub proof fn law_the_pointer_can_be_turned_off(
    app: App,
    event: MouseEvent,
    count: usize,
    popups: Popups,
)
    requires
        !app.mouse.enabled || !app.mouse.focused,
    ensures
        app.pointed(event, count, popups) == Pointed::Nothing,
        app.drags(event) == app.mouse.drag,
{
}

/// Whether pointer input was turned on or off as it should be.
pub open spec fn mouse_configured(before: App, argument: Seq<char>, now: App) -> bool {
    let mouse = if argument.len() > 0 {
        State { enabled: argument == "on"@, drag: false, ..before.mouse }
    } else {
        before.mouse
    };
    now == App { mouse, ..before }.says(
        if mouse.enabled { Message::MouseOn } else { Message::MouseOff },
    )
}

} // verus!
