//! A transient menu of cheap handles into the language service's action cache.

use crate::app::App;
use crate::editor::{Context, LanguageId, Scope};
use crate::effect::Effect;
use crate::error::Error;
use crate::event::{Event, Key};
use crate::language::{same_id, RequestKind};
use crate::layout::Rect;
use crate::measure::{columns, display_width};
use crate::menu::{drawn_rows, least, most, place, placed, Frame};
use crate::message::Message;
use vstd::prelude::*;

verus! {

/// A code action in the language service's cache.
#[derive(Debug)]
pub struct Action {
    pub id: u64,
    pub title: String,
}

/// The menu of code actions.
#[derive(Debug)]
pub struct Menu {
    pub items: Vec<Action>,
    pub limited: bool,
    pub selected: usize,
    pub top: usize,
    pub width: u16,
    pub visible: usize,
}

#[derive(Debug)]
pub struct State {
    pub context: Option<Context>,
    pub language: Option<LanguageId>,
    pub menu: Option<Menu>,
    pub request: Option<RequestKind>,
}

impl State {
    /// No code action is asked for or on offer.
    pub open spec fn idle() -> State {
        State { context: None, language: None, menu: None, request: None }
    }

    pub fn clear(&mut self)
        ensures
            *final(self) == State::idle(),
    {
        self.context = None;
        self.language = None;
        self.menu = None;
        self.request = None;
    }

    pub fn waiting(&self) -> (waiting: bool)
        ensures
            waiting == (self.request is Some),
    {
        self.request.is_some()
    }
}

/// The columns of the widest title.
pub open spec fn widest_title(items: Seq<Action>) -> nat
    decreases items.len(),
{
    if items.len() == 0 {
        0
    } else {
        let width = display_width(items.last().title@);
        let rest = widest_title(items.drop_last());
        if width >= rest { width } else { rest }
    }
}

/// The columns that a menu of these actions asks for.
pub open spec fn menu_width(items: Seq<Action>) -> int {
    most(24, least(widest_title(items) as int + 4, 96))
}

fn title_width(items: &Vec<Action>) -> (width: u16)
    ensures
        width == menu_width(items@),
{
    let mut width: usize = 0;
    let mut i: usize = 0;
    while i < items.len()
        invariant
            i <= items.len(),
            width == widest_title(items@.take(i as int)),
        decreases items.len() - i,
    {
        let next = columns(items[i].title.as_str());
        assert(items@.take(i + 1).drop_last() =~= items@.take(i as int));
        assert(items@.take(i + 1).last() == items@[i as int]);
        if next >= width {
            width = next;
        }
        i += 1;
    }
    assert(items@.take(i as int) =~= items@);
    if width >= 92 {
        96
    } else if width <= 20 {
        24
    } else {
        width as u16 + 4
    }
}

/// The row a number of rows further down or up a list, around its ends.
pub open spec fn around(selected: int, count: nat, len: int, down: bool) -> int {
    let step = count as int % len;
    if down {
        if selected + step < len { selected + step } else { selected + step - len }
    } else {
        if selected >= step { selected - step } else { selected + len - step }
    }
}

/// Going down a list and up again by as much leads back.
pub proof fn law_up_undoes_down(selected: int, count: nat, len: int)
    requires
        0 <= selected < len,
    ensures
        0 <= around(selected, count, len, true) < len,
        around(around(selected, count, len, true), count, len, false) == selected,
        around(around(selected, count, len, false), count, len, true) == selected,
{
    assert(0 <= count as int % len < len) by (nonlinear_arith)
        requires
            len > 0,
    ;
}

impl Menu {
    /// What every menu keeps: there are actions, and one of them is selected.
    pub open spec fn valid(self) -> bool {
        self.selected < self.items@.len()
    }

    /// How many rows a page key moves.
    pub open spec fn page(self) -> nat {
        if self.visible / 2 == 0 { 1 } else { (self.visible / 2) as nat }
    }
}

impl State {
    /// What every state keeps: a menu is valid and has a place.
    pub open spec fn valid(self) -> bool {
        self.menu matches Some(menu) ==> menu.valid() && self.context is Some
    }

    pub open spec fn visible(self) -> bool {
        self.menu is Some
    }
}

/// What an event means to the menu of actions.
#[derive(Clone, Copy, Debug, PartialEq, Eq, Structural)]
pub enum ActionChoice {
    /// Nothing; others may take it.
    Pass,
    /// Nothing, and nobody else gets it.
    Ignore,
    Close,
    Apply,
    /// Move the selection, by a row or by a page.
    Move { down: bool, page: bool },
    /// Close the menu and let the event act on the document.
    Leave,
}

/// What an event means to the menu of actions.
pub open spec fn action_choice(event: Event) -> ActionChoice {
    match event {
        Event::Key(press) => if press.released {
            ActionChoice::Ignore
        } else {
            match press.key {
                Some(Key::Escape) | Some(Key::Ctrl('c')) => ActionChoice::Close,
                Some(Key::Enter) => ActionChoice::Apply,
                Some(Key::Up) | Some(Key::Ctrl('p')) | Some(Key::BackTab) => ActionChoice::Move {
                    down: false,
                    page: false,
                },
                Some(Key::Down) | Some(Key::Ctrl('n')) | Some(Key::Tab) => ActionChoice::Move {
                    down: true,
                    page: false,
                },
                Some(Key::PageUp) | Some(Key::Ctrl('u')) => ActionChoice::Move {
                    down: false,
                    page: true,
                },
                Some(Key::PageDown) | Some(Key::Ctrl('d')) => ActionChoice::Move {
                    down: true,
                    page: true,
                },
                _ => ActionChoice::Leave,
            }
        },
        Event::Mouse(_) => ActionChoice::Ignore,
        _ => ActionChoice::Pass,
    }
}

fn choice_of(event: &Event) -> (choice: ActionChoice)
    ensures
        choice == action_choice(*event),
{
    match event {
        Event::Key(press) => if press.released {
            ActionChoice::Ignore
        } else {
            match press.key {
                Some(Key::Escape) | Some(Key::Ctrl('c')) => ActionChoice::Close,
                Some(Key::Enter) => ActionChoice::Apply,
                Some(Key::Up) | Some(Key::Ctrl('p')) | Some(Key::BackTab) => ActionChoice::Move {
                    down: false,
                    page: false,
                },
                Some(Key::Down) | Some(Key::Ctrl('n')) | Some(Key::Tab) => ActionChoice::Move {
                    down: true,
                    page: false,
                },
                Some(Key::PageUp) | Some(Key::Ctrl('u')) => ActionChoice::Move {
                    down: false,
                    page: true,
                },
                Some(Key::PageDown) | Some(Key::Ctrl('d')) => ActionChoice::Move {
                    down: true,
                    page: true,
                },
                _ => ActionChoice::Leave,
            }
        },
        Event::Mouse(_) => ActionChoice::Ignore,
        _ => ActionChoice::Pass,
    }
}

/// What a prepared code action still needs.
#[derive(Clone, Copy, Debug, PartialEq, Eq, Structural)]
pub enum Ready {
    /// Nothing; it came too late, or could not be carried out.
    Done,
    /// Its edit is to be applied at this place.
    Edit(Context),
    /// Its server command is to be run.
    Command(u64),
}

/// The menu of actions as it is drawn.
#[derive(Clone, Copy, Debug, PartialEq, Eq, Structural)]
pub struct ActionMenu {
    pub rect: Rect,
    pub limited: bool,
    /// The action on the first row, and how many rows have one.
    pub first: usize,
    pub count: usize,
    pub selected: usize,
}

impl App {
    /// The application that asks for the actions at its place.
    pub open spec fn actions_prepared(self) -> App {
        App {
            actions: State {
                context: Some(
                    Context { scope: Scope::Workspace, stamp: self.editor.workspace_stamp },
                ),
                language: self.editor.language,
                menu: None,
                request: None,
            },
            ..self.picker_closed()
        }
    }

    /// Begins a request for the actions at the present place.
    pub fn prepare_code_actions_request(&mut self, out: &mut Vec<Effect>) -> (kind: RequestKind)
        requires
            old(self).editor.valid(),
        ensures
            *final(self) == old(self).actions_prepared(),
            kind == (RequestKind::CodeActions {
                selection: old(self).editor.spec_primary(),
                context: (Context {
                    scope: Scope::Workspace,
                    stamp: old(self).editor.workspace_stamp,
                }),
            }),
            final(out)@ == old(out)@ + old(self).close_effects(),
    {
        self.close_picker(out);
        self.actions.clear();
        let context = self.editor.workspace_context();
        let kind = RequestKind::CodeActions { selection: self.editor.primary(), context };
        self.actions.context = Some(context);
        self.actions.language = self.editor.language;
        kind
    }

    /// Whether the editor has left the place that the actions are for.
    pub open spec fn actions_stale(self) -> bool {
        ||| self.actions.context matches Some(context) && !context.holds(self.editor)
        ||| self.actions.language != self.editor.language
    }

    /// The application without actions for a place that the editor has left.
    pub open spec fn actions_checked(self) -> App {
        if self.actions_stale() { App { actions: State::idle(), ..self } } else { self }
    }

    pub fn invalidate_code_actions(&mut self)
        ensures
            *final(self) == old(self).actions_checked(),
            old(self).actions.valid() ==> final(self).actions.valid(),
    {
        let moved = match &self.actions.context {
            Some(context) => !context.current(&self.editor),
            None => false,
        };
        if moved || !same_id(self.actions.language, self.editor.language) {
            self.actions.clear();
        }
    }

    /// Takes the request to carry out an action.
    pub fn take_code_action_request(&mut self) -> (request: Option<RequestKind>)
        ensures
            request == old(self).actions_checked().actions.request,
            *final(self) == (App {
                actions: State { request: None, ..old(self).actions_checked().actions },
                ..*old(self)
            }),
            old(self).actions.valid() ==> final(self).actions.valid(),
    {
        self.invalidate_code_actions();
        self.actions.request.take()
    }

    /// The application that offers actions.
    pub open spec fn actions_offered(self, items: Vec<Action>, limited: bool) -> App {
        let app = self.actions_checked();
        if app.actions.context is None {
            app
        } else if items@.len() == 0 {
            App { actions: State::idle(), ..app }.says(Message::NoCodeActions)
        } else {
            App {
                actions: State {
                    menu: Some(
                        Menu {
                            items,
                            limited,
                            selected: 0,
                            top: 0,
                            width: menu_width(items@) as u16,
                            visible: 10,
                        },
                    ),
                    ..app.actions
                },
                ..app
            }.says(Message::CodeActions)
        }
    }

    /// Offers the actions that the server knows, in a menu.
    pub fn receive_code_actions(&mut self, items: Vec<Action>, limited: bool)
        ensures
            *final(self) == old(self).actions_offered(items, limited),
            old(self).actions.valid() ==> final(self).actions.valid(),
    {
        self.invalidate_code_actions();
        if self.actions.context.is_none() {
            return;
        }
        if items.len() == 0 {
            self.actions.clear();
            self.message = Message::NoCodeActions;
            return;
        }
        let width = title_width(&items);
        self.actions.menu = Some(
            Menu { items, limited, selected: 0, top: 0, width, visible: 10 },
        );
        self.message = Message::CodeActions;
    }

    /// What is left to do of a prepared action: `edit` says whether it edits.
    pub open spec fn action_ready(self, edit: bool, command: Option<u64>) -> Ready {
        match self.actions_checked().actions.context {
            None => Ready::Done,
            Some(context) => if edit {
                Ready::Edit(context)
            } else {
                match command {
                    Some(command) => Ready::Command(command),
                    None => Ready::Done,
                }
            },
        }
    }

    /// The application once a prepared action has come.
    pub open spec fn action_taken(self, edit: bool, command: Option<u64>) -> App {
        let app = App { actions: State::idle(), ..self };
        if self.actions_checked().actions.context is Some && !edit && command is None {
            app.failed(Error::EmptyCodeAction)
        } else {
            app
        }
    }

    /// Takes a prepared action: its edit comes first, and its command only
    /// where it has no edit. Without either it fails.
    pub fn receive_code_action_ready(&mut self, edit: bool, command: Option<u64>) -> (ready: Ready)
        ensures
            ready == old(self).action_ready(edit, command),
            *final(self) == old(self).action_taken(edit, command),
    {
        self.invalidate_code_actions();
        let context = self.actions.context.take();
        self.actions.clear();
        let context = match context {
            Some(context) => context,
            None => {
                return Ready::Done;
            },
        };
        if edit {
            return Ready::Edit(context);
        }
        match command {
            Some(command) => Ready::Command(command),
            None => {
                self.fail(Error::EmptyCodeAction);
                Ready::Done
            },
        }
    }

    /// The application with another menu of actions.
    pub open spec fn with_menu(self, menu: Menu) -> App {
        App { actions: State { menu: Some(menu), ..self.actions }, ..self }
    }

    /// The application after its menu of actions took an event.
    pub open spec fn action_chosen(self, choice: ActionChoice) -> App {
        let menu = self.actions.menu->0;
        match choice {
            ActionChoice::Pass | ActionChoice::Ignore => self,
            ActionChoice::Close => self.request_cancelled().cleared(),
            ActionChoice::Apply => App {
                actions: State {
                    menu: None,
                    request: Some(
                        RequestKind::ApplyCodeAction {
                            action: menu.items@[menu.selected as int].id,
                            context: self.actions.context->0,
                        },
                    ),
                    ..self.actions
                },
                ..self
            },
            ActionChoice::Move { down, page } => self.with_menu(
                Menu {
                    selected: around(
                        menu.selected as int,
                        if page { menu.page() } else { 1 },
                        menu.items@.len() as int,
                        down,
                    ) as usize,
                    ..menu
                },
            ),
            ActionChoice::Leave => App { actions: State::idle(), ..self },
        }
    }

    /// Gives an event to the menu of actions. Returns whether to redraw, where
    /// the event needs no further handling.
    pub fn handle_code_action_input(&mut self, event: &Event, out: &mut Vec<Effect>) -> (redraw:
        Option<bool>)
        requires
            old(self).actions.valid(),
        ensures
            action_event_taken(
                *old(self),
                *event,
                *final(self),
                old(out)@,
                final(out)@,
                redraw,
            ),
            final(self).actions.valid(),
    {
        self.invalidate_code_actions();
        assert(old(out)@ + Seq::<Effect>::empty() =~= old(out)@);
        let menu = match &mut self.actions.menu {
            Some(menu) => menu,
            None => {
                return None;
            },
        };
        match choice_of(event) {
            ActionChoice::Pass => None,
            ActionChoice::Ignore => Some(false),
            ActionChoice::Close => {
                self.cancel_language_request(out);
                self.clear_message();
                Some(true)
            },
            ActionChoice::Apply => {
                let action = menu.items[menu.selected].id;
                self.actions.menu = None;
                match self.actions.context {
                    Some(context) => {
                        self.actions.request = Some(
                            RequestKind::ApplyCodeAction { action, context },
                        );
                    },
                    None => {},
                }
                Some(true)
            },
            ActionChoice::Move { down, page } => {
                let count: usize = if page {
                    if menu.visible / 2 == 0 { 1 } else { menu.visible / 2 }
                } else {
                    1
                };
                let len = menu.items.len();
                let step: usize = count % len;
                let selected = menu.selected;
                menu.selected = if down {
                    if selected < len - step { selected + step } else { selected - (len - step) }
                } else {
                    if selected >= step { selected - step } else { selected + (len - step) }
                };
                Some(true)
            },
            ActionChoice::Leave => {
                self.actions.clear();
                None
            },
        }
    }

    /// Where the menu of actions stands.
    pub open spec fn action_rect(self, frame: Frame, body: u16) -> Option<Rect> {
        match (self.actions.menu, frame.cursor) {
            (Some(menu), Some(cursor)) => placed(
                least(menu.width as int, frame.width as int) as u16,
                (least(menu.items@.len() as int, 10) + 2) as u16,
                frame.width,
                body,
                cursor,
            ),
            _ => None,
        }
    }

    /// The first action of a menu with room for `visible` rows: the selected
    /// one is shown, and no row is left empty that could be filled.
    pub open spec fn action_top(menu: Menu, visible: int) -> int {
        least(
            most(
                least(menu.top as int, menu.selected as int),
                most(menu.selected - (visible - 1), 0),
            ),
            most(menu.items@.len() - visible, 0),
        )
    }

    /// The application after its menu of actions was drawn.
    pub open spec fn actions_drawn(self, frame: Frame, body: u16) -> App {
        match self.action_rect(frame, body) {
            Some(rect) => {
                let menu = self.actions.menu->0;
                let visible = rect.height - 2;
                self.with_menu(
                    Menu {
                        visible: visible as usize,
                        top: App::action_top(menu, visible) as usize,
                        ..menu
                    },
                )
            },
            None => self,
        }
    }

    /// Decides how the menu of actions is drawn in the body of a pane.
    pub fn paint_code_actions(&mut self, frame: Frame, body: u16) -> (drawn: Option<ActionMenu>)
        requires
            old(self).actions.valid(),
        ensures
            ({
                let app = old(self).actions_checked();
                &&& *final(self) == app.actions_drawn(frame, body)
                &&& match app.action_rect(frame, body) {
                    Some(rect) => {
                        let menu = app.actions.menu->0;
                        let top = App::action_top(menu, rect.height - 2);
                        drawn == Some(
                            ActionMenu {
                                rect,
                                limited: menu.limited,
                                first: top as usize,
                                count: drawn_rows(
                                    menu.items@.len(),
                                    top as usize,
                                    rect.height - 2,
                                ) as usize,
                                selected: menu.selected,
                            },
                        )
                    },
                    None => drawn is None,
                }
            }),
            final(self).actions.valid(),
    {
        self.invalidate_code_actions();
        match &mut self.actions.menu {
            Some(menu) => draw_actions(menu, frame, body),
            None => None,
        }
    }
}

fn draw_actions(menu: &mut Menu, frame: Frame, body: u16) -> (drawn: Option<ActionMenu>)
    requires
        old(menu).valid(),
    ensures
        ({
            let rect = match frame.cursor {
                Some(cursor) => placed(
                    least(old(menu).width as int, frame.width as int) as u16,
                    (least(old(menu).items@.len() as int, 10) + 2) as u16,
                    frame.width,
                    body,
                    cursor,
                ),
                None => None,
            };
            match rect {
                Some(rect) => {
                    let top = App::action_top(*old(menu), rect.height - 2);
                    &&& *final(menu) == (Menu {
                        visible: (rect.height - 2) as usize,
                        top: top as usize,
                        ..*old(menu)
                    })
                    &&& drawn == Some(
                        ActionMenu {
                            rect,
                            limited: old(menu).limited,
                            first: top as usize,
                            count: drawn_rows(
                                old(menu).items@.len(),
                                top as usize,
                                rect.height - 2,
                            ) as usize,
                            selected: old(menu).selected,
                        },
                    )
                },
                None => *final(menu) == *old(menu) && drawn is None,
            }
        }),
{
    let cursor = match frame.cursor {
        Some(cursor) => cursor,
        None => {
            return None;
        },
    };
    let width: u16 = if menu.width <= frame.width { menu.width } else { frame.width };
    let len = menu.items.len();
    let desired: u16 = if len <= 10 { len as u16 + 2 } else { 12 };
    let rect = match place(width, desired, frame.width, body, cursor) {
        Some(rect) => rect,
        None => {
            return None;
        },
    };
    let visible: usize = (rect.height - 2) as usize;
    let selected = menu.selected;
    let low: usize = if selected >= visible - 1 { selected - (visible - 1) } else { 0 };
    let near: usize = if menu.top <= selected { menu.top } else { selected };
    let near: usize = if near >= low { near } else { low };
    let last: usize = if len >= visible { len - visible } else { 0 };
    let top: usize = if near <= last { near } else { last };
    menu.visible = visible;
    menu.top = top;
    let count: usize = if top < len {
        if visible <= len - top { visible } else { len - top }
    } else {
        0
    };
    Some(ActionMenu { rect, limited: menu.limited, first: top, count, selected })
}

/// The selected action is always on the screen.
pub proof fn law_the_selected_action_is_shown(menu: Menu, visible: int)
    requires
        menu.valid(),
        visible >= 1,
    ensures
        App::action_top(menu, visible) <= menu.selected < App::action_top(menu, visible) + visible,
{
}

/// Whether the menu of actions took an event as it should.
pub open spec fn action_event_taken(
    before: App,
    event: Event,
    after: App,
    asked: Seq<Effect>,
    asks: Seq<Effect>,
    redraw: Option<bool>,
) -> bool {
    let app = before.actions_checked();
    if app.actions.menu is None {
        redraw is None && after == app && asks == asked
    } else {
        let choice = action_choice(event);
        &&& after == app.action_chosen(choice)
        &&& asks == asked + if choice == ActionChoice::Close {
            app.language.cancel_effects()
        } else {
            seq![]
        }
        &&& redraw == match choice {
            ActionChoice::Pass | ActionChoice::Leave => None,
            ActionChoice::Ignore => Some(false),
            _ => Some(true),
        }
    }
}

} // verus!
