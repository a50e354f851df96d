//! Which part of the application an event belongs to, and what the editor asks
//! of the application.

use crate::actions::action_event_taken;
use crate::app::{App, PromptKind};
use crate::buffers::lemma_recorded;
use crate::clipboard::ClipboardAction;
use crate::completion::{menu_event_taken, MenuChoice, Typing};
use crate::document::{document_event_taken, lemma_preview_is_sound};
use crate::editor::{SearchStatus, Time};
use crate::effect::Effect;
use crate::error::Error;
use crate::event::{Event, Key};
use crate::git_write::{commit_event_taken, CommitStep};
use crate::message::Message;
use crate::mouse::{self, Pointed, Popups};
use crate::picker::Target;
use crate::pickers::{action_for, picker_event_taken, Heard};
use crate::picking::Action;
use crate::server::hover_event_taken;
use crate::signature::signature_event_taken;
use crate::status::status_refreshed;
use crate::status_keys::{status_event_taken, StatusStep};
use crate::symbols::QUERY_DELAY;
use crate::travel::WindowAction;
use crate::windows::Screen;
use vstd::prelude::*;

verus! {

/// So many steps of a repeated command run between two events.
pub const REPEAT_STEPS: usize = 64;

/// What the views and the keymap know of an event.
#[derive(Debug)]
pub struct Inputs {
    pub now: Time,
    /// What the open picker's view made of the key.
    pub action: Action,
    /// Whether the screen leaves room for a preview.
    pub room: bool,
    /// Whether a count was typed.
    pub counted: bool,
    /// Whether the leader key was typed before.
    pub space: bool,
    /// Whether a request for the signature is pending.
    pub requested: bool,
    /// The popups that take pointer input.
    pub popups: Popups,
}

/// What became of an event.
#[derive(Debug)]
pub enum Handled {
    /// Nothing is left to do but to redraw, or not.
    Done { redraw: bool },
    /// The picker took it, and may have accepted an entry.
    Picker { redraw: bool, target: Option<Target> },
    /// The commit message took it.
    Commit(CommitStep),
    /// The repository view took it.
    Status(StatusStep),
    /// Signature help took it, and may scroll.
    Signature { redraw: bool, down: Option<bool> },
    /// The pointer did something.
    Pointer(Pointed),
    /// The document took it. The key, where one was typed into the text, may
    /// ask for completions.
    Document { redraw: bool, typing: Option<Typing> },
}

impl App {
    /// What holds of the application between two events: its windows are in
    /// order, and what is selected in a menu is there.
    pub open spec fn sound(self) -> bool {
        &&& self.screen().valid()
        &&& self.completion.valid()
        &&& self.actions.valid()
        &&& self.signature.valid()
    }

    /// What the routing of events relies on. The counters are far from their
    /// ends.
    pub open spec fn listening(self, inputs: Inputs) -> bool {
        &&& self.sound()
        &&& self.picker.active is Some ==> self.picker.active->0.revision < u64::MAX
            && self.picker.active->0.preview_request < u64::MAX
        &&& self.navigation.next < u64::MAX
        &&& inputs.now + QUERY_DELAY <= u64::MAX
    }

    /// The application whose pointer follows an event of another sort: the
    /// divider that was dragged is let go.
    pub open spec fn pointer_followed(self, event: Event) -> App {
        match event {
            Event::FocusGained => App {
                mouse: mouse::State { focused: true, drag: false, ..self.mouse },
                ..self
            },
            Event::FocusLost => App {
                mouse: mouse::State { focused: false, drag: false, ..self.mouse },
                ..self
            },
            Event::Resize(_, _) => App {
                mouse: mouse::State { drag: false, ..self.mouse },
                ..self
            },
            Event::Key(press) => if press.released {
                self
            } else {
                App { mouse: mouse::State { drag: false, ..self.mouse }, ..self }
            },
            _ => self,
        }
    }

    /// Handles one event, and says what is left to do. Escape and Ctrl-c give
    /// up a clipboard transfer before anything else, and then a location that
    /// is being loaded. The pointer has its own
    /// way; other events go to the picker, the commit message, the repository
    /// view, the menu of actions, the hover popup, the signature and the menu
    /// of suggestions in turn, until one of them takes it, and else to the
    /// document.
    pub fn handle(&mut self, event: Event, inputs: Inputs, out: &mut Vec<Effect>) -> (handled:
        Handled)
        requires
            old(self).listening(inputs),
        ensures
            event_handled(
                *old(self),
                event,
                inputs,
                *final(self),
                old(out)@,
                final(out)@,
                handled,
            ),
            final(self).sound(),
    {
        self.invalidate_clipboard(out);
        let leaves = match event.key() {
            Some(Key::Escape) | Some(Key::Ctrl('c')) => true,
            _ => false,
        };
        if leaves && self.give_up(out) {
            return Handled::Done { redraw: true };
        }
        match event {
            Event::Mouse(mouse) => Handled::Pointer(self.handle_mouse(mouse, 1, inputs.popups)),
            _ => {
                self.follow_pointer(&event);
                self.route_focus(event, inputs, out)
            },
        }
    }

    /// Whether keys wait for a location that may be given up: a picker in
    /// front of it is left first.
    pub open spec fn location_waits(self) -> bool {
        self.navigation.pending is Some && self.picker.active is None
    }

    /// Gives up the clipboard transfer, or else the location, that keys wait
    /// for.
    fn give_up(&mut self, out: &mut Vec<Effect>) -> (done: bool)
        requires
            old(self).sound(),
        ensures
            done == (old(self).transfer_waits() || old(self).location_waits()),
            *final(self) == if old(self).transfer_waits() {
                old(self).clipboard_cancelled().cleared()
            } else if old(self).location_waits() {
                old(self).navigation_cancelled().cleared()
            } else {
                *old(self)
            },
            final(out)@ == if old(self).transfer_waits() {
                (old(out)@ + old(self).clipboard.cancel_effects()).push(Effect::CancelKeys)
            } else if old(self).location_waits() {
                (old(out)@ + old(self).navigation.cancel_effects()).push(Effect::CancelKeys)
            } else {
                old(out)@
            },
            final(self).sound(),
    {
        if self.clipboard_waiting() {
            self.cancel_clipboard(out);
        } else if self.location_navigation_waiting() && self.picker.active.is_none() {
            self.cancel_location_navigation(out);
        } else {
            return false;
        }
        out.push(Effect::CancelKeys);
        self.clear_message();
        true
    }

    fn follow_pointer(&mut self, event: &Event)
        ensures
            *final(self) == old(self).pointer_followed(*event),
    {
        match event {
            Event::FocusGained => {
                self.mouse_focus(true);
            },
            Event::FocusLost => {
                self.mouse_focus(false);
            },
            Event::Resize(_, _) => {
                self.cancel_mouse_drag();
            },
            Event::Key(press) => {
                if !press.released {
                    self.cancel_mouse_drag();
                }
            },
            _ => {},
        }
    }

    fn route_focus(&mut self, event: Event, inputs: Inputs, out: &mut Vec<Effect>) -> (handled:
        Handled)
        requires
            old(self).listening(inputs),
        ensures
            focus_routed(*old(self), event, inputs, *final(self), old(out)@, final(out)@, handled),
            final(self).sound(),
    {
        match event {
            Event::FocusGained => {
                self.refresh_git(inputs.now, out);
                self.refresh_status(inputs.now, out);
            },
            _ => {},
        }
        assert(focus_taken(*old(self), event, inputs.now, *self, old(out)@, out@));
        self.route_picker(event, inputs, out)
    }

    fn route_picker(&mut self, event: Event, inputs: Inputs, out: &mut Vec<Effect>) -> (handled:
        Handled)
        requires
            old(self).listening(inputs),
        ensures
            picker_routed(*old(self), event, inputs, *final(self), old(out)@, final(out)@, handled),
            final(self).sound(),
    {
        let Inputs { now, action, room, counted, space, requested, popups } = inputs;
        let (redraw, target) = self.handle_picker_input(&event, action, now, room, out);
        assert(picker_event_taken(
            *old(self),
            event,
            inputs.action,
            now,
            room,
            *self,
            old(out)@,
            out@,
            (redraw, target),
        ));
        proof {
            lemma_picker_is_sound(
                *old(self),
                event,
                inputs.action,
                now,
                room,
                *self,
                old(out)@,
                out@,
                (redraw, target),
            );
        }
        match redraw {
            Some(redraw) => Handled::Picker { redraw, target },
            None => {
                let facts = Facts { now, room, counted, space, requested, menu: popups.completion };
                self.route_commit(event, facts, out)
            },
        }
    }

    fn route_commit(&mut self, event: Event, facts: Facts, out: &mut Vec<Effect>) -> (handled:
        Handled)
        requires
            old(self).still_listening(),
        ensures
            commit_routed(*old(self), event, facts, *final(self), old(out)@, final(out)@, handled),
            final(self).sound(),
    {
        let step = self.handle_commit_input(&event, facts.counted, out);
        assert(commit_event_taken(
            *old(self),
            event,
            facts.counted,
            *self,
            old(out)@,
            out@,
            step,
        ));
        match step {
            CommitStep::Pass => self.route_status(event, facts, out),
            step => Handled::Commit(step),
        }
    }

    fn route_status(&mut self, event: Event, facts: Facts, out: &mut Vec<Effect>) -> (handled:
        Handled)
        requires
            old(self).still_listening(),
        ensures
            status_routed(*old(self), event, facts, *final(self), old(out)@, final(out)@, handled),
            final(self).sound(),
    {
        let step = self.handle_status_input(&event, facts.space, facts.now, out);
        assert(status_event_taken(
            *old(self),
            event,
            facts.space,
            facts.now,
            *self,
            old(out)@,
            out@,
            step,
        ));
        match step {
            Some(step) => Handled::Status(step),
            None => self.route_actions(event, facts, out),
        }
    }

    fn route_actions(&mut self, event: Event, facts: Facts, out: &mut Vec<Effect>) -> (handled:
        Handled)
        requires
            old(self).still_listening(),
        ensures
            actions_routed(*old(self), event, facts, *final(self), old(out)@, final(out)@, handled),
            final(self).sound(),
    {
        let redraw = self.handle_code_action_input(&event, out);
        assert(action_event_taken(*old(self), event, *self, old(out)@, out@, redraw));
        match redraw {
            Some(redraw) => Handled::Done { redraw },
            None => self.route_hover(event, facts, out),
        }
    }

    fn route_hover(&mut self, event: Event, facts: Facts, out: &mut Vec<Effect>) -> (handled:
        Handled)
        requires
            old(self).still_listening(),
        ensures
            hover_routed(*old(self), event, facts, *final(self), old(out)@, final(out)@, handled),
            final(self).sound(),
    {
        let redraw = self.handle_hover_input(&event, out);
        assert(hover_event_taken(*old(self), event, *self, old(out)@, out@, redraw));
        match redraw {
            Some(redraw) => Handled::Done { redraw },
            None => self.route_signature(event, facts, out),
        }
    }

    fn route_signature(&mut self, event: Event, facts: Facts, out: &mut Vec<Effect>) -> (handled:
        Handled)
        requires
            old(self).still_listening(),
        ensures
            signature_routed(
                *old(self),
                event,
                facts,
                *final(self),
                old(out)@,
                final(out)@,
                handled,
            ),
            final(self).sound(),
    {
        let (redraw, down) = self.handle_signature_input(
            &event,
            facts.requested,
            facts.menu,
            out,
        );
        assert(signature_event_taken(
            *old(self),
            event,
            facts.requested,
            facts.menu,
            *self,
            old(out)@,
            out@,
            (redraw, down),
        ));
        match redraw {
            Some(redraw) => Handled::Signature { redraw, down },
            None => self.route_menu(event, facts, out),
        }
    }

    fn route_menu(&mut self, event: Event, facts: Facts, out: &mut Vec<Effect>) -> (handled:
        Handled)
        requires
            old(self).still_listening(),
        ensures
            menu_routed(*old(self), event, facts, *final(self), old(out)@, final(out)@, handled),
            final(self).sound(),
    {
        let redraw = self.handle_completion_input(&event, out);
        assert(menu_event_taken(*old(self), event, *self, old(out)@, out@, redraw));
        proof {
            lemma_menu_is_sound(*old(self), event, *self, old(out)@, out@, redraw);
        }
        match redraw {
            Some(redraw) => Handled::Done { redraw },
            None => {
                let typing = self.completion_typing(&event);
                let redraw = self.handle_document_input(event, facts.room, out);
                Handled::Document { redraw, typing }
            },
        }
    }

    /// What the rest of the routing relies on.
    pub open spec fn still_listening(self) -> bool {
        &&& self.sound()
        &&& self.picker.active is Some ==> self.picker.active->0.preview_request < u64::MAX
    }
}

/// The picker keeps the windows and the menus in order.
proof fn lemma_picker_is_sound(
    before: App,
    event: Event,
    action: Action,
    now: Time,
    room: bool,
    after: App,
    asked: Seq<Effect>,
    asks: Seq<Effect>,
    handled: (Option<bool>, Option<Target>),
)
    requires
        before.sound(),
        picker_event_taken(before, event, action, now, room, after, asked, asks, handled),
    ensures
        after.sound(),
{
    let app = before.symbols_checked();
    assert(app.sound());
    match app.picker.active {
        Some(active) => match active.heard(event) {
            Heard::Pass | Heard::Ignore => {},
            heard => {
                let action = action_for(heard, action);
                if app.accepts_key(action) {
                    lemma_accepted_is_sound(app, after);
                } else {
                    match action {
                        Action::Query | Action::Inserted => {
                            reveal(App::query_submitted);
                        },
                        Action::Selection => {
                            lemma_preview_is_sound(app, app.screen(), room);
                        },
                        _ => {},
                    }
                }
            },
        },
        None => {},
    }
}

/// Accepting an entry keeps the windows and the menus in order.
proof fn lemma_accepted_is_sound(app: App, after: App)
    requires
        app.sound(),
        after.is(app.screen().accepted()),
    ensures
        after.sound(),
{
    reveal(Screen::accepted);
    let screen = app.screen();
    lemma_recorded(screen, screen.spot());
    assert(screen.accepted().valid());
    assert(after.screen().valid());
    assert(after.completion == screen.accepted().app.completion);
    assert(after.actions == screen.accepted().app.actions);
    assert(after.signature == screen.accepted().app.signature);
}

/// Selecting another suggestion keeps the windows and the menus in order.
proof fn lemma_moved_is_sound(app: App, previous: bool)
    requires
        app.sound(),
        app.completion.active is Some,
    ensures
        app.completion_moved(previous).resolve_started().sound(),
{
    let moved = app.completion_moved(previous);
    assert(moved.completion.active->0.moving());
    if moved.resolves() {
        assert(moved.resolve_started().completion.active->0.valid());
    } else {
        assert(moved.completion.active->0.valid());
    }
}

/// Asking for the rest of a suggestion keeps the windows and the menus in order.
proof fn lemma_resolving_is_sound(app: App)
    requires
        app.sound(),
    ensures
        app.resolve_started().sound(),
{
    if app.resolves() {
        assert(app.resolve_started().completion.active->0.valid());
    }
}

/// Accepting a suggestion keeps the windows and the menus in order.
proof fn lemma_accepting_is_sound(app: App, following: Option<Event>)
    requires
        app.sound(),
        app.completion.active is Some,
    ensures
        app.completion_accepting(following).resolve_started().completion_finished().sound(),
{
    let accepting = app.completion_accepting(following);
    assert(accepting.completion.active->0.valid());
    assert(accepting.sound());
    lemma_resolving_is_sound(accepting);
    let resolving = accepting.resolve_started();
    assert(resolving.completion_finished().sound());
}

/// Giving up completion keeps the windows and the menus in order.
proof fn lemma_dismissed_is_sound(app: App)
    requires
        app.sound(),
    ensures
        app.dismissed().sound(),
        app.completion_checked().sound(),
{
}

/// The menu of suggestions keeps the windows and the menus in order.
proof fn lemma_menu_is_sound(
    before: App,
    event: Event,
    after: App,
    asked: Seq<Effect>,
    asks: Seq<Effect>,
    redraw: Option<bool>,
)
    requires
        before.sound(),
        menu_event_taken(before, event, after, asked, asks, redraw),
    ensures
        after.sound(),
{
    let app = before.completion_checked();
    lemma_dismissed_is_sound(before);
    lemma_dismissed_is_sound(app);
    match app.completion.active {
        Some(session) => match session.choice(event) {
            MenuChoice::Next => {
                lemma_moved_is_sound(app, false);
            },
            MenuChoice::Previous => {
                lemma_moved_is_sound(app, true);
            },
            MenuChoice::Accept => {
                lemma_accepting_is_sound(app, None);
            },
            MenuChoice::AcceptThen => {
                lemma_accepting_is_sound(app, Some(event));
            },
            MenuChoice::Reject => {
                assert(app.dismissed().cleared().sound());
            },
            _ => {},
        },
        None => {},
    }
}

/// What the routing needs once the picker has passed an event on.
#[derive(Clone, Copy, Debug, PartialEq, Eq, Structural)]
pub struct Facts {
    pub now: Time,
    pub room: bool,
    pub counted: bool,
    pub space: bool,
    pub requested: bool,
    /// Whether the menu of suggestions is drawn.
    pub menu: bool,
}

/// What is known of an event that the picker has passed on.
pub open spec fn facts_of(inputs: Inputs) -> Facts {
    Facts {
        now: inputs.now,
        room: inputs.room,
        counted: inputs.counted,
        space: inputs.space,
        requested: inputs.requested,
        menu: inputs.popups.completion,
    }
}

/// Whether an event was handled as it should be.
pub open spec fn event_handled(
    before: App,
    event: Event,
    inputs: Inputs,
    after: App,
    asked: Seq<Effect>,
    asks: Seq<Effect>,
    handled: Handled,
) -> bool {
    let app = before.clipboard_checked();
    let sofar = asked + before.clipboard_check_effects();
    let leaves = event.pressed() == Some(Key::Escape) || event.pressed() == Some(Key::Ctrl('c'));
    if leaves && app.transfer_waits() {
        &&& handled == (Handled::Done { redraw: true })
        &&& after == app.clipboard_cancelled().cleared()
        &&& asks == (sofar + app.clipboard.cancel_effects()).push(Effect::CancelKeys)
    } else if leaves && app.location_waits() {
        &&& handled == (Handled::Done { redraw: true })
        &&& after == app.navigation_cancelled().cleared()
        &&& asks == (sofar + app.navigation.cancel_effects()).push(Effect::CancelKeys)
    } else {
        match event {
            Event::Mouse(mouse) => {
                &&& handled == Handled::Pointer(app.pointed(mouse, 1, inputs.popups))
                &&& after == (App {
                    mouse: mouse::State { drag: app.drags(mouse), ..app.mouse },
                    ..app
                })
                &&& asks == sofar
            },
            _ => focus_routed(
                app.pointer_followed(event),
                event,
                inputs,
                after,
                sofar,
                asks,
                handled,
            ),
        }
    }
}

/// Whether the terminal's getting the focus did what it should: everything that
/// comes from repositories is read again.
pub open spec fn focus_taken(
    before: App,
    event: Event,
    now: Time,
    after: App,
    asked: Seq<Effect>,
    asks: Seq<Effect>,
) -> bool {
    if event is FocusGained {
        status_refreshed(
            before.git_refreshed(now),
            now,
            after,
            asked + before.git_refresh_effects(),
            asks,
        )
    } else {
        after == before && asks == asked
    }
}

/// Whether an event was routed as it should be, from the focus on.
pub open spec fn focus_routed(
    before: App,
    event: Event,
    inputs: Inputs,
    after: App,
    asked: Seq<Effect>,
    asks: Seq<Effect>,
    handled: Handled,
) -> bool {
    exists|app: App, sofar: Seq<Effect>| #[trigger]
        focus_taken(before, event, inputs.now, app, asked, sofar) && picker_routed(
            app,
            event,
            inputs,
            after,
            sofar,
            asks,
            handled,
        )
}

/// Whether an event was routed as it should be, from the picker on.
pub open spec fn picker_routed(
    before: App,
    event: Event,
    inputs: Inputs,
    after: App,
    asked: Seq<Effect>,
    asks: Seq<Effect>,
    handled: Handled,
) -> bool {
    exists|app: App, sofar: Seq<Effect>, picked: (Option<bool>, Option<Target>)| #[trigger]
        picker_event_taken(
            before,
            event,
            inputs.action,
            inputs.now,
            inputs.room,
            app,
            asked,
            sofar,
            picked,
        ) && match picked.0 {
            Some(redraw) => {
                &&& handled == (Handled::Picker { redraw, target: picked.1 })
                &&& after == app
                &&& asks == sofar
            },
            None => commit_routed(app, event, facts_of(inputs), after, sofar, asks, handled),
        }
}

/// Whether an event was routed as it should be, from the commit message on.
pub open spec fn commit_routed(
    before: App,
    event: Event,
    facts: Facts,
    after: App,
    asked: Seq<Effect>,
    asks: Seq<Effect>,
    handled: Handled,
) -> bool {
    exists|app: App, sofar: Seq<Effect>, step: CommitStep| #[trigger]
        commit_event_taken(before, event, facts.counted, app, asked, sofar, step) && if step
            == CommitStep::Pass {
            status_routed(app, event, facts, after, sofar, asks, handled)
        } else {
            handled == Handled::Commit(step) && after == app && asks == sofar
        }
}

/// Whether an event was routed as it should be, from the repository view on.
pub open spec fn status_routed(
    before: App,
    event: Event,
    facts: Facts,
    after: App,
    asked: Seq<Effect>,
    asks: Seq<Effect>,
    handled: Handled,
) -> bool {
    exists|app: App, sofar: Seq<Effect>, step: Option<StatusStep>| #[trigger]
        status_event_taken(before, event, facts.space, facts.now, app, asked, sofar, step)
            && match step {
            Some(step) => handled == Handled::Status(step) && after == app && asks == sofar,
            None => actions_routed(app, event, facts, after, sofar, asks, handled),
        }
}

/// Whether an event was routed as it should be, from the menu of actions on.
pub open spec fn actions_routed(
    before: App,
    event: Event,
    facts: Facts,
    after: App,
    asked: Seq<Effect>,
    asks: Seq<Effect>,
    handled: Handled,
) -> bool {
    exists|app: App, sofar: Seq<Effect>, redraw: Option<bool>| #[trigger]
        action_event_taken(before, event, app, asked, sofar, redraw) && match redraw {
            Some(redraw) => {
                &&& handled == (Handled::Done { redraw })
                &&& after == app
                &&& asks == sofar
            },
            None => hover_routed(app, event, facts, after, sofar, asks, handled),
        }
}

/// Whether an event was routed as it should be, from the hover popup on.
pub open spec fn hover_routed(
    before: App,
    event: Event,
    facts: Facts,
    after: App,
    asked: Seq<Effect>,
    asks: Seq<Effect>,
    handled: Handled,
) -> bool {
    exists|app: App, sofar: Seq<Effect>, redraw: Option<bool>| #[trigger]
        hover_event_taken(before, event, app, asked, sofar, redraw) && match redraw {
            Some(redraw) => {
                &&& handled == (Handled::Done { redraw })
                &&& after == app
                &&& asks == sofar
            },
            None => signature_routed(app, event, facts, after, sofar, asks, handled),
        }
}

/// Whether an event was routed as it should be, from the signature on.
pub open spec fn signature_routed(
    before: App,
    event: Event,
    facts: Facts,
    after: App,
    asked: Seq<Effect>,
    asks: Seq<Effect>,
    handled: Handled,
) -> bool {
    exists|app: App, sofar: Seq<Effect>, shown: (Option<bool>, Option<bool>)| #[trigger]
        signature_event_taken(
            before,
            event,
            facts.requested,
            facts.menu,
            app,
            asked,
            sofar,
            shown,
        ) && match shown.0 {
            Some(redraw) => {
                &&& handled == (Handled::Signature { redraw, down: shown.1 })
                &&& after == app
                &&& asks == sofar
            },
            None => menu_routed(app, event, facts, after, sofar, asks, handled),
        }
}

/// Whether an event was routed as it should be, from the menu of suggestions on.
pub open spec fn menu_routed(
    before: App,
    event: Event,
    facts: Facts,
    after: App,
    asked: Seq<Effect>,
    asks: Seq<Effect>,
    handled: Handled,
) -> bool {
    exists|app: App, sofar: Seq<Effect>, redraw: Option<bool>| #[trigger]
        menu_event_taken(before, event, app, asked, sofar, redraw) && match redraw {
            Some(redraw) => {
                &&& handled == (Handled::Done { redraw })
                &&& after == app
                &&& asks == sofar
            },
            None => handled matches Handled::Document { redraw, typing } && typing == app.typed(
                event,
            ) && document_event_taken(app, event, facts.room, after, sofar, asks, redraw),
        }
}

/// How the search for a text went on.
#[derive(Clone, Copy, Debug, PartialEq, Eq, Structural)]
pub enum SearchCompletion {
    /// The result is not wanted any more.
    Ignored,
    /// The accepted search is done.
    Accepted,
    /// The text of the prompt was looked for.
    Preview,
    /// A repeated search is done.
    Navigation,
}

/// What the editor asks of the application.
#[derive(Clone, Copy, Debug, PartialEq, Eq, Structural)]
pub enum ApplicationAction {
    Clipboard(ClipboardAction, usize),
    /// Record the live place.
    SaveSelection,
    Jump { forward: bool, count: usize },
    GitStatus,
    FilePicker,
    LastPicker,
    /// Search the workspace, from what a register holds.
    GlobalSearch(char),
    BufferPicker,
    /// Close the active document, or go on or back by a number of documents.
    CloseBuffer,
    NextBuffer(usize),
    PreviousBuffer(usize),
    DocumentSymbols,
    WorkspaceSymbols,
    HalfPageUp(usize),
    HalfPageDown(usize),
    Window(WindowAction, usize),
}

impl App {
    /// Whether the prompt is one of a search.
    pub open spec fn prompts_search(self) -> bool {
        self.prompt matches Some(prompt) && prompt.kind.origin() is Some
    }

    fn search_prompted(&self) -> (yes: bool)
        ensures
            yes == self.prompts_search(),
    {
        match &self.prompt {
            Some(prompt) => match prompt.kind {
                PromptKind::Search { .. } => true,
                _ => false,
            },
            None => false,
        }
    }

    /// The application once a search went on.
    pub open spec fn search_continued(self, outcome: Result<SearchCompletion, Error>) -> App {
        match outcome {
            Ok(SearchCompletion::Ignored) => if self.editor.search_prompt is None
                && self.prompts_search() {
                App { prompt: None, ..self }
            } else {
                self
            },
            Ok(SearchCompletion::Accepted) => App { prompt: None, ..self.cleared() },
            Ok(SearchCompletion::Preview) => if self.editor.search_status == Some(
                SearchStatus::NoMatch,
            ) {
                self.failed(Error::NoMatches)
            } else {
                self.cleared()
            },
            Ok(SearchCompletion::Navigation) => self.cleared(),
            Err(error) => if self.editor.search_prompt is None {
                (App { prompt: None, ..self }).failed(error)
            } else if self.prompts_search() {
                (App { viewport: self.prompt->0.kind.origin()->0, ..self }).failed(error)
            } else {
                self.failed(error)
            },
        }
    }

    /// Delivers a worker's result, which the editor has applied with this
    /// outcome, on the thread that handles input. Stale results neither move
    /// selections nor replace newer messages. Returns whether to redraw.
    pub fn handle_search_result(
        &mut self,
        outcome: Result<SearchCompletion, Error>,
        out: &mut Vec<Effect>,
    ) -> (redraw: bool)
        ensures
            search_result_taken(*old(self), outcome, *final(self), old(out)@, final(out)@, redraw),
    {
        assert(out@ =~= old(out)@ + Seq::<Effect>::empty());
        match outcome {
            Ok(SearchCompletion::Ignored) => {
                if self.editor.search_prompt.is_none() && self.search_prompted() {
                    self.prompt = None;
                    return true;
                }
                return false;
            },
            Ok(SearchCompletion::Accepted) => {
                self.prompt = None;
                self.clear_message();
            },
            Ok(SearchCompletion::Preview) => {
                self.clear_message();
                match self.editor.search_status {
                    Some(SearchStatus::NoMatch) => {
                        self.fail(Error::NoMatches);
                    },
                    _ => {},
                }
            },
            Ok(SearchCompletion::Navigation) => {
                self.clear_message();
            },
            Err(error) => {
                out.push(Effect::CancelKeys);
                if self.editor.search_prompt.is_none() {
                    self.prompt = None;
                } else {
                    match &self.prompt {
                        Some(prompt) => match prompt.kind {
                            PromptKind::Search { operation, viewport } => {
                                self.viewport = viewport;
                            },
                            _ => {},
                        },
                        None => {},
                    }
                }
                self.fail(error);
            },
        }
        out.push(Effect::ApplyAction);
        assert(out@ =~= old(out)@ + match outcome {
            Ok(_) => seq![Effect::ApplyAction],
            Err(_) => seq![Effect::CancelKeys, Effect::ApplyAction],
        });
        true
    }

    /// Prepares the next steps of a repeated command, where they may run now.
    /// `repeat_advanced` then ends the matter.
    pub fn advance_repeat(&mut self) -> (steps: Option<usize>)
        ensures
            old(self).editor.repeat_ready ==> steps == Some(REPEAT_STEPS) && *final(self) == (App {
                completion: old(self).completion.cleared(),
                ..*old(self)
            }),
            !old(self).editor.repeat_ready ==> steps is None && *final(self) == *old(self),
    {
        if !self.editor.repeat_ready {
            return None;
        }
        self.completion.clear();
        Some(REPEAT_STEPS)
    }

    /// Ends some steps of a repeated command: the outcome says whether they
    /// changed anything. Returns whether to redraw.
    pub fn repeat_advanced(&mut self, outcome: Result<bool, Error>, out: &mut Vec<Effect>) -> (
        redraw: bool)
        ensures
            repeat_ended(*old(self), outcome, *final(self), old(out)@, final(out)@, redraw),
    {
        match outcome {
            Ok(changed) => {
                out.push(Effect::ApplyAction);
                changed
            },
            Err(error) => {
                self.fail(error);
                true
            },
        }
    }

    /// Does what the editor asks of the application, as far as nothing outside
    /// it is needed, and returns what is left. An action on the clipboard
    /// begins a transfer, and a checkpoint is recorded.
    pub fn apply_application_action(
        &mut self,
        action: Option<ApplicationAction>,
        out: &mut Vec<Effect>,
    ) -> (left: Option<ApplicationAction>)
        requires
            old(self).screen().valid(),
            old(self).clipboard.next_id < u64::MAX,
        ensures
            action_applied(*old(self), action, *final(self), old(out)@, final(out)@, left),
    {
        match action {
            Some(ApplicationAction::Clipboard(action, count)) => {
                self.begin_clipboard(action, count, out);
                None
            },
            Some(ApplicationAction::SaveSelection) => {
                self.record_jump();
                self.message = Message::JumpSaved;
                None
            },
            left => left,
        }
    }
}

/// A search whose result is not wanted any more changes nothing but a prompt
/// that no search is open for.
pub proof fn law_stale_searches_are_ignored(app: App)
    ensures
        ({
            let after = app.search_continued(Ok(SearchCompletion::Ignored));
            &&& after == (App { prompt: after.prompt, ..app })
            &&& after.prompt != app.prompt ==> after.prompt is None && app.editor.search_prompt
                is None
        }),
{
}

/// While a picker is open, nothing that is typed or pasted reaches what is
/// behind it, but for the keys that give up a clipboard transfer.
pub proof fn law_an_open_picker_owns_the_keyboard(
    before: App,
    event: Event,
    inputs: Inputs,
    after: App,
    asked: Seq<Effect>,
    asks: Seq<Effect>,
    handled: Handled,
)
    requires
        event_handled(before, event, inputs, after, asked, asks, handled),
        before.picker.active is Some,
        before.symbol_source() matches Some(source) ==> !before.symbols_stale(source),
        event is Key || event is Paste,
        !before.transfer_waits(),
    ensures
        handled is Picker,
{
    let app = before.clipboard_checked();
    let followed = app.pointer_followed(event);
    assert(followed.picker == before.picker);
    assert(followed.editor == before.editor);
    assert(followed.symbols_checked() == followed);
}

/// Whether an action was done, or is left to others.
pub open spec fn action_applied(
    before: App,
    action: Option<ApplicationAction>,
    now: App,
    asked: Seq<Effect>,
    asks: Seq<Effect>,
    left: Option<ApplicationAction>,
) -> bool {
    match action {
        Some(ApplicationAction::Clipboard(action, count)) => {
            &&& left is None
            &&& now == before.clipboard_begun(action, count)
            &&& asks == asked + before.clipboard.cancel_effects()
        },
        Some(ApplicationAction::SaveSelection) => {
            let screen = before.screen();
            let recorded = screen.recorded(screen.spot());
            &&& left is None
            &&& now.jumps@ == recorded.trails
            &&& now == App { jumps: now.jumps, ..before }.says(
                Message::JumpSaved,
            )
            &&& asks == asked
        },
        _ => left == action && now == before && asks == asked,
    }
}

/// Whether the result of a search was taken as it should be.
pub open spec fn search_result_taken(
    before: App,
    outcome: Result<SearchCompletion, Error>,
    now: App,
    asked: Seq<Effect>,
    asks: Seq<Effect>,
    redraw: bool,
) -> bool {
    &&& now == before.search_continued(outcome)
    &&& asks == asked + match outcome {
        Ok(SearchCompletion::Ignored) => seq![],
        Ok(_) => seq![Effect::ApplyAction],
        Err(_) => seq![Effect::CancelKeys, Effect::ApplyAction],
    }
    &&& redraw == !(outcome == Ok::<SearchCompletion, Error>(SearchCompletion::Ignored) && !(
    before.editor.search_prompt is None && before.prompts_search()))
}

/// Whether some steps of a repeated command were ended as they should be.
pub open spec fn repeat_ended(
    before: App,
    outcome: Result<bool, Error>,
    now: App,
    asked: Seq<Effect>,
    asks: Seq<Effect>,
    redraw: bool,
) -> bool {
    match outcome {
        Ok(changed) => {
            &&& redraw == changed
            &&& now == before
            &&& asks == asked.push(Effect::ApplyAction)
        },
        Err(error) => {
            &&& redraw
            &&& now == before.failed(error)
            &&& asks == asked
        },
    }
}

} // verus!
