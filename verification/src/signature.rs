//! Debounced signature help uses the existing language service and popup painter.
//! Completion/resolve requests take priority; a due signature waits without
//! cancelling them or keeping the event loop awake.

use crate::app::App;
use crate::completion::Request;
use crate::editor::{Mode, Time};
use crate::effect::Effect;
use crate::event::{Event, Key};
use crate::language::RequestKind;
use crate::message::Message;
use crate::selection::{DocumentId, Revision, Selection};
use crate::text::{chars_of, decimal, has_suffix, number};
use vstd::prelude::*;
use vstd::string::StringExecFns;

verus! {

/// What signature help last looked at.
#[derive(Clone, Copy, Debug, PartialEq, Eq, Structural)]
pub struct Observed {
    pub document: DocumentId,
    pub revision: Revision,
    pub selection: Selection,
    pub mode: Mode,
    pub window: u64,
}

/// The signatures on offer.
#[derive(Clone, Copy, Debug, PartialEq, Eq, Structural)]
pub struct Session {
    pub count: usize,
    pub selected: usize,
    pub server: Option<usize>,
    pub limited: bool,
    pub visible: bool,
}

#[derive(Clone, Copy, Debug, PartialEq, Eq, Structural)]
pub struct State {
    pub observed: Option<Observed>,
    pub due: Option<Time>,
    pub engaged: bool,
    pub active: Option<Session>,
}

/// Nanoseconds between typing and asking.
pub const DELAY: u64 = 120_000_000;

impl State {
    /// The state without a signature, on offer or to be asked for.
    pub open spec fn dismissed(self) -> State {
        State { due: None, engaged: false, active: None, ..self }
    }

    /// The state at the start.
    pub open spec fn initial() -> State {
        State { observed: None, due: None, engaged: false, active: None }
    }

    /// What every state keeps: a session has signatures and one is selected.
    pub open spec fn valid(self) -> bool {
        self.active matches Some(session) ==> session.selected < session.count
    }

    pub fn dismiss(&mut self)
        ensures
            *final(self) == old(self).dismissed(),
    {
        self.due = None;
        self.engaged = false;
        self.active = None;
    }

    pub fn reset(&mut self)
        ensures
            *final(self) == State::initial(),
    {
        self.observed = None;
        self.due = None;
        self.engaged = false;
        self.active = None;
    }

    /// Asks again, after a pause, when another request took precedence.
    pub fn interrupted(&mut self, now: Time)
        requires
            now + DELAY <= u64::MAX,
        ensures
            *final(self) == if old(self).engaged && (old(self).observed matches Some(observed)
                && observed.mode == Mode::Insert) {
                State { due: Some((now + DELAY) as u64), ..*old(self) }
            } else {
                *old(self)
            },
    {
        let inserting = match self.observed {
            Some(observed) => observed.mode == Mode::Insert,
            None => false,
        };
        if self.engaged && inserting {
            self.due = Some(now + DELAY);
        }
    }
}

impl Session {
    /// The title over a signature.
    pub open spec fn title(self) -> Seq<char> {
        " Signature "@ + decimal((self.selected + 1) as nat) + "/"@ + decimal(self.count as nat) + (
        if self.limited { " · limited"@ } else { Seq::empty() }) + " "@
    }

    pub fn show_title(&self) -> (text: String)
        requires
            self.selected < self.count,
        ensures
            text@ == self.title(),
    {
        let mut text = " Signature ".to_owned();
        text.append(number(self.selected as u64 + 1).as_str());
        text.append("/");
        text.append(number(self.count as u64).as_str());
        if self.limited {
            text.append(" · limited");
        } else {
            assert(text@ =~= text@ + Seq::<char>::empty());
        }
        text.append(" ");
        text
    }
}

/// Whether the text before the cursor ends with one of the triggers.
pub open spec fn triggered(before: Seq<char>, triggers: Seq<String>) -> bool {
    exists|i: int| 0 <= i < triggers.len() && has_suffix(before, (#[trigger] triggers[i])@)
}

fn ends_in(before: &[char], trigger: &str) -> (yes: bool)
    ensures
        yes == has_suffix(before@, trigger@),
{
    let tail = chars_of(trigger);
    if tail.len() > before.len() {
        return false;
    }
    let total = before.len();
    let start: usize = total - tail.len();
    let mut i: usize = 0;
    while i < tail.len()
        invariant
            i <= tail.len(),
            start + tail.len() == total,
            total == before@.len(),
            tail@ == trigger@,
            forall|j: int| 0 <= j < i ==> before@[start + j] == tail@[j],
        decreases tail.len() - i,
    {
        if before[start + i] != tail[i] {
            assert(before@.skip(start as int)[i as int] != trigger@[i as int]);
            return false;
        }
        i += 1;
    }
    assert(before@.skip(start as int) =~= trigger@);
    true
}

fn is_triggered(before: &[char], triggers: &Vec<String>) -> (yes: bool)
    ensures
        yes == triggered(before@, triggers@),
{
    let mut i: usize = 0;
    while i < triggers.len()
        invariant
            i <= triggers.len(),
            forall|j: int| 0 <= j < i ==> !has_suffix(before@, (#[trigger] triggers@[j])@),
        decreases triggers.len() - i,
    {
        if ends_in(before, triggers[i].as_str()) {
            return true;
        }
        i += 1;
    }
    false
}

/// Whether two places are in the same window and document.
pub open spec fn same_pane(a: Observed, b: Observed) -> bool {
    a.document == b.document && a.window == b.window
}

impl App {
    /// The present place, as signature help looks at it.
    pub open spec fn observed_now(self) -> Observed {
        Observed {
            document: self.editor.document,
            revision: self.editor.revision,
            selection: self.editor.spec_primary(),
            mode: self.editor.mode,
            window: self.window(),
        }
    }

    fn signature_context(&self) -> (observed: Observed)
        requires
            self.editor.valid(),
        ensures
            observed == self.observed_now(),
    {
        Observed {
            document: self.editor.document,
            revision: self.editor.revision,
            selection: self.editor.primary(),
            mode: self.editor.mode,
            window: self.focused_window_id(),
        }
    }

    /// Whether signatures are out of place: the server has none, or something
    /// else has the keys.
    pub open spec fn signatures_blocked(self, offered: bool, git: bool) -> bool {
        ||| !offered
        ||| self.prompt is Some
        ||| self.picker.active is Some
        ||| git
        ||| self.editor.repeat_pending
    }

    /// The state of signature help after a look at the present place. Help is
    /// asked for when insert mode is entered, when a trigger is typed, and,
    /// while it is engaged, after every change.
    pub open spec fn signature_observed(
        self,
        now: Time,
        inserted: bool,
        before: Seq<char>,
        triggers: Option<Seq<String>>,
        git: bool,
    ) -> State {
        let here = self.observed_now();
        let old = self.signature.observed;
        let seen = State { observed: Some(here), ..self.signature };
        let moved = old matches Some(old) && !same_pane(old, here);
        let kept = if moved { seen.dismissed() } else { seen };
        let entered = match old {
            Some(old) => old.mode != Mode::Insert || !same_pane(old, here),
            None => true,
        };
        let typed = {
            &&& !entered
            &&& !kept.engaged
            &&& inserted
            &&& old matches Some(old) && old.revision != here.revision
            &&& triggers matches Some(triggers) && triggered(before, triggers)
        };
        if self.signatures_blocked(triggers is Some, git) {
            State { observed: None, ..self.signature.dismissed() }
        } else if old == Some(here) {
            seen
        } else if here.mode != Mode::Insert {
            kept.dismissed()
        } else if entered || typed || kept.engaged {
            State { engaged: true, due: Some((now + DELAY) as u64), ..kept }
        } else {
            kept
        }
    }

    /// Looks at the present place. `inserted` says whether text was typed,
    /// `before` is the text before the primary head, and `triggers` are what
    /// the server reacts to, where it offers signatures. Only the primary
    /// selection is looked at.
    pub fn observe_signature(
        &mut self,
        now: Time,
        inserted: bool,
        before: &[char],
        triggers: Option<&Vec<String>>,
        git: bool,
    )
        requires
            old(self).editor.valid(),
            now + DELAY <= u64::MAX,
        ensures
            *final(self) == (App {
                signature: old(self).signature_observed(
                    now,
                    inserted,
                    before@,
                    match triggers {
                        Some(triggers) => Some(triggers@),
                        None => None,
                    },
                    git,
                ),
                ..*old(self)
            }),
            old(self).signature.valid() ==> final(self).signature.valid(),
    {
        let here = self.signature_context();
        let triggers = match triggers {
            Some(triggers) => triggers,
            None => {
                self.signature.dismiss();
                self.signature.observed = None;
                return;
            },
        };
        if self.prompt.is_some() || self.picker.active.is_some() || git
            || self.editor.repeat_pending {
            self.signature.dismiss();
            self.signature.observed = None;
            return;
        }
        let old = self.signature.observed;
        self.signature.observed = Some(here);
        let (same, moved, entered, changed) = match old {
            Some(old) => {
                let pane = old.document == here.document && old.window == here.window;
                (
                    old == here,
                    !pane,
                    old.mode != Mode::Insert || !pane,
                    old.revision != here.revision,
                )
            },
            None => (false, false, true, false),
        };
        if same {
            return;
        }
        if moved {
            self.signature.dismiss();
        }
        if here.mode != Mode::Insert {
            self.signature.dismiss();
            return;
        }
        let typed = !entered && !self.signature.engaged && inserted && changed && is_triggered(
            before,
            triggers,
        );
        if entered || typed || self.signature.engaged {
            self.signature.engaged = true;
            self.signature.due = Some(now + DELAY);
        }
    }

    /// When a signature is to be asked for; a due one waits for other requests
    /// without keeping the event loop awake.
    pub fn signature_deadline(&self) -> (due: Option<Time>)
        ensures
            due == if self.language.pending is Some { None } else { self.signature.due },
    {
        if self.language.pending.is_some() { None } else { self.signature.due }
    }

    /// Whether a signature is to be asked for now.
    pub open spec fn signature_ready(self, now: Time) -> bool {
        self.language.pending is None && (self.signature.due matches Some(due) && due <= now)
    }

    /// Takes the request for a signature, where it is due.
    pub fn take_signature_request(&mut self, now: Time) -> (request: Option<Request>)
        ensures
            signature_request_taken(*old(self), now, *final(self), request),
    {
        let due = match self.signature.due {
            Some(due) => due <= now,
            None => false,
        };
        if self.language.pending.is_some() || !due {
            return None;
        }
        self.signature.due = None;
        Some(Request { kind: RequestKind::SignatureHelp, automatic: true })
    }

    /// Takes note that a signature was asked for at the present place.
    pub fn begin_signature(&mut self)
        requires
            old(self).editor.valid(),
        ensures
            *final(self) == (App {
                signature: State {
                    observed: Some(old(self).observed_now()),
                    engaged: true,
                    due: None,
                    ..old(self).signature
                },
                ..*old(self)
            }),
    {
        self.signature.observed = Some(self.signature_context());
        self.signature.engaged = true;
        self.signature.due = None;
    }

    /// The signature that is selected among `count` new ones: the server's
    /// choice where it is new, and otherwise the one that was selected.
    pub open spec fn selected_signature(self, count: usize, server: Option<usize>) -> int {
        let wanted = match self.signature.active {
            None => match server {
                Some(index) => index as int,
                None => 0,
            },
            Some(old) => if old.server != server && server is Some {
                server->0 as int
            } else {
                old.selected as int
            },
        };
        if wanted < count { wanted } else { count - 1 }
    }

    /// The server's choice, where there is such a signature.
    pub open spec fn server_choice(count: usize, active: Option<usize>) -> Option<usize> {
        match active {
            Some(index) => if index < count { Some(index) } else { None },
            None => None,
        }
    }

    /// Takes `count` signatures from the server, with its choice among them.
    pub fn receive_signature(
        &mut self,
        count: usize,
        active: Option<usize>,
        limited: bool,
        automatic: bool,
    )
        ensures
            signatures_received(*old(self), count, active, limited, automatic, *final(self)),
            old(self).signature.valid() ==> final(self).signature.valid(),
    {
        if count == 0 {
            self.signature.dismiss();
            if !automatic {
                self.message = Message::NoSignature;
            }
            return;
        }
        let server = match active {
            Some(index) => if index < count { Some(index) } else { None },
            None => None,
        };
        let wanted: usize = match self.signature.active {
            None => match server {
                Some(index) => index,
                None => 0,
            },
            Some(old) => match (old.server, server) {
                (Some(before), Some(index)) => if before != index { index } else { old.selected },
                (None, Some(index)) => index,
                _ => old.selected,
            },
        };
        let selected: usize = if wanted < count { wanted } else { count - 1 };
        self.signature.active = Some(
            Session { count, selected, server, limited, visible: false },
        );
        self.signature.engaged = true;
        if !automatic {
            self.clear_message();
        }
    }

    /// Whether a signature is drawn.
    pub open spec fn signature_shown(self) -> bool {
        self.signature.active matches Some(session) && session.visible
    }

    /// The session with the next or previous signature selected, around the
    /// ends.
    pub open spec fn signature_turned(session: Session, next: bool) -> Session {
        Session {
            selected: (if next {
                if session.selected + 1 == session.count { 0 } else { session.selected + 1 }
            } else {
                if session.selected == 0 { session.count - 1 } else { session.selected - 1 }
            }) as usize,
            ..session
        }
    }

    /// Gives an event to signature help. `requested` says whether its request
    /// is pending, and `menu` whether suggestions are drawn. Returns whether to
    /// redraw, where the event needs no further handling, and which way to
    /// scroll the signature, where it is scrolled.
    pub fn handle_signature_input(
        &mut self,
        event: &Event,
        requested: bool,
        menu: bool,
        out: &mut Vec<Effect>,
    ) -> (handled: (Option<bool>, Option<bool>))
        requires
            old(self).signature.valid(),
        ensures
            signature_event_taken(
                *old(self),
                *event,
                requested,
                menu,
                *final(self),
                old(out)@,
                final(out)@,
                handled,
            ),
            final(self).signature.valid(),
    {
        match event {
            Event::FocusLost => {
                self.signature.dismiss();
            },
            _ => {},
        }
        let key = match event.key() {
            Some(key) => key,
            None => {
                return (None, None);
            },
        };
        let shown = match &self.signature.active {
            Some(session) => session.visible,
            None => false,
        };
        match key {
            Key::Ctrl('u') | Key::PageUp => if shown {
                (Some(true), Some(false))
            } else {
                (None, None)
            },
            Key::Ctrl('d') | Key::PageDown => if shown {
                (Some(true), Some(true))
            } else {
                (None, None)
            },
            Key::Alt(ch) => {
                if (ch != 'p' && ch != 'n') || !shown {
                    return (None, None);
                }
                match &mut self.signature.active {
                    Some(session) => {
                        if session.count <= 1 {
                            return (None, None);
                        }
                        session.selected = if ch == 'n' {
                            if session.selected + 1 == session.count {
                                0
                            } else {
                                session.selected + 1
                            }
                        } else {
                            if session.selected == 0 {
                                session.count - 1
                            } else {
                                session.selected - 1
                            }
                        };
                        (Some(true), None)
                    },
                    None => (None, None),
                }
            },
            Key::Escape | Key::Ctrl('c') => {
                if !self.signature.engaged {
                    return (None, None);
                }
                if requested {
                    self.cancel_language_request(out);
                }
                self.signature.dismiss();
                // Escape leaves insert mode. A visible signature owns Ctrl-c;
                // hidden or pending help lets the completion menu handle it.
                if key == Key::Ctrl('c') && (shown || !menu) {
                    (Some(true), None)
                } else {
                    (None, None)
                }
            },
            _ => (None, None),
        }
    }
}

/// Whether signature help took an event as it should.
pub open spec fn signature_event_taken(
    before: App,
    event: Event,
    requested: bool,
    menu: bool,
    after: App,
    asked: Seq<Effect>,
    asks: Seq<Effect>,
    handled: (Option<bool>, Option<bool>),
) -> bool {
    let idle = handled == (None::<bool>, None::<bool>) && asks == asked;
    let shown = before.signature_shown();
    let session = before.signature.active->0;
    match event.pressed() {
        Some(Key::Ctrl('u')) | Some(Key::PageUp) => {
            &&& after == before
            &&& asks == asked
            &&& handled == if shown {
                (Some(true), Some(false))
            } else {
                (None::<bool>, None::<bool>)
            }
        },
        Some(Key::Ctrl('d')) | Some(Key::PageDown) => {
            &&& after == before
            &&& asks == asked
            &&& handled == if shown {
                (Some(true), Some(true))
            } else {
                (None::<bool>, None::<bool>)
            }
        },
        Some(Key::Alt(ch)) => if (ch == 'p' || ch == 'n') && shown && session.count > 1 {
            &&& handled == (Some(true), None::<bool>)
            &&& asks == asked
            &&& after == (App {
                signature: State {
                    active: Some(App::signature_turned(session, ch == 'n')),
                    ..before.signature
                },
                ..before
            })
        } else {
            idle && after == before
        },
        Some(Key::Escape) | Some(Key::Ctrl('c')) => if before.signature.engaged {
            let app = if requested { before.request_cancelled() } else { before };
            let owns = event.pressed() == Some(Key::Ctrl('c')) && (shown || !menu);
            &&& after == (App { signature: before.signature.dismissed(), ..app })
            &&& asks == asked + if requested {
                before.language.cancel_effects()
            } else {
                seq![]
            }
            &&& handled == (if owns { Some(true) } else { None }, None::<bool>)
        } else {
            idle && after == before
        },
        _ => {
            &&& idle
            &&& after == if event is FocusLost {
                App { signature: before.signature.dismissed(), ..before }
            } else {
                before
            }
        },
    }
}

/// Turning to the next signature and back leads to the same one.
pub proof fn law_turning_back_restores_the_signature(session: Session)
    requires
        session.selected < session.count,
    ensures
        App::signature_turned(App::signature_turned(session, true), false) == session,
        App::signature_turned(App::signature_turned(session, false), true) == session,
{
}

/// Signature help never asks while another request is pending, nor before the
/// delay is over.
pub proof fn law_signatures_wait_for_other_requests(app: App, now: Time)
    requires
        app.language.pending is Some || (app.signature.due matches Some(due) ==> due > now),
    ensures
        !app.signature_ready(now),
{
}

/// Whether the request for a signature was taken as it should be.
pub open spec fn signature_request_taken(
    before: App,
    time: Time,
    now: App,
    request: Option<Request>,
) -> bool {
    if before.signature_ready(time) {
        &&& request == Some(
            Request { kind: RequestKind::SignatureHelp, automatic: true },
        )
        &&& now == (App {
            signature: State { due: None, ..before.signature },
            ..before
        })
    } else {
        request is None && now == before
    }
}

/// Whether signatures from the server were taken as they should be.
pub open spec fn signatures_received(
    before: App,
    count: usize,
    active: Option<usize>,
    limited: bool,
    automatic: bool,
    now: App,
) -> bool {
    let server = App::server_choice(count, active);
    now == if count == 0 {
        let app = App { signature: before.signature.dismissed(), ..before };
        if automatic { app } else { app.says(Message::NoSignature) }
    } else {
        let app = App {
            signature: State {
                active: Some(
                    Session {
                        count,
                        selected: before.selected_signature(
                            count,
                            server,
                        ) as usize,
                        server,
                        limited,
                        visible: false,
                    },
                ),
                engaged: true,
                ..before.signature
            },
            ..before
        };
        if automatic { app } else { app.cleared() }
    }
}

} // verus!
