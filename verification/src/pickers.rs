//! Keys of the open picker, reopening the last one, and keeping up with edits.

use crate::app::App;
use crate::editor::Time;
use crate::effect::Effect;
use crate::error::Error;
use crate::event::{Event, Key};
use crate::picker::{Active, Catalog, Rows, Source, State, Target};
use crate::picking::Action;
use crate::symbols::QUERY_DELAY;
use crate::windows::Screen;
use vstd::prelude::*;

verus! {

/// What an event is to an open picker.
#[derive(Debug)]
pub enum Heard {
    /// Nothing; others may take it.
    Pass,
    /// Nothing, and nobody else gets it.
    Ignore,
    /// What the view made of a key.
    Key,
    /// A new query.
    Query,
    /// A reason to close.
    Cancel,
}

impl Active {
    /// What an event is to the picker.
    pub open spec fn heard(self, event: Event) -> Heard {
        match event {
            Event::Paste(_) => Heard::Query,
            Event::Key(press) => if !press.released && press.key is Some {
                Heard::Key
            } else {
                Heard::Ignore
            },
            Event::FocusLost => if self.source is Symbols { Heard::Cancel } else { Heard::Pass },
            Event::Resize(_, _) | Event::FocusGained => Heard::Pass,
            Event::Mouse(_) => Heard::Ignore,
        }
    }

    fn hear(&self, event: &Event) -> (heard: Heard)
        ensures
            heard == self.heard(*event),
    {
        match event {
            Event::Paste(_) => Heard::Query,
            Event::Key(press) => if !press.released && press.key.is_some() {
                Heard::Key
            } else {
                Heard::Ignore
            },
            Event::FocusLost => match &self.source {
                Source::Symbols(_) => Heard::Cancel,
                _ => Heard::Pass,
            },
            Event::Resize(_, _) | Event::FocusGained => Heard::Pass,
            Event::Mouse(_) => Heard::Ignore,
        }
    }

    /// Whether accepting waits for the rows of the present query.
    pub open spec fn must_wait(self) -> bool {
        self.view.pending && (self.view.items == 0 || self.source is Jumps
            || self.source is Locations || self.source is Search && !self.view.current)
    }
}

/// What the view made of an event.
pub open spec fn action_for(heard: Heard, action: Action) -> Action {
    match heard {
        Heard::Key => action,
        Heard::Query => Action::Query,
        _ => Action::Cancel,
    }
}

impl App {
    /// The application after its picker did something with a key.
    pub open spec fn picker_acted(self, action: Action, now: Time, room: bool) -> App {
        let active = self.picker.active->0;
        match action {
            Action::Idle | Action::Clipboard(_) => self,
            Action::Cancel => self.picker_closed(),
            Action::Query | Action::Inserted => self.query_submitted(now),
            Action::Selection => self.preview_requested(self.screen(), room),
            Action::Accept => if active.must_wait() {
                self.with_picker(Active { accept_pending: true, ..active })
            } else {
                self
            },
            Action::Unreadable(error) => self.failed(error),
        }
    }

    /// Whether a key of the picker accepts the selected entry now.
    pub open spec fn accepts_key(self, action: Action) -> bool {
        action is Accept && !self.picker.active->0.must_wait()
    }

    /// What a key of the picker asks for.
    pub open spec fn picker_act_effects(self, action: Action, room: bool) -> Seq<Effect> {
        let active = self.picker.active->0;
        match action {
            Action::Idle => if active.view.register_pending {
                seq![Effect::CacheRegisterHints]
            } else {
                seq![]
            },
            Action::Clipboard(kind) => seq![Effect::PickerClipboard(kind)],
            Action::Cancel => self.close_effects(),
            Action::Query | Action::Inserted => self.query_effects(),
            Action::Selection => self.preview_effects(room),
            Action::Accept => if active.must_wait() { seq![] } else { self.accept_effects() },
            Action::Unreadable(_) => seq![],
        }
    }

    fn act(&mut self, action: Action, now: Time, room: bool, out: &mut Vec<Effect>) -> (target:
        Option<Target>)
        requires
            old(self).screen().valid(),
            old(self).picker.active is Some,
            old(self).picker.active->0.revision < u64::MAX,
            old(self).picker.active->0.preview_request < u64::MAX,
            old(self).navigation.next < u64::MAX,
            now + QUERY_DELAY <= u64::MAX,
        ensures
            if old(self).accepts_key(action) {
                &&& final(self).is(old(self).screen().accepted())
                &&& target == old(self).picked()
            } else {
                &&& *final(self) == old(self).picker_acted(action, now, room)
                &&& target is None
            },
            final(out)@ == old(out)@ + old(self).picker_act_effects(action, room),
    {
        match action {
            Action::Idle => {
                let pending = match &self.picker.active {
                    Some(active) => active.view.register_pending,
                    None => false,
                };
                if pending {
                    out.push(Effect::CacheRegisterHints);
                }
                assert(out@ =~= old(out)@ + old(self).picker_act_effects(action, room));
                None
            },
            Action::Clipboard(kind) => {
                out.push(Effect::PickerClipboard(kind));
                assert(out@ =~= old(out)@ + old(self).picker_act_effects(action, room));
                None
            },
            Action::Cancel => {
                self.close_picker(out);
                None
            },
            Action::Query | Action::Inserted => {
                self.submit_picker_query(now, out);
                None
            },
            Action::Selection => {
                self.request_picker_preview(room, out);
                None
            },
            Action::Accept => {
                let wait = match &mut self.picker.active {
                    Some(active) => {
                        let listed = match &active.source {
                            Source::Jumps { .. } | Source::Locations { .. } => true,
                            Source::Search { .. } => !active.view.current,
                            _ => false,
                        };
                        let wait = active.view.pending && (active.view.items == 0 || listed);
                        if wait {
                            active.accept_pending = true;
                        }
                        wait
                    },
                    None => false,
                };
                if wait {
                    assert(out@ =~= old(out)@ + old(self).picker_act_effects(action, room));
                    None
                } else {
                    self.accept_picker(out)
                }
            },
            Action::Unreadable(error) => {
                self.fail(error);
                assert(out@ =~= old(out)@ + old(self).picker_act_effects(action, room));
                None
            },
        }
    }

    /// Gives an event to the open picker. `action` is what its view made of the
    /// key. Returns whether to redraw, where the event needs no further
    /// handling, and the entry to open where one was accepted. Early Enter
    /// waits for the current ranking.
    pub fn handle_picker_input(
        &mut self,
        event: &Event,
        action: Action,
        now: Time,
        room: bool,
        out: &mut Vec<Effect>,
    ) -> (handled: (Option<bool>, Option<Target>))
        requires
            old(self).screen().valid(),
            old(self).picker.active is Some ==> old(self).picker.active->0.revision < u64::MAX
                && old(self).picker.active->0.preview_request < u64::MAX,
            old(self).navigation.next < u64::MAX,
            now + QUERY_DELAY <= u64::MAX,
        ensures
            picker_event_taken(
                *old(self),
                *event,
                action,
                now,
                room,
                *final(self),
                old(out)@,
                final(out)@,
                handled,
            ),
    {
        self.invalidate_symbol_picker(out);
        let heard = match &self.picker.active {
            Some(active) => active.hear(event),
            None => {
                return (None, None);
            },
        };
        let action = match heard {
            Heard::Pass => {
                return (None, None);
            },
            Heard::Ignore => {
                return (Some(false), None);
            },
            Heard::Key => action,
            Heard::Query => Action::Query,
            Heard::Cancel => Action::Cancel,
        };
        let target = self.act(action, now, room, out);
        (Some(true), target)
    }

    /// The query after text was inserted into it is taken, where a picker is
    /// open.
    pub fn insert_picker_register(&mut self, now: Time, out: &mut Vec<Effect>)
        requires
            old(self).picker.active is Some ==> old(self).picker.active->0.revision < u64::MAX,
            now + QUERY_DELAY <= u64::MAX,
        ensures
            if old(self).picker.active is Some {
                &&& *final(self) == old(self).query_submitted(now)
                &&& final(out)@ == old(out)@ + old(self).query_effects()
            } else {
                *final(self) == *old(self) && final(out)@ == old(out)@
            },
    {
        if self.picker.active.is_some() {
            self.submit_picker_query(now, out);
        }
    }

    /// Where the entries of a reopened picker come from: its lists are captured
    /// again, and it belongs to the present place.
    pub open spec fn resumed_source(self, source: Source) -> Source {
        let catalog = (self.picker.captures + 1) as u64;
        match source {
            Source::Buffers { .. } => Source::Buffers { catalog },
            Source::Jumps { .. } => Source::Jumps { captured: Some(catalog) },
            Source::Search { root, documents, register, due } => Source::Search {
                root,
                documents: Some(catalog),
                register,
                due,
            },
            Source::Locations { catalog, document, revision } => Source::Locations {
                catalog,
                document: self.editor.document,
                revision: self.editor.revision,
            },
            other => other,
        }
    }

    /// What a reopened picker captures.
    pub open spec fn resumed_catalog(source: Source) -> Option<Catalog> {
        match source {
            Source::Buffers { .. } => Some(Catalog::Buffers),
            Source::Jumps { .. } => Some(Catalog::Jumps),
            Source::Search { .. } => Some(Catalog::Documents),
            _ => None,
        }
    }

    /// A picker as it is when it opens again.
    pub open spec fn resumed(self, active: Active) -> Active {
        Active {
            session: (self.picker.next_session + 1) as u64,
            cancelled: false,
            preview_cancelled: false,
            preview_target: None,
            accept_pending: false,
            source: self.resumed_source(active.source),
            view: Rows {
                pending: active.view.pending || active.source is Jumps || active.source
                    is Locations,
                ..active.view
            },
            ..active
        }
    }

    /// The application with its last picker open again, before its rows are
    /// asked for.
    #[verifier::opaque]
    pub open spec fn reopened(self, active: Active) -> App {
        let app = self.picker_prepared();
        App {
            picker: State {
                active: Some(app.resumed(active)),
                next_session: (app.picker.next_session + 1) as u64,
                captures: if App::resumed_catalog(active.source) is Some {
                    (app.picker.captures + 1) as u64
                } else {
                    app.picker.captures
                },
                ..app.picker
            },
            ..app
        }
    }

    /// The application after the rows of a reopened picker were asked for.
    #[verifier::opaque]
    pub open spec fn reopened_query(self, now: Time) -> App {
        if self.symbol_source() is Some {
            self.symbols_resumed(now)
        } else {
            self.query_submitted(now)
        }
    }

    /// What reopening a picker asks for, up to its query.
    pub open spec fn reopen_effects(self, active: Active) -> Seq<Effect> {
        self.prepare_effects().push(Effect::ResumeRows) + match App::resumed_catalog(
            active.source,
        ) {
            Some(catalog) => seq![
                Effect::Capture(catalog, (self.picker.captures + 1) as u64),
            ],
            None => seq![],
        }
    }

    /// Opens the last picker again, with the rows and the query that it had.
    pub fn reopen_last_picker(
        &mut self,
        now: Time,
        room: bool,
        out: &mut Vec<Effect>,
    ) -> (result: Result<(), Error>)
        requires
            old(self).picker.next_session < u64::MAX,
            old(self).picker.captures < u64::MAX,
            old(self).picker.last is Some ==> old(self).picker.last->0.revision < u64::MAX
                && old(self).picker.last->0.preview_request < u64::MAX,
            now + QUERY_DELAY <= u64::MAX,
        ensures
            picker_reopened(*old(self), now, room, *final(self), old(out)@, final(out)@, result),
    {
        let active = match self.picker.last.take() {
            Some(active) => active,
            None => {
                return Err(Error::NoPreviousPicker);
            },
        };
        self.resume_picker(active, out);
        self.ask_again(now, out);
        let ghost asked = *self;
        self.request_picker_preview(room, out);
        proof {
            lemma_preview_same(asked, asked.screen(), old(self).screen(), room);
        }
        self.clear_message();
        Ok(())
    }

    /// What asking for the rows of a reopened picker asks for.
    pub open spec fn reopened_query_effects(self) -> Seq<Effect> {
        if self.symbol_source() is Some { seq![] } else { self.query_effects() }
    }

    fn ask_again(&mut self, now: Time, out: &mut Vec<Effect>)
        requires
            old(self).picker.active is Some,
            old(self).picker.active->0.revision < u64::MAX,
            now + QUERY_DELAY <= u64::MAX,
        ensures
            *final(self) == old(self).reopened_query(now),
            final(out)@ == old(out)@ + old(self).reopened_query_effects(),
            final(self).picker.active is Some,
            final(self).picker.active->0.preview_request
                == old(self).picker.active->0.preview_request,
            final(self).editor == old(self).editor,
            final(self).windows == old(self).windows,
    {
        proof {
            reveal(App::reopened_query);
        }
        if self.symbol_picker_active() {
            self.resume_symbol_picker(now);
            assert(out@ =~= old(out)@ + old(self).reopened_query_effects());
        } else {
            self.submit_picker_query(now, out);
        }
    }

    fn resume_picker(&mut self, active: Active, out: &mut Vec<Effect>)
        requires
            old(self).picker.last is None,
            old(self).picker.next_session < u64::MAX,
            old(self).picker.captures < u64::MAX,
        ensures
            *final(self) == old(self).reopened(active),
            final(out)@ == old(out)@ + old(self).reopen_effects(active),
            final(self).picker.active is Some,
            final(self).picker.active->0.revision == active.revision,
            final(self).picker.active->0.preview_request == active.preview_request,
            final(self).editor == old(self).editor,
            final(self).windows == old(self).windows,
    {
        proof {
            reveal(App::reopened);
        }
        self.prepare_picker(out);
        out.push(Effect::ResumeRows);
        let ghost prepared = *self;
        self.picker.next_session = self.picker.next_session + 1;
        let session = self.picker.next_session;
        let mut pending = active.view.pending;
        let source = match active.source {
            Source::Buffers { .. } => {
                let catalog = self.capture(Catalog::Buffers, out);
                Source::Buffers { catalog }
            },
            Source::Jumps { .. } => {
                pending = true;
                let catalog = self.capture(Catalog::Jumps, out);
                Source::Jumps { captured: Some(catalog) }
            },
            Source::Search { root, documents, register, due } => {
                let catalog = self.capture(Catalog::Documents, out);
                Source::Search { root, documents: Some(catalog), register, due }
            },
            Source::Locations { catalog, document, revision } => {
                pending = true;
                Source::Locations {
                    catalog,
                    document: self.editor.document,
                    revision: self.editor.revision,
                }
            },
            other => other,
        };
        let view = Rows { pending, ..active.view };
        self.picker.active = Some(
            Active {
                session,
                cancelled: false,
                preview_cancelled: false,
                preview_target: None,
                accept_pending: false,
                source,
                view,
                ..active
            },
        );
        assert(out@ =~= old(out)@ + old(self).reopen_effects(active));
    }

    /// Whether keys wait for something to finish: later input stays in the
    /// queue until then. `outside` says whether another component waits.
    pub fn input_waiting(&self, outside: bool) -> (waiting: bool)
        ensures
            keys_wait(*self, outside, waiting),
    {
        let accepting = match &self.picker.active {
            Some(active) => active.accept_pending,
            None => false,
        };
        outside || self.editor.search_waiting || self.location_navigation_waiting()
            || self.language_waiting() || self.clipboard_waiting() || self.editor.repeat_pending
            || self.completion_waiting() || accepting
    }
}

/// Two screens with the same open documents give the same preview.
pub proof fn lemma_preview_same(app: App, a: Screen, b: Screen, room: bool)
    requires
        a.app.editor.document == b.app.editor.document,
        a.buffers == b.buffers,
    ensures
        app.preview_requested(a, room) == app.preview_requested(b, room),
{
    reveal(App::preview_requested);
}

/// Whether the open picker took an event as it should.
pub open spec fn picker_event_taken(
    before: App,
    event: Event,
    action: Action,
    now: Time,
    room: bool,
    after: App,
    asked: Seq<Effect>,
    asks: Seq<Effect>,
    handled: (Option<bool>, Option<Target>),
) -> bool {
    let app = before.symbols_checked();
    let asked = asked + before.symbols_check_effects();
    match app.picker.active {
        None => {
            &&& handled == (None::<bool>, None::<Target>)
            &&& after == app
            &&& asks == asked
        },
        Some(active) => match active.heard(event) {
            Heard::Pass => {
                &&& handled == (None::<bool>, None::<Target>)
                &&& after == app
                &&& asks == asked
            },
            Heard::Ignore => {
                &&& handled == (Some(false), None::<Target>)
                &&& after == app
                &&& asks == asked
            },
            heard => {
                let action = action_for(heard, action);
                &&& handled.0 == Some(true)
                &&& if app.accepts_key(action) {
                    &&& after.is(app.screen().accepted())
                    &&& handled.1 == app.picked()
                } else {
                    &&& after == app.picker_acted(action, now, room)
                    &&& handled.1 is None
                }
                &&& asks == asked + app.picker_act_effects(action, room)
            },
        },
    }
}

/// Whether the last picker was opened again, where there is one.
pub open spec fn picker_reopened(
    before: App,
    time: Time,
    room: bool,
    now: App,
    asked: Seq<Effect>,
    asks: Seq<Effect>,
    result: Result<(), Error>,
) -> bool {
    match before.picker.last {
        None => {
            &&& result == Err::<(), Error>(Error::NoPreviousPicker)
            &&& now == before
            &&& asks == asked
        },
        Some(active) => {
            let without = App {
                picker: State { last: None, ..before.picker },
                ..before
            };
            let opened = without.reopened(active);
            let queried = opened.reopened_query(time);
            &&& result is Ok
            &&& now == queried.preview_requested(before.screen(), room).cleared()
            &&& asks == asked + without.reopen_effects(active)
                + opened.reopened_query_effects() + queried.preview_effects(room)
        },
    }
}

/// Whether keys wait for something to finish.
pub open spec fn keys_wait(before: App, outside: bool, waiting: bool) -> bool {
    waiting == {
        ||| outside
        ||| before.editor.search_waiting
        ||| before.navigation.pending is Some
        ||| before.language_waits()
        ||| before.transfer_waits()
        ||| before.editor.repeat_pending
        ||| before.completion.active is Some && before.completion.active->0.accepting
        ||| before.picker.active is Some && before.picker.active->0.accept_pending
    }
}

} // verus!
