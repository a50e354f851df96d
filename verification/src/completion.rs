//! Insert-mode completion sessions and cursor-anchored presentation.

use crate::app::App;
use crate::editor::{Mode, Time, MILLISECOND};
use crate::effect::Effect;
use crate::error::Error;
use crate::event::{Event, Key};
use crate::language::RequestKind;
use crate::measure::{capped, label_columns, total_width};
use crate::message::Message;
use crate::selection::{DocumentId, Revision, Selections};
use crate::shared::share;
use crate::text::{alphanumeric, number_value, parse_number, same_text, texts, words, words_of};
use std::sync::Arc;
use vstd::prelude::*;

verus! {

/// Why completions are asked for.
#[derive(Clone, Copy, Debug, PartialEq, Eq, Structural)]
pub enum CompletionTrigger {
    Invoked,
    Character(char),
    /// More was typed while an unfinished list was shown.
    Incomplete,
}

/// A suggestion.
#[derive(Debug)]
pub struct CompletionItem {
    /// Identity of the edits that accepting the item makes.
    pub id: u64,
    pub label: String,
    /// What is drawn for each grapheme cluster of the label.
    pub shown: Vec<String>,
    pub detail: String,
    pub documentation: String,
    /// Whether the server has nothing to add.
    pub resolved: bool,
}

/// Suggestions for one place in a document.
#[derive(Debug)]
pub struct Session {
    pub automatic: bool,
    pub incomplete: bool,
    pub document: DocumentId,
    pub revision: Revision,
    pub selections: Arc<Selections>,
    pub items: Vec<CompletionItem>,
    pub label_width: usize,
    pub loaded: bool,
    pub selected: Option<usize>,
    pub top: usize,
    pub resolving: Option<usize>,
    pub accepting: bool,
    pub following: Option<Event>,
    pub limited: bool,
}

#[derive(Clone, Copy, Debug, PartialEq, Eq, Structural)]
pub struct Config {
    pub enabled: bool,
    /// Milliseconds between typing and asking.
    pub delay: u64,
    pub min_length: usize,
}

impl Default for Config {
    fn default() -> (config: Config)
        ensures
            config == (Config { enabled: true, delay: 100, min_length: 2 }),
    {
        Config { enabled: true, delay: 100, min_length: 2 }
    }
}

/// A request to be made for completion.
#[derive(Debug)]
pub struct Request {
    pub kind: RequestKind,
    pub automatic: bool,
}

/// A request for completions that waits for typing to pause.
#[derive(Debug)]
pub struct Scheduled {
    pub document: DocumentId,
    pub revision: Revision,
    pub selections: Arc<Selections>,
    pub due: Time,
    pub trigger: CompletionTrigger,
    pub automatic: bool,
}

/// What was on offer when a key was typed.
#[derive(Clone, Copy, Debug, PartialEq, Eq, Structural)]
pub struct Refresh {
    pub automatic: bool,
    pub incomplete: bool,
}

/// A key that may ask for completions once it has been dispatched.
#[derive(Clone, Copy, Debug, PartialEq, Eq, Structural)]
pub struct Typing {
    pub key: Key,
    pub revision: Revision,
    pub refresh: Option<Refresh>,
}

#[derive(Debug)]
pub struct State {
    pub config: Config,
    pub active: Option<Session>,
    pub outgoing: Option<Request>,
    pub scheduled: Option<Scheduled>,
}

impl State {
    /// The state without a session or a request.
    pub open spec fn cleared(self) -> State {
        State { active: None, outgoing: None, scheduled: None, ..self }
    }

    pub fn clear(&mut self)
        ensures
            *final(self) == old(self).cleared(),
    {
        self.active = None;
        self.outgoing = None;
        self.scheduled = None;
    }
}

/// Whether a character belongs to an identifier.
pub open spec fn is_identifier(c: char) -> bool {
    c == '_' || alphanumeric(c)
}

pub fn identifier(ch: char) -> (yes: bool)
    ensures
        yes == is_identifier(ch),
{
    ch == '_' || ch.is_alphanumeric()
}

/// Whether at least `count` identifier characters stand directly before the
/// cursor.
pub open spec fn follows_identifier(before: Seq<char>, count: nat) -> bool {
    &&& before.len() >= count
    &&& forall|i: int| before.len() - count <= i < before.len() ==> is_identifier(#[trigger] before[i])
}

fn after_identifier(before: &[char], count: usize) -> (yes: bool)
    ensures
        yes == follows_identifier(before@, count as nat),
{
    if before.len() < count {
        return false;
    }
    let mut i: usize = before.len() - count;
    while i < before.len()
        invariant
            before.len() - count <= i <= before.len(),
            forall|j: int| before.len() - count <= j < i ==> is_identifier(#[trigger] before@[j]),
        decreases before.len() - i,
    {
        if !identifier(before[i]) {
            return false;
        }
        i += 1;
    }
    true
}

fn has_char(chars: &Vec<char>, c: char) -> (found: bool)
    ensures
        found == chars@.contains(c),
{
    let mut i: usize = 0;
    while i < chars.len()
        invariant
            i <= chars.len(),
            forall|j: int| 0 <= j < i ==> chars@[j] != c,
        decreases chars.len() - i,
    {
        if chars[i] == c {
            return true;
        }
        i += 1;
    }
    false
}

/// A list of suggestions from the server.
#[derive(Debug)]
pub struct Completions {
    pub items: Vec<CompletionItem>,
    pub incomplete: bool,
    pub limited: bool,
}

/// What an event means to an open menu of suggestions.
#[derive(Clone, Copy, Debug, PartialEq, Eq, Structural)]
pub enum MenuChoice {
    /// Nothing; it goes on to the document.
    Pass,
    /// Nothing, and nobody else gets it.
    Ignore,
    /// Close the menu.
    Reject,
    /// Stop waiting for the item being accepted and let it act on the document.
    Resume,
    Next,
    Previous,
    /// Insert the selected item.
    Accept,
    /// Insert the selected item and then let the event act on the document.
    AcceptThen,
}

impl Session {
    /// What every session keeps: the selected item exists, once there are items,
    /// and no other item is being resolved.
    pub open spec fn valid(self) -> bool {
        &&& self.items@.len() > 0 && self.selected is Some ==> self.selected->0 < self.items@.len()
        &&& self.resolving is Some ==> self.resolving == self.selected && self.resolving->0
            < self.items@.len()
    }

    /// What holds of a session whose selected item has just become another: only
    /// a session with a selected item resolves one.
    pub open spec fn moving(self) -> bool {
        &&& self.items@.len() > 0 && self.selected is Some ==> self.selected->0 < self.items@.len()
        &&& self.resolving is Some ==> self.selected is Some && self.items@.len() > 0
    }

    /// The item that is selected, where it is there.
    pub open spec fn selected_item(self) -> Option<CompletionItem> {
        match self.selected {
            Some(index) => if index < self.items@.len() {
                Some(self.items@[index as int])
            } else {
                None
            },
            None => None,
        }
    }

    /// What an event means to the menu.
    pub open spec fn choice(self, event: Event) -> MenuChoice {
        let otherwise = if self.selected is Some { MenuChoice::AcceptThen } else { MenuChoice::Pass };
        if self.automatic && !self.loaded {
            MenuChoice::Pass
        } else {
            match event {
                Event::Key(press) => if press.released {
                    MenuChoice::Ignore
                } else {
                    match press.key {
                        Some(Key::Ctrl('c')) => MenuChoice::Reject,
                        Some(Key::Escape) => if self.accepting {
                            MenuChoice::Resume
                        } else {
                            otherwise
                        },
                        Some(Key::Tab) | Some(Key::Down) | Some(Key::Ctrl('n')) => MenuChoice::Next,
                        Some(Key::BackTab) | Some(Key::Up) | Some(Key::Ctrl('p')) =>
                            MenuChoice::Previous,
                        Some(Key::Ctrl('x')) => MenuChoice::Pass,
                        Some(Key::Enter) => if self.selected is Some {
                            MenuChoice::Accept
                        } else {
                            otherwise
                        },
                        _ => otherwise,
                    }
                },
                Event::Paste(_) => otherwise,
                _ => MenuChoice::Pass,
            }
        }
    }

    /// What an event means to the menu.
    fn decide(&self, event: &Event) -> (choice: MenuChoice)
        ensures
            choice == self.choice(*event),
    {
        if self.automatic && !self.loaded {
            return MenuChoice::Pass;
        }
        let otherwise = if self.selected.is_some() {
            MenuChoice::AcceptThen
        } else {
            MenuChoice::Pass
        };
        match event {
            Event::Key(press) => if press.released {
                MenuChoice::Ignore
            } else {
                match press.key {
                    Some(Key::Ctrl('c')) => MenuChoice::Reject,
                    Some(Key::Escape) => if self.accepting {
                        MenuChoice::Resume
                    } else {
                        otherwise
                    },
                    Some(Key::Tab) | Some(Key::Down) | Some(Key::Ctrl('n')) => MenuChoice::Next,
                    Some(Key::BackTab) | Some(Key::Up) | Some(Key::Ctrl('p')) =>
                        MenuChoice::Previous,
                    Some(Key::Ctrl('x')) => MenuChoice::Pass,
                    Some(Key::Enter) => if self.selected.is_some() {
                        MenuChoice::Accept
                    } else {
                        otherwise
                    },
                    _ => otherwise,
                }
            },
            Event::Paste(_) => otherwise,
            _ => MenuChoice::Pass,
        }
    }

    /// The item that comes after or before the selected one, around the ends.
    /// Without items, an end is selected for when they come.
    pub open spec fn stepped(self, previous: bool) -> usize {
        let len = self.items@.len();
        if len == 0 {
            if previous { usize::MAX } else { 0 }
        } else {
            match self.selected {
                None => if previous { (len - 1) as usize } else { 0 },
                Some(index) => if previous {
                    (if index == 0 { len - 1 } else { index - 1 }) as usize
                } else {
                    (if index + 1 == len { 0 } else { index + 1 }) as usize
                },
            }
        }
    }
}

impl State {
    /// What every state keeps of its session.
    pub open spec fn valid(self) -> bool {
        self.active is Some ==> self.active->0.valid()
    }

    /// What holds while the selected item becomes another.
    pub open spec fn moving(self) -> bool {
        self.active is Some ==> self.active->0.moving()
    }
}

/// The widest label of a list, drawn; the usual width where there is none.
pub open spec fn widest(items: Seq<CompletionItem>) -> nat
    decreases items.len(),
{
    if items.len() == 0 {
        0
    } else {
        let width = capped(total_width(items.last().shown@));
        let rest = widest(items.drop_last());
        if width >= rest { width } else { rest }
    }
}

fn widest_label(items: &Vec<CompletionItem>) -> (width: usize)
    ensures
        width == if items@.len() == 0 { 20 } else { widest(items@) },
{
    if items.len() == 0 {
        return 20;
    }
    let mut width: usize = 0;
    let mut i: usize = 0;
    while i < items.len()
        invariant
            i <= items.len(),
            width == widest(items@.take(i as int)),
        decreases items.len() - i,
    {
        let next = label_columns(&items[i].shown);
        assert(items@.take(i + 1).drop_last() =~= items@.take(i as int));
        assert(items@.take(i + 1).last() == items@[i as int]);
        if next >= width {
            width = next;
        }
        i += 1;
    }
    assert(items@.take(i as int) =~= items@);
    width
}

/// What replaying an event, where there is one, asks for.
pub open spec fn replay(event: Option<Event>) -> Seq<Effect> {
    match event {
        Some(event) => seq![Effect::Replay(event)],
        None => seq![],
    }
}

fn push_replay(event: Option<Event>, out: &mut Vec<Effect>)
    ensures
        final(out)@ == old(out)@ + replay(event),
{
    match event {
        Some(event) => {
            out.push(Effect::Replay(event));
        },
        None => {},
    }
    assert(out@ =~= old(out)@ + replay(event));
}

/// The settings that arguments of the `auto-completion` command ask for.
pub open spec fn configured(config: Config, words: Seq<Seq<char>>) -> Option<Config> {
    if words.len() == 0 {
        Some(config)
    } else if words.len() == 1 && words[0] == "on"@ {
        Some(Config { enabled: true, ..config })
    } else if words.len() == 1 && words[0] == "off"@ {
        Some(Config { enabled: false, ..config })
    } else if words.len() == 2 && words[0] == "delay"@ {
        match number_value(words[1]) {
            Some(delay) => if delay <= 10_000 {
                Some(Config { delay: delay as u64, ..config })
            } else {
                None
            },
            None => None,
        }
    } else if words.len() == 2 && words[0] == "min-length"@ {
        match number_value(words[1]) {
            Some(length) => if 1 <= length <= 256 {
                Some(Config { min_length: length as usize, ..config })
            } else {
                None
            },
            None => None,
        }
    } else {
        None
    }
}

fn configure(config: Config, words: &Vec<String>) -> (new: Option<Config>)
    ensures
        new == configured(config, texts(words@)),
{
    assert(texts(words@).len() == words@.len());
    assert(forall|i: int| 0 <= i < words@.len() ==> texts(words@)[i] == #[trigger] words@[i]@);
    if words.len() == 0 {
        return Some(config);
    }
    proof {
        reveal_strlit("on");
        reveal_strlit("off");
        reveal_strlit("delay");
        reveal_strlit("min-length");
    }
    let first = words[0].as_str();
    if words.len() == 1 {
        if same_text(first, "on") {
            Some(Config { enabled: true, ..config })
        } else if same_text(first, "off") {
            Some(Config { enabled: false, ..config })
        } else {
            None
        }
    } else if words.len() == 2 {
        if same_text(first, "delay") {
            match parse_number(words[1].as_str(), 10_000) {
                Some(delay) => Some(Config { delay, ..config }),
                None => None,
            }
        } else if same_text(first, "min-length") {
            match parse_number(words[1].as_str(), 256) {
                Some(length) => if length >= 1 {
                    Some(Config { min_length: length as usize, ..config })
                } else {
                    None
                },
                None => None,
            }
        } else {
            None
        }
    } else {
        None
    }
}

impl App {
    /// The application with this session.
    pub open spec fn with_session(self, session: Session) -> App {
        App { completion: State { active: Some(session), ..self.completion }, ..self }
    }

    /// The session that a request for completions begins.
    pub open spec fn fresh_session(self, automatic: bool, items: Vec<CompletionItem>) -> Session {
        Session {
            automatic,
            incomplete: false,
            document: self.editor.document,
            revision: self.editor.revision,
            selections: self.editor.selections,
            items,
            label_width: 20,
            loaded: false,
            selected: None,
            top: 0,
            resolving: None,
            accepting: false,
            following: None,
            limited: false,
        }
    }

    /// Whether the editor has left the place of the session or of the
    /// scheduled request.
    pub open spec fn completion_stale(self) -> bool {
        ||| match self.completion.active {
            Some(session) => {
                ||| session.document != self.editor.document
                ||| session.revision != self.editor.revision
                ||| session.selections@ != self.editor.selections@
                ||| self.editor.mode != Mode::Insert
            },
            None => false,
        }
        ||| match self.completion.scheduled {
            Some(scheduled) => {
                ||| scheduled.document != self.editor.document
                ||| scheduled.revision != self.editor.revision
                ||| scheduled.selections@ != self.editor.selections@
                ||| self.editor.mode != Mode::Insert
                ||| self.prompt is Some
                ||| scheduled.automatic && self.offered_completion() is None
            },
            None => false,
        }
    }

    /// The application without completions for a place the editor has left.
    pub open spec fn completion_checked(self) -> App {
        if self.completion_stale() { self.dismissed() } else { self }
    }

    /// What checking completions asks for.
    pub open spec fn check_effects(self) -> Seq<Effect> {
        if self.completion_stale() { self.language.cancel_effects() } else { seq![] }
    }

    /// Starts a session at the present place.
    pub fn begin_completion(&mut self, automatic: bool)
        ensures
            exists|items: Vec<CompletionItem>| #[trigger]
                items@.len() == 0 && *final(self) == (App {
                    completion: old(self).completion.cleared(),
                    ..*old(self)
                }).with_session(old(self).fresh_session(automatic, items)),
            final(self).completion.valid(),
    {
        self.completion.clear();
        let items = Vec::new();
        let ghost fresh = items;
        assert(fresh@.len() == 0);
        self.completion.active = Some(
            Session {
                automatic,
                incomplete: false,
                document: self.editor.document,
                revision: self.editor.revision,
                selections: share(&self.editor.selections),
                items,
                label_width: 20,
                loaded: false,
                selected: None,
                top: 0,
                resolving: None,
                accepting: false,
                following: None,
                limited: false,
            },
        );
    }

    /// Hands out the request that waits to be made.
    pub fn take_completion_request(&mut self) -> (request: Option<Request>)
        ensures
            request == old(self).completion.outgoing,
            *final(self) == (App {
                completion: State { outgoing: None, ..old(self).completion },
                ..*old(self)
            }),
    {
        self.completion.outgoing.take()
    }

    /// Drops completions for a place the editor has left.
    pub fn invalidate_completion(&mut self, out: &mut Vec<Effect>)
        ensures
            *final(self) == old(self).completion_checked(),
            final(out)@ == old(out)@ + old(self).check_effects(),
            old(self).completion.valid() ==> final(self).completion.valid(),
    {
        let session_stale = match &self.completion.active {
            Some(session) => session.document != self.editor.document || session.revision
                != self.editor.revision || !session.selections.same(&self.editor.selections)
                || self.editor.mode != Mode::Insert,
            None => false,
        };
        let scheduled_stale = match &self.completion.scheduled {
            Some(scheduled) => scheduled.document != self.editor.document || scheduled.revision
                != self.editor.revision || !scheduled.selections.same(&self.editor.selections)
                || self.editor.mode != Mode::Insert || self.prompt.is_some() || (
            scheduled.automatic && self.completion_options().is_none()),
            None => false,
        };
        if session_stale || scheduled_stale {
            self.dismiss_language_help(out);
        }
        assert(out@ =~= old(out)@ + old(self).check_effects());
    }

    /// Whether an accepted item still has to be resolved.
    pub fn completion_waiting(&self) -> (waiting: bool)
        ensures
            waiting == (self.completion.active is Some && self.completion.active->0.accepting),
    {
        match &self.completion.active {
            Some(session) => session.accepting,
            None => false,
        }
    }

    /// What was on offer when a key is typed: the open menu, unless an item is
    /// selected in it, or else the scheduled request.
    pub open spec fn offered_refresh(self) -> Option<Refresh> {
        match self.completion.active {
            Some(session) if session.selected is None => Some(
                Refresh { automatic: session.automatic, incomplete: session.incomplete },
            ),
            _ => match self.completion.scheduled {
                Some(scheduled) => Some(
                    Refresh {
                        automatic: scheduled.automatic,
                        incomplete: scheduled.trigger == CompletionTrigger::Incomplete,
                    },
                ),
                None => None,
            },
        }
    }

    /// The key that may ask for completions once it has been dispatched. Only
    /// actual keyboard edits do; paste and navigation never open the menu.
    pub open spec fn typed(self, event: Event) -> Option<Typing> {
        if self.prompt is Some || self.editor.mode != Mode::Insert
            || self.editor.selections@.ranges.len() != 1 {
            None
        } else {
            match event.pressed() {
                Some(key) => match key {
                    Key::Char(_) | Key::Backspace | Key::Ctrl('h') => Some(
                        Typing {
                            key,
                            revision: self.editor.revision,
                            refresh: self.offered_refresh(),
                        },
                    ),
                    _ => None,
                },
                None => None,
            }
        }
    }

    /// Capture intent before dispatch cancels obsolete requests.
    pub fn completion_typing(&self, event: &Event) -> (typing: Option<Typing>)
        ensures
            typing == self.typed(*event),
    {
        if self.prompt.is_some() || self.editor.mode != Mode::Insert
            || self.editor.selections.ranges.len() != 1 {
            return None;
        }
        let key = match event.key() {
            Some(key) => key,
            None => {
                return None;
            },
        };
        match key {
            Key::Char(_) | Key::Backspace | Key::Ctrl('h') => {},
            _ => {
                return None;
            },
        }
        let scheduled = match &self.completion.scheduled {
            Some(scheduled) => Some(
                Refresh {
                    automatic: scheduled.automatic,
                    incomplete: scheduled.trigger == CompletionTrigger::Incomplete,
                },
            ),
            None => None,
        };
        let refresh = match &self.completion.active {
            Some(session) => if session.selected.is_none() {
                Some(Refresh { automatic: session.automatic, incomplete: session.incomplete })
            } else {
                scheduled
            },
            None => scheduled,
        };
        Some(Typing { key, revision: self.editor.revision, refresh })
    }

    /// Whether a character opens the menu by itself.
    pub open spec fn is_trigger(self, c: char) -> bool {
        match self.offered_completion() {
            Some(options) => options.trigger_characters@.contains(c),
            None => false,
        }
    }

    fn triggers(&self, c: char) -> (yes: bool)
        ensures
            yes == self.is_trigger(c),
    {
        match self.completion_options() {
            Some(options) => has_char(&options.trigger_characters, c),
            None => false,
        }
    }

    /// Whether the request that a typed key leads to is made without being
    /// asked for.
    pub open spec fn automatic_after(typing: Typing) -> bool {
        typing.refresh is None || typing.refresh->0.automatic
    }

    /// What a typed key asks completions for, if anything; `before` is the
    /// text before the cursor. A trigger character does so at once. An
    /// identifier character does behind enough others, behind a trigger, or
    /// while a menu is open; deleting does while one is open.
    pub open spec fn wanted(self, typing: Typing, before: Seq<char>) -> Option<CompletionTrigger> {
        let automatic = App::automatic_after(typing);
        let word = typing.key matches Key::Char(c) && is_identifier(c);
        let deletes = typing.key == Key::Backspace || typing.key == Key::Ctrl('h');
        let near = {
            ||| follows_identifier(before, self.completion.config.min_length as nat)
            ||| before.len() > 0 && self.is_trigger(before.last())
            ||| typing.refresh is Some && word
        };
        if self.editor.mode != Mode::Insert || self.prompt is Some || self.error
            || self.editor.selections@.ranges.len() != 1 || typing.revision == self.editor.revision {
            None
        } else if automatic && (!self.completion.config.enabled || self.offered_completion() is None) {
            None
        } else if typing.key matches Key::Char(c) && self.is_trigger(c) {
            Some(CompletionTrigger::Character(typing.key->Char_0))
        } else if word || deletes && typing.refresh is Some {
            if automatic && !near {
                None
            } else if typing.refresh is Some && typing.refresh->0.incomplete {
                Some(CompletionTrigger::Incomplete)
            } else {
                Some(CompletionTrigger::Invoked)
            }
        } else {
            None
        }
    }

    /// How long, in nanoseconds, a request waits for typing to pause.
    pub open spec fn completion_delay(self, automatic: bool, trigger: CompletionTrigger) -> int {
        if automatic && !(trigger is Character) {
            self.completion.config.delay * MILLISECOND
        } else {
            0
        }
    }

    /// The application after a key has been dispatched: a request is scheduled
    /// where the key asks for one.
    pub open spec fn completion_scheduled(
        self,
        typing: Typing,
        before: Seq<char>,
        now: Time,
    ) -> App {
        match self.wanted(typing, before) {
            Some(trigger) => App {
                completion: State {
                    scheduled: Some(
                        Scheduled {
                            document: self.editor.document,
                            revision: self.editor.revision,
                            selections: self.editor.selections,
                            due: (now + self.completion_delay(
                                App::automatic_after(typing),
                                trigger,
                            )) as u64,
                            trigger,
                            automatic: App::automatic_after(typing),
                        },
                    ),
                    ..self.completion
                },
                ..self
            },
            None => self,
        }
    }

    /// Schedules a request after a key has been dispatched. `before` is the
    /// text before the primary head, at least the last 256 characters of it.
    pub fn schedule_completion(&mut self, typing: Typing, before: &[char], now: Time)
        requires
            now + old(self).completion.config.delay * MILLISECOND <= u64::MAX,
        ensures
            *final(self) == old(self).completion_scheduled(typing, before@, now),
    {
        if self.editor.mode != Mode::Insert || self.prompt.is_some() || self.error
            || self.editor.selections.ranges.len() != 1 || typing.revision == self.editor.revision {
            return;
        }
        let (automatic, incomplete) = match typing.refresh {
            Some(refresh) => (refresh.automatic, refresh.incomplete),
            None => (true, false),
        };
        if automatic && (!self.completion.config.enabled || self.completion_options().is_none()) {
            return;
        }
        let deletes = match typing.key {
            Key::Backspace | Key::Ctrl('h') => true,
            _ => false,
        };
        let typed = match typing.key {
            Key::Char(ch) => Some(ch),
            _ => None,
        };
        let word = match typed {
            Some(ch) => identifier(ch),
            None => false,
        };
        let character = match typed {
            Some(ch) => if self.triggers(ch) { Some(ch) } else { None },
            None => None,
        };
        let trigger = match character {
            Some(ch) => CompletionTrigger::Character(ch),
            None => {
                if !word && !(deletes && typing.refresh.is_some()) {
                    return;
                }
                let enough = after_identifier(before, self.completion.config.min_length);
                let after_trigger = before.len() > 0 && self.triggers(before[before.len() - 1]);
                // A trigger-character menu keeps refreshing from the first
                // identifier character; the threshold only governs opening it.
                let continuing = typing.refresh.is_some() && word;
                if automatic && !enough && !after_trigger && !continuing {
                    return;
                }
                if incomplete {
                    CompletionTrigger::Incomplete
                } else {
                    CompletionTrigger::Invoked
                }
            },
        };
        let delay: u64 = match trigger {
            CompletionTrigger::Character(_) => 0,
            _ => if automatic { self.completion.config.delay * MILLISECOND } else { 0 },
        };
        self.completion.scheduled = Some(
            Scheduled {
                document: self.editor.document,
                revision: self.editor.revision,
                selections: share(&self.editor.selections),
                due: now + delay,
                trigger,
                automatic,
            },
        );
    }

    /// When the scheduled request is due. The event loop waits no longer.
    pub fn completion_deadline(&mut self, out: &mut Vec<Effect>) -> (due: Option<Time>)
        ensures
            *final(self) == old(self).completion_checked(),
            final(out)@ == old(out)@ + old(self).check_effects(),
            due == match old(self).completion_checked().completion.scheduled {
                Some(scheduled) => Some(scheduled.due),
                None => None,
            },
    {
        self.invalidate_completion(out);
        match &self.completion.scheduled {
            Some(scheduled) => Some(scheduled.due),
            None => None,
        }
    }

    /// The application after a look at the clock: a scheduled request that is
    /// due waits to be handed out.
    pub open spec fn completion_polled(self, now: Time) -> App {
        let app = self.completion_checked();
        match app.completion.scheduled {
            Some(scheduled) => if scheduled.due <= now {
                App {
                    completion: State {
                        scheduled: None,
                        outgoing: Some(
                            Request {
                                kind: RequestKind::Completion(scheduled.trigger),
                                automatic: scheduled.automatic,
                            },
                        ),
                        ..app.completion
                    },
                    ..app
                }
            } else {
                app
            },
            None => app,
        }
    }

    pub fn poll_completion(&mut self, now: Time, out: &mut Vec<Effect>)
        ensures
            *final(self) == old(self).completion_polled(now),
            final(out)@ == old(out)@ + old(self).check_effects(),
            old(self).completion.valid() ==> final(self).completion.valid(),
    {
        self.invalidate_completion(out);
        let due = match &self.completion.scheduled {
            Some(scheduled) => scheduled.due <= now,
            None => false,
        };
        if due {
            match self.completion.scheduled.take() {
                Some(scheduled) => {
                    self.completion.outgoing = Some(
                        Request {
                            kind: RequestKind::Completion(scheduled.trigger),
                            automatic: scheduled.automatic,
                        },
                    );
                },
                None => {},
            }
        }
    }

    /// Shows or changes the settings of automatic completion.
    pub fn configure_completion(
        &mut self,
        argument: &str,
        out: &mut Vec<Effect>,
    ) -> (result: Result<(), Error>)
        ensures
            completion_configured(
                *old(self),
                argument@,
                *final(self),
                old(out)@,
                final(out)@,
                result,
            ),
    {
        let words = words(argument);
        assert(texts(words@).len() == words@.len());
        let config = match configure(self.completion.config, &words) {
            Some(config) => config,
            None => {
                return Err(Error::AutoCompletionUsage);
            },
        };
        if words.len() > 0 {
            self.dismiss_language_help(out);
            self.completion.config = config;
        }
        assert(out@ =~= old(out)@ + if words_of(argument@).len() > 0 {
            old(self).language.cancel_effects()
        } else {
            seq![]
        });
        self.message = Message::Completion {
            enabled: config.enabled,
            characters: config.min_length as u64,
            milliseconds: config.delay,
        };
        Ok(())
    }

    /// Whether the selected item is there and not being resolved already.
    pub open spec fn resolves(self) -> bool {
        match self.completion.active {
            Some(session) => session.selected_item() is Some && session.resolving
                != session.selected,
            None => false,
        }
    }

    /// The application that asks for the rest of the selected item.
    pub open spec fn resolve_started(self) -> App {
        if self.resolves() {
            let session = self.completion.active->0;
            let item = session.selected_item()->0;
            let app = self.with_session(
                Session { resolving: if item.resolved { None } else { session.selected }, ..session },
            ).request_cancelled();
            App {
                completion: State {
                    outgoing: if item.resolved {
                        None
                    } else {
                        Some(
                            Request {
                                kind: RequestKind::ResolveCompletion(item.id),
                                automatic: session.automatic,
                            },
                        )
                    },
                    ..app.completion
                },
                ..app
            }
        } else {
            self
        }
    }

    /// What asking for the rest of the selected item gives up.
    pub open spec fn resolve_effects(self) -> Seq<Effect> {
        if self.resolves() { self.language.cancel_effects() } else { seq![] }
    }

    fn resolve_completion(&mut self, out: &mut Vec<Effect>)
        ensures
            *final(self) == old(self).resolve_started(),
            final(out)@ == old(out)@ + old(self).resolve_effects(),
            old(self).completion.moving() ==> final(self).completion.valid(),
    {
        assert(out@ =~= old(out)@ + Seq::<Effect>::empty());
        let (request, automatic) = match &mut self.completion.active {
            Some(session) => {
                let index = match session.selected {
                    Some(index) => index,
                    None => {
                        return;
                    },
                };
                if index >= session.items.len() {
                    return;
                }
                match session.resolving {
                    Some(resolving) => if resolving == index {
                        return;
                    },
                    None => {},
                }
                let request = if session.items[index].resolved {
                    None
                } else {
                    Some(RequestKind::ResolveCompletion(session.items[index].id))
                };
                session.resolving = if session.items[index].resolved { None } else { Some(index) };
                (request, session.automatic)
            },
            None => {
                return;
            },
        };
        self.cancel_language_request(out);
        self.completion.outgoing = match request {
            Some(kind) => Some(Request { kind, automatic }),
            None => None,
        };
    }

    /// The application after another suggestion was selected.
    pub open spec fn completion_moved(self, previous: bool) -> App {
        let session = self.completion.active->0;
        self.with_session(
            Session { selected: Some(session.stepped(previous)), ..session },
        )
    }

    /// Select the next or previous suggestion without editing the document.
    pub fn move_completion(&mut self, previous: bool, out: &mut Vec<Effect>)
        requires
            old(self).completion.active is Some,
            old(self).completion.valid(),
        ensures
            *final(self) == old(self).completion_moved(previous).resolve_started(),
            final(out)@ == old(out)@ + old(self).completion_moved(previous).resolve_effects(),
            final(self).completion.valid(),
    {
        match &mut self.completion.active {
            Some(session) => {
                let len = session.items.len();
                let selected: usize = if len == 0 {
                    if previous { usize::MAX } else { 0 }
                } else {
                    match session.selected {
                        None => if previous { len - 1 } else { 0 },
                        Some(index) => if previous {
                            if index == 0 { len - 1 } else { index - 1 }
                        } else {
                            if index + 1 == len { 0 } else { index + 1 }
                        },
                    }
                };
                session.selected = Some(selected);
            },
            None => {},
        }
        self.resolve_completion(out);
    }

    /// Whether the selected item can be inserted now.
    pub open spec fn insertable(self) -> bool {
        match self.completion.active {
            Some(session) => match session.selected_item() {
                Some(item) => item.resolved,
                None => false,
            },
            None => false,
        }
    }

    /// The application after inserting the selected item was asked for, where
    /// it can be inserted.
    pub open spec fn completion_finished(self) -> App {
        if self.insertable() { self.dismissed() } else { self }
    }

    /// What inserting the selected item asks for.
    pub open spec fn finish_effects(self) -> Seq<Effect> {
        if self.insertable() {
            let session = self.completion.active->0;
            self.language.cancel_effects().push(
                Effect::ApplyCompletion {
                    item: session.selected_item()->0.id,
                    following: session.following,
                },
            )
        } else {
            seq![]
        }
    }

    fn finish_completion(&mut self, out: &mut Vec<Effect>)
        ensures
            *final(self) == old(self).completion_finished(),
            final(out)@ == old(out)@ + old(self).finish_effects(),
            old(self).completion.valid() ==> final(self).completion.valid(),
    {
        assert(out@ =~= old(out)@ + Seq::<Effect>::empty());
        let (item, following) = match &mut self.completion.active {
            Some(session) => {
                let index = match session.selected {
                    Some(index) => index,
                    None => {
                        return;
                    },
                };
                if index >= session.items.len() || !session.items[index].resolved {
                    return;
                }
                (session.items[index].id, session.following.take())
            },
            None => {
                return;
            },
        };
        self.dismiss_language_help(out);
        out.push(Effect::ApplyCompletion { item, following });
        assert(out@ =~= old(out)@ + old(self).finish_effects());
    }

    /// The application that accepts the selected item.
    pub open spec fn completion_accepting(self, following: Option<Event>) -> App {
        self.with_session(
            Session { accepting: true, following, ..self.completion.active->0 },
        )
    }

    /// Accept the selected replacement and imports together. Following input is
    /// retained until resolution finishes, including the key that accepts implicitly.
    pub fn accept_completion(&mut self, following: Option<Event>, out: &mut Vec<Effect>)
        requires
            old(self).completion.active is Some,
        ensures
            ({
                let accepting = old(self).completion_accepting(following);
                let resolving = accepting.resolve_started();
                &&& *final(self) == resolving.completion_finished()
                &&& final(out)@ == old(out)@ + accepting.resolve_effects()
                    + resolving.finish_effects()
            }),
            old(self).completion.valid() ==> final(self).completion.valid(),
    {
        match &mut self.completion.active {
            Some(session) => {
                session.accepting = true;
                session.following = following;
            },
            None => {},
        }
        self.resolve_completion(out);
        self.finish_completion(out);
    }

    /// Reports how applying a completion ended, after the event that followed
    /// it.
    pub fn completion_applied(
        &mut self,
        outcome: Result<(), Error>,
        following: Option<Event>,
        out: &mut Vec<Effect>,
    )
        ensures
            *final(self) == match (outcome, following) {
                (Err(error), None) => old(self).cleared().failed(error),
                _ => old(self).cleared(),
            },
            final(out)@ == old(out)@ + replay(following) + match (outcome, following) {
                (Err(error), Some(_)) => seq![Effect::Report(error)],
                _ => seq![],
            },
    {
        self.clear_message();
        let follows = following.is_some();
        push_replay(following, out);
        match outcome {
            Ok(()) => {},
            Err(error) => {
                if follows {
                    out.push(Effect::Report(error));
                } else {
                    self.fail(error);
                }
            },
        }
        assert(out@ =~= old(out)@ + replay(following) + match (outcome, following) {
            (Err(error), Some(_)) => seq![Effect::Report(error)],
            _ => seq![],
        });
    }

    /// Whether a failure of the session is not worth a message: nobody asked
    /// for it.
    pub open spec fn completion_quiet(self) -> bool {
        match self.completion.active {
            Some(session) => session.automatic && !session.accepting,
            None => false,
        }
    }

    /// The event that waits for the session to end.
    pub open spec fn waiting_event(self) -> Option<Event> {
        match self.completion.active {
            Some(session) => session.following,
            None => None,
        }
    }

    /// The application after completion failed.
    pub open spec fn completion_failed(self, error: Error) -> App {
        if self.completion_quiet() || self.waiting_event() is Some {
            self.dismissed()
        } else {
            self.dismissed().failed(error)
        }
    }

    /// What failing completion asks for: the waiting event acts first, and
    /// then the error is reported.
    pub open spec fn completion_fail_effects(self, error: Error) -> Seq<Effect> {
        self.language.cancel_effects() + replay(self.waiting_event()) + if !self.completion_quiet()
            && self.waiting_event() is Some {
            seq![Effect::Report(error)]
        } else {
            seq![]
        }
    }

    pub fn fail_completion(&mut self, error: Error, out: &mut Vec<Effect>)
        ensures
            *final(self) == old(self).completion_failed(error),
            final(out)@ == old(out)@ + old(self).completion_fail_effects(error),
            final(self).completion.valid(),
    {
        let (quiet, following) = match &mut self.completion.active {
            Some(session) => (
                session.automatic && !session.accepting,
                session.following.take(),
            ),
            None => (false, None),
        };
        let follows = following.is_some();
        self.dismiss_language_help(out);
        push_replay(following, out);
        if !quiet {
            if follows {
                out.push(Effect::Report(error));
            } else {
                self.fail(error);
            }
        }
        assert(out@ =~= old(out)@ + old(self).completion_fail_effects(error));
    }

    /// The session with a list of suggestions from the server.
    pub open spec fn session_loaded(session: Session, result: Completions) -> Session {
        Session {
            items: result.items,
            label_width: (if result.items@.len() == 0 { 20 } else { widest(result.items@) }) as usize,
            loaded: true,
            incomplete: result.incomplete,
            limited: result.limited,
            selected: match session.selected {
                Some(index) => if result.items@.len() == 0 || index < result.items@.len() {
                    Some(index)
                } else {
                    Some((result.items@.len() - 1) as usize)
                },
                None => None,
            },
            ..session
        }
    }

    /// The application with a list of suggestions from the server.
    pub open spec fn completions_loaded(self, result: Completions) -> App {
        self.with_session(App::session_loaded(self.completion.active->0, result))
    }

    /// Takes a list of suggestions from the server: shows them, asks for the
    /// rest of the selected one, and inserts it where that was asked for.
    pub fn receive_completions(&mut self, result: Completions, out: &mut Vec<Effect>)
        requires
            old(self).completion.valid(),
        ensures
            completions_taken(*old(self), result, *final(self), old(out)@, final(out)@),
            final(self).completion.valid(),
    {
        let (empty, accepting) = match self.load_completions(result) {
            Some(loaded) => loaded,
            None => {
                return;
            },
        };
        if empty {
            self.fail_completion(Error::NoCompletions, out);
            return;
        }
        self.clear_message();
        self.resolve_completion(out);
        if accepting {
            self.finish_completion(out);
        }
    }

    /// Puts a list of suggestions into the session. Returns whether the list
    /// is empty and whether an item is being accepted.
    fn load_completions(&mut self, result: Completions) -> (loaded: Option<(bool, bool)>)
        ensures
            match old(self).completion.active {
                Some(session) => {
                    &&& loaded == Some((result.items@.len() == 0, session.accepting))
                    &&& *final(self) == old(self).completions_loaded(result)
                    &&& session.valid() && result.items@.len() > 0
                        ==> final(self).completion.moving()
                },
                None => loaded is None && *final(self) == *old(self),
            },
    {
        match &mut self.completion.active {
            Some(session) => {
                session.label_width = widest_label(&result.items);
                session.items = result.items;
                session.loaded = true;
                session.incomplete = result.incomplete;
                session.limited = result.limited;
                let len = session.items.len();
                match session.selected {
                    Some(index) => {
                        if len > 0 && index >= len {
                            session.selected = Some(len - 1);
                        }
                    },
                    None => {},
                }
                Some((len == 0, session.accepting))
            },
            None => None,
        }
    }

    /// The application with the rest of the resolving item; `items` are the
    /// suggestions with it.
    pub open spec fn completion_resolved(self, items: Vec<CompletionItem>) -> App {
        self.with_session(
            Session { items, resolving: None, ..self.completion.active->0 },
        )
    }

    /// Takes the rest of an item from the server and inserts the item where
    /// that was asked for. Without a session that waits for one, nothing
    /// happens.
    pub fn receive_resolved_completion(&mut self, item: CompletionItem, out: &mut Vec<Effect>)
        requires
            old(self).completion.valid(),
        ensures
            resolution_taken(*old(self), item, *final(self), old(out)@, final(out)@),
            final(self).completion.valid(),
    {
        let ghost mut kept: Vec<CompletionItem> = arbitrary();
        let accepting = match &mut self.completion.active {
            Some(session) => {
                let index = match session.resolving.take() {
                    Some(index) => index,
                    None => {
                        return;
                    },
                };
                session.items.set(index, item);
                proof {
                    kept = session.items;
                }
                session.accepting
            },
            None => {
                return;
            },
        };
        assert(kept@ == old(self).completion.active->0.items@.update(
            old(self).completion.active->0.resolving->0 as int,
            item,
        ));
        assert(*self == old(self).completion_resolved(kept));
        if accepting {
            self.finish_completion(out);
        }
    }

    /// Completion keys take precedence over insertion only while the menu is active.
    /// Ctrl-c rejects; other keys commit an explicitly selected item, then dispatch.
    /// Returns whether to redraw, where the event needs no further handling.
    pub fn handle_completion_input(
        &mut self,
        event: &Event,
        out: &mut Vec<Effect>,
    ) -> (redraw: Option<bool>)
        requires
            old(self).completion.valid(),
        ensures
            menu_event_taken(
                *old(self),
                *event,
                *final(self),
                old(out)@,
                final(out)@,
                redraw,
            ),
            final(self).completion.valid(),
    {
        self.invalidate_completion(out);
        let choice = match &self.completion.active {
            Some(session) => session.decide(event),
            None => {
                return None;
            },
        };
        match choice {
            MenuChoice::Pass => None,
            MenuChoice::Ignore => Some(false),
            MenuChoice::Reject => {
                let ghost before = *self;
                let ghost done = out@;
                let following = match &mut self.completion.active {
                    Some(session) => session.following.take(),
                    None => None,
                };
                self.dismiss_language_help(out);
                match following {
                    Some(event) => {
                        out.push(Effect::Replay(event));
                        out.push(Effect::ClearMessage);
                        assert(out@ =~= done + before.language.cancel_effects() + seq![
                            Effect::Replay(event),
                            Effect::ClearMessage,
                        ]);
                    },
                    None => {
                        self.clear_message();
                    },
                }
                Some(true)
            },
            MenuChoice::Resume => {
                let ghost before = *self;
                let ghost done = out@;
                let following = match &mut self.completion.active {
                    Some(session) => session.following.take(),
                    None => None,
                };
                self.dismiss_language_help(out);
                push_replay(following, out);
                out.push(Effect::Replay(event.duplicate()));
                assert(out@ =~= done + before.language.cancel_effects() + replay(following).push(
                    Effect::Replay(*event),
                ));
                Some(true)
            },
            MenuChoice::Next => {
                self.move_completion(false, out);
                Some(true)
            },
            MenuChoice::Previous => {
                self.move_completion(true, out);
                Some(true)
            },
            MenuChoice::Accept => {
                self.accept_completion(None, out);
                Some(true)
            },
            MenuChoice::AcceptThen => {
                self.accept_completion(Some(event.duplicate()), out);
                Some(true)
            },
        }
    }
}

/// Whether a list of suggestions was taken as it should be: shown, the rest of
/// the selected one asked for, and that one inserted where it was accepted.
pub open spec fn completions_taken(
    before: App,
    result: Completions,
    after: App,
    asked: Seq<Effect>,
    asks: Seq<Effect>,
) -> bool {
    let loaded = before.completions_loaded(result);
    if before.completion.active is None {
        after == before && asks == asked
    } else if result.items@.len() == 0 {
        &&& after == loaded.completion_failed(Error::NoCompletions)
        &&& asks == asked + loaded.completion_fail_effects(Error::NoCompletions)
    } else {
        let resolving = loaded.cleared().resolve_started();
        if before.completion.active->0.accepting {
            &&& after == resolving.completion_finished()
            &&& asks == asked + loaded.resolve_effects() + resolving.finish_effects()
        } else {
            &&& after == resolving
            &&& asks == asked + loaded.resolve_effects()
        }
    }
}

/// Whether the rest of an item was taken as it should be: put into the list,
/// and the selected item inserted where it was accepted. Without a session
/// that waits for it, nothing changes.
pub open spec fn resolution_taken(
    before: App,
    item: CompletionItem,
    after: App,
    asked: Seq<Effect>,
    asks: Seq<Effect>,
) -> bool {
    match before.completion.active {
        Some(session) => match session.resolving {
            Some(index) => exists|items: Vec<CompletionItem>| #[trigger]
                items@ == session.items@.update(index as int, item) && {
                    let app = before.completion_resolved(items);
                    if session.accepting {
                        &&& after == app.completion_finished()
                        &&& asks == asked + app.finish_effects()
                    } else {
                        after == app && asks == asked
                    }
                },
            None => after == before && asks == asked,
        },
        None => after == before && asks == asked,
    }
}

/// Selecting the next suggestion and then the previous one leads back.
pub proof fn law_previous_undoes_next(session: Session)
    requires
        session.valid(),
        session.items@.len() > 0,
        session.items@.len() <= usize::MAX,
        session.selected is Some,
    ensures
        (Session { selected: Some(session.stepped(false)), ..session }).stepped(true)
            == session.selected->0,
        (Session { selected: Some(session.stepped(true)), ..session }).stepped(false)
            == session.selected->0,
{
}

/// Completions for a place that the editor has left are never offered, drawn
/// or asked for.
pub proof fn law_stale_completions_are_dropped(app: App, now: Time)
    requires
        app.completion_stale(),
    ensures
        app.completion_checked().completion.active is None,
        app.completion_checked().completion.scheduled is None,
        app.completion_polled(now).completion.outgoing is None,
{
}

/// Typing asks for completions at most once, and no earlier than the delay:
/// a scheduled request is handed out when it is due, and then it is gone.
pub proof fn law_a_scheduled_request_is_made_once(app: App, now: Time)
    requires
        !app.completion_stale(),
        app.completion.scheduled matches Some(scheduled) && scheduled.due <= now,
    ensures
        app.completion_polled(now).completion.scheduled is None,
        app.completion_polled(now).completion.outgoing matches Some(request) && request.kind
            == RequestKind::Completion(app.completion.scheduled->0.trigger),
{
}

/// Whether the menu of suggestions took an event as it should.
pub open spec fn menu_event_taken(
    before: App,
    event: Event,
    after: App,
    asked: Seq<Effect>,
    asks: Seq<Effect>,
    redraw: Option<bool>,
) -> bool {
    let app = before.completion_checked();
    let done = asked + before.check_effects();
    match app.completion.active {
        None => redraw is None && after == app && asks == done,
        Some(session) => match session.choice(event) {
            MenuChoice::Pass => redraw is None && after == app && asks
                == done,
            MenuChoice::Ignore => redraw == Some(false) && after == app
                && asks == done,
            MenuChoice::Reject => {
                &&& redraw == Some(true)
                &&& match session.following {
                    Some(following) => {
                        &&& after == app.dismissed()
                        &&& asks == done + app.language.cancel_effects() + seq![
                            Effect::Replay(following),
                            Effect::ClearMessage,
                        ]
                    },
                    None => {
                        &&& after == app.dismissed().cleared()
                        &&& asks == done + app.language.cancel_effects()
                    },
                }
            },
            MenuChoice::Resume => {
                &&& redraw == Some(true)
                &&& after == app.dismissed()
                &&& asks == done + app.language.cancel_effects() + replay(
                    session.following,
                ).push(Effect::Replay(event))
            },
            MenuChoice::Next => {
                &&& redraw == Some(true)
                &&& after == app.completion_moved(false).resolve_started()
                &&& asks == done + app.completion_moved(false).resolve_effects()
            },
            MenuChoice::Previous => {
                &&& redraw == Some(true)
                &&& after == app.completion_moved(true).resolve_started()
                &&& asks == done + app.completion_moved(true).resolve_effects()
            },
            MenuChoice::Accept | MenuChoice::AcceptThen => {
                let following = if session.choice(event) == MenuChoice::Accept {
                    None
                } else {
                    Some(event)
                };
                let accepting = app.completion_accepting(following);
                let resolving = accepting.resolve_started();
                &&& redraw == Some(true)
                &&& after == resolving.completion_finished()
                &&& asks == done + accepting.resolve_effects()
                    + resolving.finish_effects()
            },
        },
    }
}

/// Whether the settings of automatic completion were shown or changed as they should be.
pub open spec fn completion_configured(
    before: App,
    argument: Seq<char>,
    now: App,
    asked: Seq<Effect>,
    asks: Seq<Effect>,
    result: Result<(), Error>,
) -> bool {
    let words = words_of(argument);
    match configured(before.completion.config, words) {
        Some(config) => {
            let app = if words.len() > 0 { before.dismissed() } else { before };
            &&& result is Ok
            &&& now == (App {
                completion: State { config, ..app.completion },
                ..app
            }).says(
                Message::Completion {
                    enabled: config.enabled,
                    characters: config.min_length as u64,
                    milliseconds: config.delay,
                },
            )
            &&& asks == asked + if words.len() > 0 {
                before.language.cancel_effects()
            } else {
                seq![]
            }
        },
        None => {
            &&& result == Err::<(), Error>(Error::AutoCompletionUsage)
            &&& now == before
            &&& asks == asked
        },
    }
}

} // verus!
