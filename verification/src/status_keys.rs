//! Keys of a repository view, and the line that a visited change is found on.

use crate::app::{ActivePrompt, App, PromptInput, PromptKind};
use crate::editor::Time;
use crate::effect::Effect;
use crate::error::Error;
use crate::event::{Event, Key};
use crate::git_write;
use crate::message::Message;
use crate::roots::same_root;
use crate::status::{
    find_view, status_closed, status_refreshed, view_index, without_help, RepoView, State,
};
use crate::text::{byte_length, bytes_in, chars_of};
use crate::windows::{Root, Screen};
use vstd::prelude::*;

verus! {

/// What a key means to a repository view.
#[derive(Clone, Copy, Debug, PartialEq, Eq, Structural)]
pub enum StatusChoice {
    /// Open the commit message, for which the first key was typed before.
    BeginCommit,
    /// Nothing: the key only ends what another began.
    Consumed,
    /// Forget the keys of an unfinished sequence, and read the repository again.
    RefreshKeys,
    /// Forget the keys of an unfinished sequence.
    DropKeys,
    /// Give the key to the keymap.
    Forward,
    Prompt,
    /// Close the help, or else the view.
    Leave,
    Refresh,
    Stage,
    Unstage,
    /// Wait for the second key of a commit.
    Prefix,
    Toggle,
    Visit,
    /// Move the selection by a number of rows.
    Move { down: bool, count: usize },
    First,
    Last,
    /// Go to the next or the previous section.
    Section { next: bool },
    Help,
    /// Say which keys there are.
    Hint,
}

impl StatusChoice {
    /// What a key means, when none is awaited.
    pub open spec fn of_key(key: Key, page: usize) -> StatusChoice {
        let half = if page / 2 == 0 { 1usize } else { page / 2 };
        match key {
            Key::Char(':') => StatusChoice::Prompt,
            Key::Char('q') | Key::Escape | Key::Ctrl('c') | Key::Ctrl('q') => StatusChoice::Leave,
            Key::Char('r') => StatusChoice::Refresh,
            Key::Char('s') => StatusChoice::Stage,
            Key::Char('u') => StatusChoice::Unstage,
            Key::Char('c') => StatusChoice::Prefix,
            Key::Tab => StatusChoice::Toggle,
            Key::Enter => StatusChoice::Visit,
            Key::Char('j') | Key::Down => StatusChoice::Move { down: true, count: 1 },
            Key::Char('k') | Key::Up => StatusChoice::Move { down: false, count: 1 },
            Key::Ctrl('d') => StatusChoice::Move { down: true, count: half },
            Key::Ctrl('u') => StatusChoice::Move { down: false, count: half },
            Key::PageDown => StatusChoice::Move { down: true, count: page },
            Key::PageUp => StatusChoice::Move { down: false, count: page },
            Key::Home => StatusChoice::First,
            Key::End => StatusChoice::Last,
            Key::Char('n') => StatusChoice::Section { next: true },
            Key::Char('p') => StatusChoice::Section { next: false },
            Key::Char('?') => StatusChoice::Help,
            _ => StatusChoice::Hint,
        }
    }

    fn for_key(key: Key, page: usize) -> (choice: StatusChoice)
        ensures
            choice == StatusChoice::of_key(key, page),
    {
        let half: usize = if page / 2 == 0 { 1 } else { page / 2 };
        match key {
            Key::Char(':') => StatusChoice::Prompt,
            Key::Char('q') | Key::Escape | Key::Ctrl('c') | Key::Ctrl('q') => StatusChoice::Leave,
            Key::Char('r') => StatusChoice::Refresh,
            Key::Char('s') => StatusChoice::Stage,
            Key::Char('u') => StatusChoice::Unstage,
            Key::Char('c') => StatusChoice::Prefix,
            Key::Tab => StatusChoice::Toggle,
            Key::Enter => StatusChoice::Visit,
            Key::Char('j') | Key::Down => StatusChoice::Move { down: true, count: 1 },
            Key::Char('k') | Key::Up => StatusChoice::Move { down: false, count: 1 },
            Key::Ctrl('d') => StatusChoice::Move { down: true, count: half },
            Key::Ctrl('u') => StatusChoice::Move { down: false, count: half },
            Key::PageDown => StatusChoice::Move { down: true, count: page },
            Key::PageUp => StatusChoice::Move { down: false, count: page },
            Key::Home => StatusChoice::First,
            Key::End => StatusChoice::Last,
            Key::Char('n') => StatusChoice::Section { next: true },
            Key::Char('p') => StatusChoice::Section { next: false },
            Key::Char('?') => StatusChoice::Help,
            _ => StatusChoice::Hint,
        }
    }
}

/// What an event does to a repository view.
#[derive(Clone, Copy, Debug, PartialEq, Eq, Structural)]
pub enum StatusStep {
    /// Nothing, and nothing is redrawn.
    Ignored,
    /// What there was to do is done.
    Done,
    /// What is left to do.
    Next(StatusChoice),
}

/// The prompt for a command.
pub open spec fn command_prompt(input: PromptInput) -> ActivePrompt {
    ActivePrompt { input, kind: PromptKind::Command, register: ':', history_position: None }
}

impl Screen {
    /// Rows of a page of the active window, its status line apart.
    pub open spec fn page_rows(self) -> usize {
        let rect = crate::layout::pane_of(
            self.app.windows.layout.shown(self.app.area()),
            self.app.window(),
        )->0;
        if rect.height <= 1 { 1 } else { (rect.height - 1) as usize }
    }

    /// Whether the first key of a commit was typed in the view that is shown.
    pub open spec fn commit_begun(self) -> bool {
        self.app.git_write.status_prefix matches Some(prefix) && (self.git_view() matches Some(key)
            && prefix@ == key@)
    }

    /// What a key means to the repository view of the active window. `space`
    /// says whether the keymap waits behind the space key alone.
    pub open spec fn status_choice(self, key: Key, space: bool) -> StatusChoice {
        let waits = self.app.editor.keys_pending;
        if self.commit_begun() {
            if key == Key::Char('c') { StatusChoice::BeginCommit } else { StatusChoice::Consumed }
        } else if waits || key == Key::Char(' ') || key == Key::Ctrl('w') {
            if space && key == Key::Char('g') {
                StatusChoice::RefreshKeys
            } else if space && key != Key::Char('w') && key != Key::Escape || waits && (key
                == Key::Char('f') || key == Key::Char('F')) {
                StatusChoice::DropKeys
            } else {
                StatusChoice::Forward
            }
        } else {
            StatusChoice::of_key(key, self.page_rows())
        }
    }
}

/// The application once a key of its repository view was looked at: the
/// command line is cleared, and a begun commit is no longer awaited.
pub open spec fn listened(app: App) -> App {
    App {
        git_write: git_write::State { status_prefix: None, ..app.git_write },
        ..app.cleared()
    }
}

/// Whether a key did to a repository view what it should.
pub open spec fn status_key_taken(
    before: App,
    key: Key,
    space: bool,
    now: Time,
    after: App,
    asked: Seq<Effect>,
    asks: Seq<Effect>,
    step: StatusStep,
) -> bool {
    let view = before.screen().git_view()->0;
    let app = listened(before);
    let choice = before.screen().status_choice(key, space);
    match choice {
        StatusChoice::Consumed => step == StatusStep::Done && after == app && asks == asked,
        StatusChoice::RefreshKeys => {
            &&& step == StatusStep::Done
            &&& status_refreshed(app, now, after, asked.push(Effect::CancelKeys), asks)
        },
        StatusChoice::DropKeys => {
            &&& step == StatusStep::Done
            &&& after == app
            &&& asks == asked.push(Effect::CancelKeys)
        },
        StatusChoice::Forward => {
            &&& step == StatusStep::Done
            &&& after == app
            &&& asks == asked.push(Effect::HandleKey(key)).push(Effect::ApplyAction)
        },
        StatusChoice::Prompt => {
            &&& step == StatusStep::Done
            &&& asks == asked
            &&& after.prompt matches Some(prompt) && prompt == command_prompt(prompt.input)
                && prompt.input.text@.len() == 0 && !prompt.input.register_pending
            &&& after == (App { prompt: after.prompt, ..app })
        },
        StatusChoice::Leave => {
            let at = find_view(app.status.views@, view@);
            &&& step == StatusStep::Done
            &&& if at < app.status.views@.len() && app.status.views@[at].help {
                &&& after.status.views@ == without_help(app.status.views@, Some(view))
                &&& after == (App {
                    status: State { views: after.status.views, ..app.status },
                    ..app
                })
                &&& asks == asked
            } else {
                status_closed(app, after, asked, asks)
            }
        },
        StatusChoice::Refresh => {
            &&& step == StatusStep::Done
            &&& status_refreshed(app, now, after, asked, asks)
        },
        StatusChoice::Prefix => {
            &&& step == StatusStep::Done
            &&& asks == asked
            &&& after == App {
                git_write: git_write::State { status_prefix: Some(view), ..app.git_write },
                ..app
            }.says(Message::GitCommitKeys)
        },
        StatusChoice::Help => {
            let views = app.status.views@;
            let at = find_view(views, view@);
            &&& step == StatusStep::Done
            &&& asks == asked
            &&& after.status.views@ == if at < views.len() {
                views.update(at, RepoView { help: !views[at].help, ..views[at] })
            } else {
                views
            }
            &&& after == (App {
                status: State { views: after.status.views, ..app.status },
                ..app
            })
        },
        StatusChoice::Hint => {
            &&& step == StatusStep::Done
            &&& asks == asked
            &&& after == app.says(Message::GitKeys)
        },
        _ => step == StatusStep::Next(choice) && after == app && asks == asked,
    }
}

impl App {
    /// Gives an event to the repository view of the active window. Nothing
    /// where it shows none, where a prompt is open, or where others may have
    /// the event too.
    pub fn handle_status_input(
        &mut self,
        event: &Event,
        space: bool,
        now: Time,
        out: &mut Vec<Effect>,
    ) -> (step: Option<StatusStep>)
        requires
            old(self).screen().valid(),
        ensures
            status_event_taken(
                *old(self),
                *event,
                space,
                now,
                *final(self),
                old(out)@,
                final(out)@,
                step,
            ),
            final(self).screen().valid(),
    {
        let view = match self.active_git_view() {
            Some(view) => view,
            None => {
                return None;
            },
        };
        if self.prompt.is_some() {
            return None;
        }
        match event {
            Event::Resize(_, _) | Event::FocusGained => {
                return None;
            },
            Event::Paste(_) => {
                self.message = Message::GitReadOnly;
                return Some(StatusStep::Done);
            },
            _ => {},
        }
        match event.key() {
            Some(key) => Some(self.handle_status_key(&view, key, space, now, out)),
            None => Some(StatusStep::Ignored),
        }
    }

    fn choose_status(&self, view: &Root, key: Key, space: bool) -> (choice: StatusChoice)
        requires
            self.screen().valid(),
            self.screen().git_view() == Some(*view),
        ensures
            choice == self.screen().status_choice(key, space),
    {
        let begun = match &self.git_write.status_prefix {
            Some(prefix) => same_root(prefix, view),
            None => false,
        };
        if begun {
            return if key == Key::Char('c') {
                StatusChoice::BeginCommit
            } else {
                StatusChoice::Consumed
            };
        }
        let waits = self.editor.keys_pending;
        if waits || key == Key::Char(' ') || key == Key::Ctrl('w') {
            return if space && key == Key::Char('g') {
                StatusChoice::RefreshKeys
            } else if (space && key != Key::Char('w') && key != Key::Escape) || (waits && (key
                == Key::Char('f') || key == Key::Char('F'))) {
                StatusChoice::DropKeys
            } else {
                StatusChoice::Forward
            };
        }
        let (_, height) = self.active_size();
        let page: usize = if height <= 1 { 1 } else { (height - 1) as usize };
        StatusChoice::for_key(key, page)
    }

    fn handle_status_key(
        &mut self,
        view: &Root,
        key: Key,
        space: bool,
        now: Time,
        out: &mut Vec<Effect>,
    ) -> (step: StatusStep)
        requires
            old(self).screen().valid(),
            old(self).screen().git_view() == Some(*view),
        ensures
            status_key_taken(
                *old(self),
                key,
                space,
                now,
                *final(self),
                old(out)@,
                final(out)@,
                step,
            ),
            final(self).screen().valid(),
    {
        let choice = self.choose_status(view, key, space);
        self.clear_message();
        self.git_write.status_prefix = None;
        assert(self.screen().valid());
        match choice {
            StatusChoice::Consumed => StatusStep::Done,
            StatusChoice::RefreshKeys => {
                out.push(Effect::CancelKeys);
                self.refresh_status(now, out);
                StatusStep::Done
            },
            StatusChoice::DropKeys => {
                out.push(Effect::CancelKeys);
                StatusStep::Done
            },
            StatusChoice::Forward => {
                out.push(Effect::HandleKey(key));
                out.push(Effect::ApplyAction);
                StatusStep::Done
            },
            StatusChoice::Prompt => {
                let input = PromptInput { text: String::new(), register_pending: false };
                self.prompt = Some(
                    ActivePrompt {
                        input,
                        kind: PromptKind::Command,
                        register: ':',
                        history_position: None,
                    },
                );
                StatusStep::Done
            },
            StatusChoice::Leave => {
                let at = view_index(&self.status.views, view);
                if at < self.status.views.len() && self.status.views[at].help {
                    self.close_help(view);
                } else {
                    self.close_git_status(out);
                }
                StatusStep::Done
            },
            StatusChoice::Refresh => {
                self.refresh_status(now, out);
                StatusStep::Done
            },
            StatusChoice::Prefix => {
                self.git_write.status_prefix = Some(crate::shared::share(view));
                self.message = Message::GitCommitKeys;
                StatusStep::Done
            },
            StatusChoice::Help => {
                self.toggle_help(view);
                StatusStep::Done
            },
            StatusChoice::Hint => {
                self.message = Message::GitKeys;
                StatusStep::Done
            },
            other => StatusStep::Next(other),
        }
    }
}

/// A longer line is not looked for.
pub const MAX_ANCHOR: usize = 4096;

/// How far from its old place a changed line is looked for.
pub const ANCHOR_RANGE: usize = 200;

/// A line without the line break at its end.
pub open spec fn unbroken(line: Seq<char>) -> Seq<char>
    decreases line.len(),
{
    if line.len() > 0 && (line.last() == '\r' || line.last() == '\n') {
        unbroken(line.drop_last())
    } else {
        line
    }
}

/// Whether a line is the one that was looked for.
pub open spec fn is_anchor(line: Seq<char>, anchor: Seq<char>) -> bool {
    byte_length(line) <= byte_length(anchor) + 2 && unbroken(line) == anchor
}

pub open spec fn apart(a: int, b: int) -> int {
    if a <= b { b - a } else { a - b }
}

/// Whether `found` is the line nearest to `line` that reads like `anchor`; of
/// two equally near the first. `nearby` are the lines from `first` on.
pub open spec fn nearest(
    nearby: Seq<String>,
    first: int,
    line: int,
    anchor: Seq<char>,
    found: int,
) -> bool {
    &&& first <= found < first + nearby.len()
    &&& is_anchor(nearby[found - first]@, anchor)
    &&& forall|i: int|
        0 <= i < nearby.len() && is_anchor((#[trigger] nearby[i])@, anchor) ==> {
            ||| apart(found, line) < apart(first + i, line)
            ||| apart(found, line) == apart(first + i, line) && found <= first + i
        }
}

fn matches_anchor(line: &str, anchor: &str) -> (yes: bool)
    ensures
        yes == is_anchor(line@, anchor@),
{
    let size = bytes_in(line);
    let limit = bytes_in(anchor);
    if size > limit && size - limit > 2 {
        return false;
    }
    let chars = chars_of(line);
    let mut end: usize = chars.len();
    assert(chars@.take(end as int) =~= chars@);
    while end > 0 && (chars[end - 1] == '\r' || chars[end - 1] == '\n')
        invariant
            end <= chars.len(),
            unbroken(chars@) == unbroken(chars@.take(end as int)),
        decreases end,
    {
        assert(chars@.take(end as int).drop_last() =~= chars@.take(end - 1));
        assert(chars@.take(end as int).last() == chars@[end - 1]);
        end -= 1;
    }
    assert(unbroken(chars@) == chars@.take(end as int)) by {
        if end > 0 {
            assert(chars@.take(end as int).last() == chars@[end - 1]);
        }
    }
    let text = crate::text::text_between(chars.as_slice(), 0, end);
    assert(text@ =~= chars@.take(end as int));
    crate::text::same_text(text.as_str(), anchor)
}

/// The line to visit for a change that was on `line` of a file: index
/// positions may have shifted on disk or in an unsaved buffer, so the nearest
/// line that reads like `anchor` is taken, where there is one. `total` is the
/// number of lines, and `nearby` are those from `line - 200` to `line + 200`,
/// as far as there are any.
pub fn visited_line(
    line: usize,
    total: usize,
    anchor: Option<&str>,
    nearby: &Vec<String>,
) -> (target: usize)
    requires
        ({
            let line = if total == 0 {
                0int
            } else if line < total {
                line as int
            } else {
                total - 1
            };
            let first = if line >= ANCHOR_RANGE { line - ANCHOR_RANGE } else { 0 };
            first + nearby@.len() <= usize::MAX
        }),
    ensures
        ({
            let line = if total == 0 {
                0int
            } else if line < total {
                line as int
            } else {
                total - 1
            };
            let first = if line >= ANCHOR_RANGE { line - ANCHOR_RANGE } else { 0 };
            match anchor {
                Some(anchor) => if byte_length(anchor@) <= MAX_ANCHOR && exists|i: int|
                    0 <= i < nearby@.len() && is_anchor((#[trigger] nearby@[i])@, anchor@) {
                    nearest(nearby@, first, line, anchor@, target as int)
                } else {
                    target == line
                },
                None => target == line,
            }
        }),
{
    let line: usize = if total == 0 {
        0
    } else if line < total {
        line
    } else {
        total - 1
    };
    let anchor = match anchor {
        Some(anchor) => anchor,
        None => {
            return line;
        },
    };
    if bytes_in(anchor) > MAX_ANCHOR {
        return line;
    }
    let first: usize = if line >= ANCHOR_RANGE { line - ANCHOR_RANGE } else { 0 };
    let mut best: Option<usize> = None;
    let mut i: usize = 0;
    while i < nearby.len()
        invariant
            i <= nearby.len(),
            first + nearby@.len() <= usize::MAX,
            match best {
                None => forall|j: int|
                    0 <= j < i ==> !is_anchor((#[trigger] nearby@[j])@, anchor@),
                Some(found) => nearest(
                    nearby@.take(i as int),
                    first as int,
                    line as int,
                    anchor@,
                    found as int,
                ),
            },
        decreases nearby.len() - i,
    {
        let ghost shorter = nearby@.take(i as int);
        let ghost longer = nearby@.take(i + 1);
        assert(forall|j: int| 0 <= j < i ==> #[trigger] longer[j] == shorter[j]);
        assert(longer[i as int] == nearby@[i as int]);
        if matches_anchor(nearby[i].as_str(), anchor) {
            let here: usize = first + i;
            match best {
                None => {
                    best = Some(here);
                },
                Some(found) => {
                    if distance(here, line) < distance(found, line) {
                        best = Some(here);
                    }
                },
            }
        }
        proof {
            match best {
                Some(found) => {
                    assert(is_anchor(longer[found - first]@, anchor@));
                    assert forall|j: int|
                        0 <= j < longer.len() && is_anchor(
                            (#[trigger] longer[j])@,
                            anchor@,
                        ) implies apart(found as int, line as int) < apart(
                        first + j,
                        line as int,
                    ) || apart(found as int, line as int) == apart(first + j, line as int)
                        && found <= first + j by {
                        if j < i {
                            assert(shorter[j] == longer[j]);
                        }
                    }
                },
                None => {},
            }
        }
        i += 1;
    }
    assert(nearby@.take(i as int) =~= nearby@);
    match best {
        Some(found) => {
            assert(is_anchor(nearby@[found - first]@, anchor@));
            found
        },
        None => line,
    }
}

fn distance(a: usize, b: usize) -> (d: usize)
    ensures
        d == apart(a as int, b as int),
{
    if a <= b { b - a } else { a - b }
}

/// No key of a repository view reaches the document behind it, but for those
/// that the keymap was waiting for or that begin a window command.
pub proof fn law_views_never_edit_the_document(
    before: App,
    key: Key,
    space: bool,
    now: Time,
    after: App,
    asked: Seq<Effect>,
    asks: Seq<Effect>,
    step: StatusStep,
)
    requires
        status_key_taken(before, key, space, now, after, asked, asks, step),
        !before.editor.keys_pending,
        key != Key::Char(' '),
        key != Key::Ctrl('w'),
    ensures
        after.editor == before.editor,
        forall|i: int| asked.len() <= i < asks.len() ==> !(#[trigger] asks[i] is HandleKey),
{
}

/// How the selected row of a repository view is visited.
#[derive(Clone, Copy, Debug, PartialEq, Eq, Structural)]
pub enum Visit {
    /// It leads nowhere: its section is opened or closed.
    Toggle,
    /// Its file is opened.
    Open,
}

impl App {
    /// How the selected file or change is visited. `file` says, where the row
    /// leads to a path, whether that is a file; an open document is used where
    /// there is one.
    pub fn visit_git_change(&self, file: Option<bool>) -> (visit: Result<Visit, Error>)
        requires
            self.screen().valid(),
        ensures
            visit_decided(*self, file, visit),
    {
        if self.active_git_view().is_none() {
            return Err(Error::NoGitStatus);
        }
        match file {
            None => Ok(Visit::Toggle),
            Some(true) => Ok(Visit::Open),
            Some(false) => Err(Error::GitPathGone),
        }
    }

    /// Ends a visit: the outcome is that of selecting the line.
    pub fn git_change_visited(&mut self, outcome: Result<(), Error>, out: &mut Vec<Effect>) -> (
        result: Result<(), Error>)
        ensures
            result == outcome,
            match outcome {
                Ok(()) => {
                    &&& *final(self) == (App { prompt: None, ..old(self).cleared() })
                    &&& final(out)@ == old(out)@.push(Effect::CancelKeys)
                },
                Err(_) => *final(self) == *old(self) && final(out)@ == old(out)@,
            },
    {
        if outcome.is_ok() {
            out.push(Effect::CancelKeys);
            self.prompt = None;
            self.clear_message();
        }
        outcome
    }

    /// Ends the opening or closing of a section: the outcome says whether the
    /// repository has to be read again.
    pub fn toggle_git_section(
        &mut self,
        outcome: Result<bool, Error>,
        now: Time,
        out: &mut Vec<Effect>,
    ) -> (result: Result<(), Error>)
        requires
            old(self).screen().valid(),
        ensures
            section_toggled(
                *old(self),
                outcome,
                now,
                *final(self),
                old(out)@,
                final(out)@,
                result,
            ),
    {
        if self.active_git_view().is_none() {
            return Err(Error::NoGitStatus);
        }
        match outcome {
            Ok(again) => {
                if again {
                    self.refresh_status(now, out);
                }
                Ok(())
            },
            Err(error) => Err(error),
        }
    }
}

/// Whether the repository view of the active window took an event as it should.
pub open spec fn status_event_taken(
    before: App,
    event: Event,
    space: bool,
    now: Time,
    after: App,
    asked: Seq<Effect>,
    asks: Seq<Effect>,
    step: Option<StatusStep>,
) -> bool {
    let passes = before.screen().git_view() is None || before.prompt is Some
        || event is Resize || event is FocusGained;
    if passes {
        step is None && after == before && asks == asked
    } else {
        match event.pressed() {
            Some(key) => step matches Some(step) && status_key_taken(
                before,
                key,
                space,
                now,
                after,
                asked,
                asks,
                step,
            ),
            None => {
                &&& asks == asked
                &&& if event is Paste {
                    &&& step == Some(StatusStep::Done)
                    &&& after == before.says(Message::GitReadOnly)
                } else {
                    step == Some(StatusStep::Ignored) && after == before
                }
            },
        }
    }
}

/// Whether the opening or closing of a section was ended as it should be.
pub open spec fn section_toggled(
    before: App,
    outcome: Result<bool, Error>,
    time: Time,
    now: App,
    asked: Seq<Effect>,
    asks: Seq<Effect>,
    result: Result<(), Error>,
) -> bool {
    if before.screen().git_view() is None {
        &&& result == Err::<(), Error>(Error::NoGitStatus)
        &&& now == before
        &&& asks == asked
    } else {
        match outcome {
            Err(error) => {
                &&& result == Err::<(), Error>(error)
                &&& now == before
                &&& asks == asked
            },
            Ok(true) => {
                &&& result is Ok
                &&& status_refreshed(before, time, now, asked, asks)
            },
            Ok(false) => {
                result is Ok && now == before && asks == asked
            },
        }
    }
}

/// Whether this is how the selected row is visited.
pub open spec fn visit_decided(
    before: App,
    file: Option<bool>,
    visit: Result<Visit, Error>,
) -> bool {
    visit == if before.screen().git_view() is None {
        Err::<Visit, Error>(Error::NoGitStatus)
    } else {
        match file {
            None => Ok(Visit::Toggle),
            Some(true) => Ok(Visit::Open),
            Some(false) => Err(Error::GitPathGone),
        }
    }
}

} // verus!
