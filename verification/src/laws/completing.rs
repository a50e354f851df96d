//! Completion by what is typed and what is selected.

use crate::app::App;
use crate::completion::{
    completions_taken, menu_event_taken, resolution_taken, CompletionItem, CompletionTrigger,
    Completions, Refresh, Typing,
};
use crate::editor::{Mode, Time};
use crate::effect::Effect;
use crate::event::{Event, Key, KeyPress};
use crate::language::{RequestKind, Status};
use crate::selection::Revision;
use vstd::prelude::*;

verus! {

/// A press of a key.
pub open spec fn press(key: Key) -> Event {
    Event::Key(KeyPress { released: false, key: Some(key) })
}

/// Whether a menu of suggestions is open at the present place.
pub open spec fn menu_open(app: App) -> bool {
    &&& app.editor.mode == Mode::Insert
    &&& app.completion.scheduled is None
    &&& app.completion.active matches Some(session) && {
        &&& session.loaded
        &&& session.items@.len() > 0
        &&& session.document == app.editor.document
        &&& session.revision == app.editor.revision
        &&& session.selections@ == app.editor.selections@
        &&& session.selected matches Some(index) ==> index < session.items@.len()
    }
}

/// Whether some of the effects behind the first insert a suggestion.
pub open spec fn inserts(asked: Seq<Effect>, asks: Seq<Effect>) -> bool {
    exists|i: int| asked.len() <= i < asks.len() && #[trigger] asks[i] is ApplyCompletion
}

/// Down, Ctrl-n and Tab select the next suggestion, and Up, Ctrl-p and Shift-Tab
/// the one before, around the ends of the list. With nothing selected, the first
/// or the last one is. The suggestions stay, and nothing is inserted.
pub proof fn law_keys_step_through_the_suggestions(
    before: App,
    key: Key,
    after: App,
    asked: Seq<Effect>,
    asks: Seq<Effect>,
    redraw: Option<bool>,
)
    requires
        menu_open(before),
        menu_event_taken(before, press(key), after, asked, asks, redraw),
        key == Key::Down || key == Key::Ctrl('n') || key == Key::Tab || key == Key::Up || key
            == Key::Ctrl('p') || key == Key::BackTab,
    ensures
        redraw == Some(true),
        !inserts(asked, asks),
        ({
            let old = before.completion.active->0;
            let new = after.completion.active->0;
            let forward = key == Key::Down || key == Key::Ctrl('n') || key == Key::Tab;
            let last = old.items@.len() - 1;
            &&& after.completion.active is Some
            &&& new.items == old.items
            &&& new.accepting == old.accepting
            &&& new.selected matches Some(now) && match old.selected {
                Some(i) => if forward {
                    if i < last { now == i + 1 } else { now == 0 }
                } else {
                    if i > 0 { now == i - 1 } else { now == last }
                },
                None => if forward { now == 0 } else { now == last },
            }
        }),
{
    let moved = before.completion_moved(
        key == Key::Up || key == Key::Ctrl('p') || key == Key::BackTab,
    );
    assert(!before.completion_stale());
    assert(before.completion.active->0.items.len() <= usize::MAX);
    assert(asks =~= asked + moved.resolve_effects());
}

/// Enter inserts the selected suggestion, and any other key that is no command of
/// the menu does so too and acts on the document afterwards. A suggestion that
/// the server has not finished is asked for first, and nothing is inserted yet.
pub proof fn law_the_selected_suggestion_is_inserted(
    before: App,
    key: Key,
    after: App,
    asked: Seq<Effect>,
    asks: Seq<Effect>,
    redraw: Option<bool>,
    index: usize,
)
    requires
        menu_open(before),
        before.completion.active->0.selected == Some(index),
        menu_event_taken(before, press(key), after, asked, asks, redraw),
        key == Key::Enter || key is Char || key == Key::Left || key == Key::Right || key
            == Key::Backspace,
    ensures
        redraw == Some(true),
        ({
            let item = before.completion.active->0.items@[index as int];
            let following = if key == Key::Enter { None } else { Some(press(key)) };
            if item.resolved {
                &&& after.completion.active is None
                &&& asks.len() > asked.len()
                &&& asks.last() == (Effect::ApplyCompletion { item: item.id, following })
            } else {
                &&& !inserts(asked, asks)
                &&& after.completion.active matches Some(session) && {
                    &&& session.accepting
                    &&& session.following == following
                    &&& session.selected == Some(index)
                    &&& session.resolving == Some(index)
                }
                &&& before.completion.active->0.resolving is None ==> {
                    after.completion.outgoing matches Some(request) && request.kind
                        == RequestKind::ResolveCompletion(item.id)
                }
            }
        }),
{
    assert(!before.completion_stale());
    let following = if key == Key::Enter { None } else { Some(press(key)) };
    let accepting = before.completion_accepting(following);
    let resolving = accepting.resolve_started();
    assert(asks =~= asked + accepting.resolve_effects() + resolving.finish_effects());
}

/// Ctrl-c closes the menu without inserting anything. With nothing selected, keys
/// that are no commands of the menu leave it alone and go on to the document. A
/// key that is let go means nothing.
pub proof fn law_nothing_is_inserted_unasked(
    before: App,
    key: Key,
    after: App,
    asked: Seq<Effect>,
    asks: Seq<Effect>,
    redraw: Option<bool>,
    released: bool,
)
    requires
        menu_open(before),
        menu_event_taken(
            before,
            Event::Key(KeyPress { released, key: Some(key) }),
            after,
            asked,
            asks,
            redraw,
        ),
        released || key == Key::Ctrl('c') || before.completion.active->0.selected is None,
    ensures
        !inserts(asked, asks),
        released ==> redraw == Some(false) && after == before && asks == asked,
        !released && key == Key::Ctrl('c') ==> redraw == Some(true) && after.completion.active
            is None,
        !released && (key == Key::Enter || key is Char || key == Key::Left || key == Key::Right
            || key == Key::Backspace) ==> redraw is None && after == before && asks == asked,
{
    assert(!before.completion_stale());
    assert(before.check_effects() =~= seq![]);
    let session = before.completion.active->0;
    assert(asked + before.check_effects() =~= asked);
    if !released && key == Key::Ctrl('c') {
        let tail = match session.following {
            Some(following) => seq![Effect::Replay(following), Effect::ClearMessage],
            None => seq![],
        };
        assert(asks =~= asked + before.language.cancel_effects() + tail);
    } else if !released && key == Key::Escape && session.accepting {
    } else if !released {
        let forward = key == Key::Down || key == Key::Ctrl('n') || key == Key::Tab;
        let back = key == Key::Up || key == Key::Ctrl('p') || key == Key::BackTab;
        if forward || back {
            law_keys_step_through_the_suggestions(before, key, after, asked, asks, redraw);
        }
    }
}

/// A list of suggestions is shown as the server sent it, with nothing selected
/// that was not before, and nothing is inserted unless it was accepted already.
pub proof fn law_suggestions_are_shown_as_sent(
    before: App,
    result: Completions,
    after: App,
    asked: Seq<Effect>,
    asks: Seq<Effect>,
)
    requires
        before.completion.active is Some,
        !before.completion.active->0.accepting,
        result.items@.len() > 0,
        completions_taken(before, result, after, asked, asks),
    ensures
        !inserts(asked, asks),
        after.completion.active matches Some(session) && {
            &&& session.loaded
            &&& session.items == result.items
            &&& session.incomplete == result.incomplete
            &&& session.limited == result.limited
            &&& session.document == before.completion.active->0.document
            &&& before.completion.active->0.selected is None ==> session.selected is None
        },
{
    let loaded = before.completions_loaded(result);
    assert(asks =~= asked + loaded.resolve_effects());
}

/// The rest of a suggestion takes the place of the suggestion that it was asked
/// for, and of no other. It is inserted where it was accepted, and only then.
pub proof fn law_the_rest_of_a_suggestion_takes_its_place(
    before: App,
    item: CompletionItem,
    after: App,
    asked: Seq<Effect>,
    asks: Seq<Effect>,
    index: usize,
)
    requires
        before.completion.active matches Some(session) && session.resolving == Some(index)
            && session.selected == Some(index) && index < session.items@.len(),
        resolution_taken(before, item, after, asked, asks),
    ensures
        !before.completion.active->0.accepting ==> asks == asked && {
            &&& after.completion.active matches Some(session) && session.items@
                == before.completion.active->0.items@.update(index as int, item)
                && session.selected == Some(index)
        },
        before.completion.active->0.accepting && item.resolved ==> {
            &&& after.completion.active is None
            &&& asks.len() > asked.len()
            &&& asks.last() == (Effect::ApplyCompletion {
                item: item.id,
                following: before.completion.active->0.following,
            })
        },
{
    let session = before.completion.active->0;
    let items = choose|items: Vec<CompletionItem>| #[trigger]
        items@ == session.items@.update(index as int, item) && {
            let app = before.completion_resolved(items);
            if session.accepting {
                &&& after == app.completion_finished()
                &&& asks == asked + app.finish_effects()
            } else {
                after == app && asks == asked
            }
        };
    assert(items@[index as int] == item);
    let app = before.completion_resolved(items);
    if session.accepting && item.resolved {
        assert(app.insertable());
        assert(asks =~= asked + app.finish_effects());
    }
}

/// Whether the server of the active document answers and offers completions that
/// these characters trigger.
pub open spec fn offers(app: App) -> bool {
    &&& app.language.enabled
    &&& app.language.status == Status::Ready
    &&& app.language.completion is Some
    &&& app.editor.server is Some
    &&& app.editor.bytes <= crate::language::MAX_DOCUMENT_BYTES
    &&& app.language.document matches Some(document) && document.snapshot.document
        == app.editor.document && app.editor.language == Some(document.language)
        && app.editor.file == Some(document.file)
}

/// Whether a key was just typed into the document in insert mode.
pub open spec fn typed_now(app: App, typing: Typing) -> bool {
    &&& app.editor.mode == Mode::Insert
    &&& app.prompt is None
    &&& !app.error
    &&& app.editor.selections@.ranges.len() == 1
    &&& typing.revision != app.editor.revision
}

/// Typing asks for completions by itself: a character that the server reacts to
/// at once, and a letter, digit or underscore after the delay, once enough of
/// them stand before the cursor. It does so for the present place only, and not
/// at all where automatic completion is off.
pub proof fn law_typing_asks_for_completions(
    app: App,
    c: char,
    before: Seq<char>,
    now: Time,
    revision: Revision,
    length: nat,
)
    requires
        offers(app),
        length == app.completion.config.min_length,
        app.completion.scheduled is None,
        now + app.completion.config.delay * 1_000_000 <= u64::MAX,
    ensures
        ({
            let typing = Typing { key: Key::Char(c), revision, refresh: None };
            let after = app.completion_scheduled(typing, before, now);
            let reacts = app.language.completion->0.trigger_characters@.contains(c);
            let word = c == '_' || crate::text::alphanumeric(c);
            let enough = before.len() >= length && forall|i: int|
                before.len() - length <= i < before.len() ==> #[trigger] before[i] == '_'
                    || crate::text::alphanumeric(before[i]);
            let behind = before.len() > 0
                && app.language.completion->0.trigger_characters@.contains(before.last());
            if !app.completion.config.enabled || !typed_now(app, typing) {
                after == app
            } else if reacts {
                after.completion.scheduled matches Some(request) && {
                    &&& request.trigger == CompletionTrigger::Character(c)
                    &&& request.due == now
                    &&& request.automatic
                    &&& request.document == app.editor.document
                    &&& request.revision == app.editor.revision
                }
            } else if word && (enough || behind) {
                after.completion.scheduled matches Some(request) && {
                    &&& request.trigger == CompletionTrigger::Invoked
                    &&& request.due == now + app.completion.config.delay * 1_000_000
                    &&& request.automatic
                    &&& request.document == app.editor.document
                    &&& request.revision == app.editor.revision
                }
            } else {
                after == app
            }
        }),
{
    let typing = Typing { key: Key::Char(c), revision, refresh: None };
    let enough = before.len() >= length && forall|i: int|
        before.len() - length <= i < before.len() ==> #[trigger] before[i] == '_'
            || crate::text::alphanumeric(before[i]);
    assert(enough == crate::completion::follows_identifier(before, length)) by {
        if crate::completion::follows_identifier(before, length) {
            assert forall|i: int| before.len() - length <= i < before.len() implies #[trigger] before[i]
                == '_' || crate::text::alphanumeric(before[i]) by {
                assert(crate::completion::is_identifier(before[i]));
            }
        }
    }
}

/// Deleting asks for completions again while a menu is open that nothing is
/// selected in, and for the rest of an unfinished list; without a menu it asks
/// for nothing.
pub proof fn law_deleting_asks_only_behind_a_menu(
    app: App,
    refresh: Option<Refresh>,
    before: Seq<char>,
    now: Time,
    revision: Revision,
)
    requires
        app.completion.scheduled is None,
        now + app.completion.config.delay * 1_000_000 <= u64::MAX,
    ensures
        ({
            let typing = Typing { key: Key::Backspace, revision, refresh };
            let after = app.completion_scheduled(typing, before, now);
            &&& refresh is None ==> after == app
            &&& typed_now(app, typing) && (refresh matches Some(open) && !open.automatic) ==> {
                after.completion.scheduled matches Some(request) && {
                    &&& !request.automatic
                    &&& request.due == now
                    &&& request.trigger == if refresh->0.incomplete {
                        CompletionTrigger::Incomplete
                    } else {
                        CompletionTrigger::Invoked
                    }
                }
            }
        }),
{
}

} // verus!
