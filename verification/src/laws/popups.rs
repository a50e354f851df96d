//! Popups by their keys: signatures, code actions and hover texts, and what the
//! answers of the server lead to.

use crate::actions::action_event_taken;
use crate::answers::{event_taken, Answer, Next, ServerEvent};
use crate::app::App;
use crate::editor::{Mode, Time};
use crate::effect::Effect;
use crate::event::Key;
use crate::language::{CompletionOptions, Diagnostic, RequestKind, Status};
use crate::laws::completing::press;
use crate::selection::Revision;
use crate::server::hover_event_taken;
use crate::signature::signature_event_taken;
use vstd::prelude::*;

verus! {

/// While signatures are drawn, Alt-n turns to the next one and Alt-p to the one
/// before, around the ends; PageDown and Ctrl-d scroll down, PageUp and Ctrl-u
/// scroll up. Nothing else changes.
pub proof fn law_keys_turn_the_signatures(
    before: App,
    key: Key,
    requested: bool,
    menu: bool,
    after: App,
    asked: Seq<Effect>,
    asks: Seq<Effect>,
    handled: (Option<bool>, Option<bool>),
)
    requires
        before.signature.active matches Some(session) && session.visible && session.count > 1
            && session.selected < session.count,
        signature_event_taken(before, press(key), requested, menu, after, asked, asks, handled),
    ensures
        ({
            let old = before.signature.active->0;
            let new = after.signature.active->0;
            &&& key == Key::Alt('n') ==> {
                &&& handled == (Some(true), None::<bool>)
                &&& after.signature.active is Some
                &&& new.selected == if old.selected + 1 < old.count { old.selected + 1 } else { 0 }
                &&& new.count == old.count
            }
            &&& key == Key::Alt('p') ==> {
                &&& handled == (Some(true), None::<bool>)
                &&& after.signature.active is Some
                &&& new.selected == if old.selected > 0 { old.selected - 1 } else { old.count - 1 }
                &&& new.count == old.count
            }
            &&& key == Key::PageDown || key == Key::Ctrl('d') ==> handled == (
                Some(true),
                Some(true),
            ) && after == before
            &&& key == Key::PageUp || key == Key::Ctrl('u') ==> handled == (
                Some(true),
                Some(false),
            ) && after == before
            &&& key is Char || key == Key::Enter || key == Key::Up || key == Key::Down ==> handled
                == (None::<bool>, None::<bool>) && after == before && asks == asked
        }),
{
}

/// Escape and Ctrl-c end signature help: nothing is offered or asked for any more.
/// Escape still leaves insert mode, and a drawn signature keeps Ctrl-c to itself.
pub proof fn law_signatures_are_dismissed(
    before: App,
    key: Key,
    requested: bool,
    menu: bool,
    after: App,
    asked: Seq<Effect>,
    asks: Seq<Effect>,
    handled: (Option<bool>, Option<bool>),
)
    requires
        before.signature.engaged,
        key == Key::Escape || key == Key::Ctrl('c'),
        signature_event_taken(before, press(key), requested, menu, after, asked, asks, handled),
    ensures
        after.signature.active is None,
        after.signature.due is None,
        !after.signature.engaged,
        after.editor == before.editor,
        key == Key::Escape ==> handled.0 is None,
        key == Key::Ctrl('c') && (before.signature.active matches Some(session)
            && session.visible) ==> handled.0 == Some(true),
        requested ==> after.language.pending is None,
{
}

/// Signature help is asked for when insert mode is entered, when one of the
/// server's triggers is typed, and after every change while it is engaged: once
/// the delay is over, and never outside insert mode or behind something else that
/// has the keys.
pub proof fn law_typing_asks_for_signatures(
    app: App,
    now: Time,
    inserted: bool,
    before: Seq<char>,
    triggers: Option<Seq<String>>,
    git: bool,
)
    requires
        now + 120_000_000 <= u64::MAX,
        app.signature.due is None,
    ensures
        ({
            let after = app.signature_observed(now, inserted, before, triggers, git);
            let free = triggers is Some && app.prompt is None && app.picker.active is None && !git
                && !app.editor.repeat_pending;
            let here = app.observed_now();
            &&& here.document == app.editor.document && here.revision == app.editor.revision
                && here.mode == app.editor.mode && here.window == app.windows.layout.active
            &&& after.due is Some ==> free && app.editor.mode == Mode::Insert && after.due == Some(
                (now + 120_000_000) as u64,
            ) && after.engaged
            &&& free && app.editor.mode == Mode::Insert && app.signature.observed is None
                ==> after.due is Some
            &&& free && app.editor.mode == Mode::Insert && (app.signature.observed matches Some(old)
                && old.mode != Mode::Insert) ==> after.due is Some
            &&& free && app.editor.mode == Mode::Insert && app.signature.engaged && (
            app.signature.observed matches Some(old) && old.revision != app.editor.revision)
                ==> after.due is Some
            &&& free && app.editor.mode == Mode::Insert && inserted && (
            app.signature.observed matches Some(old) && old.revision != app.editor.revision)
                && (exists|i: int|
                0 <= i < triggers->0.len() && before.len() >= (#[trigger] triggers->0[i])@.len()
                    && before.skip(before.len() - triggers->0[i]@.len()) == triggers->0[i]@)
                ==> after.due is Some
            &&& !free || app.editor.mode != Mode::Insert && app.signature.observed != Some(here)
                ==> after.active is None && !after.engaged
        }),
{
    if triggers is Some {
        if exists|i: int|
            0 <= i < triggers->0.len() && before.len() >= (#[trigger] triggers->0[i])@.len()
                && before.skip(before.len() - triggers->0[i]@.len()) == triggers->0[i]@ {
            let i = choose|i: int|
                0 <= i < triggers->0.len() && before.len() >= (#[trigger] triggers->0[i])@.len()
                    && before.skip(before.len() - triggers->0[i]@.len()) == triggers->0[i]@;
            assert(crate::text::has_suffix(before, triggers->0[i]@));
            assert(crate::signature::triggered(before, triggers->0));
        }
    }
}

/// Whether a menu of code actions is open at the present place.
pub open spec fn actions_open(app: App) -> bool {
    &&& app.actions.menu matches Some(menu) && menu.selected < menu.items@.len()
    &&& app.actions.context matches Some(context) && context.holds(app.editor)
    &&& app.actions.language == app.editor.language
}

/// In a menu of code actions Down, Ctrl-n and Tab select the next row and Up,
/// Ctrl-p and Shift-Tab the one before, around the ends. The page keys move by
/// half of the rows that are drawn, to the same side.
pub proof fn law_keys_step_through_the_actions(
    before: App,
    key: Key,
    after: App,
    asked: Seq<Effect>,
    asks: Seq<Effect>,
    redraw: Option<bool>,
)
    requires
        actions_open(before),
        action_event_taken(before, press(key), after, asked, asks, redraw),
    ensures
        ({
            let old = before.actions.menu->0;
            let new = after.actions.menu->0;
            let len = old.items@.len();
            let down = key == Key::Down || key == Key::Ctrl('n') || key == Key::Tab;
            let up = key == Key::Up || key == Key::Ctrl('p') || key == Key::BackTab;
            let far = key == Key::PageDown || key == Key::Ctrl('d');
            let back = key == Key::PageUp || key == Key::Ctrl('u');
            let half = if old.visible >= 2 { (old.visible / 2) as int } else { 1 };
            &&& down || up || far || back ==> redraw == Some(true) && after.actions.menu is Some
                && new.items == old.items && asks == asked && new.selected < len
            &&& down ==> new.selected == if old.selected + 1 < len { old.selected + 1 } else { 0 }
            &&& up ==> new.selected == if old.selected > 0 {
                old.selected - 1
            } else {
                len - 1
            }
            &&& far && old.selected + half < len ==> new.selected == old.selected + half
            &&& back && old.selected >= half ==> new.selected == old.selected - half
        }),
{
    let old = before.actions.menu->0;
    let len = old.items@.len();
    let half = if old.visible >= 2 { (old.visible / 2) as int } else { 1 };
    assert(asked + Seq::<Effect>::empty() =~= asked);
    assert(old.items.len() <= usize::MAX);
    if len == 1 {
        assert(1int % 1int == 0);
    } else {
        vstd::arithmetic::div_mod::lemma_small_mod(1, len);
    }
    vstd::arithmetic::div_mod::lemma_mod_bound(half, len as int);
    if half < len {
        vstd::arithmetic::div_mod::lemma_small_mod(half as nat, len);
    }
}

/// Enter asks for the selected action to be carried out, at the place that the
/// menu was opened for; Escape and Ctrl-c close the menu and ask for nothing; any
/// other key closes it and goes on to the document.
pub proof fn law_the_selected_action_is_carried_out(
    before: App,
    key: Key,
    after: App,
    asked: Seq<Effect>,
    asks: Seq<Effect>,
    redraw: Option<bool>,
)
    requires
        actions_open(before),
        before.actions.request is None,
        action_event_taken(before, press(key), after, asked, asks, redraw),
    ensures
        key == Key::Enter ==> {
            let menu = before.actions.menu->0;
            &&& redraw == Some(true)
            &&& after.actions.menu is None
            &&& after.actions.request == Some(
                RequestKind::ApplyCodeAction {
                    action: menu.items@[menu.selected as int].id,
                    context: before.actions.context->0,
                },
            )
        },
        key != Key::Enter ==> after.actions.request is None,
        key == Key::Escape || key == Key::Ctrl('c') ==> redraw == Some(true) && after.actions.menu
            is None,
        key is Char || key == Key::Left || key == Key::Right || key == Key::Backspace ==> redraw
            is None && after.actions.menu is None,
        after.editor == before.editor,
{
}

/// The hover text scrolls down with PageDown and Ctrl-d and up with PageUp and
/// Ctrl-u, closes with Escape and Ctrl-c, and leaves every other key alone.
pub proof fn law_keys_scroll_the_hover_text(
    before: App,
    key: Key,
    after: App,
    asked: Seq<Effect>,
    asks: Seq<Effect>,
    redraw: Option<bool>,
)
    requires
        before.language.popup is Some,
        hover_event_taken(before, press(key), after, asked, asks, redraw),
    ensures
        key == Key::PageDown || key == Key::Ctrl('d') ==> redraw == Some(true) && after == before
            && asks == asked.push(Effect::ScrollHover { down: true }),
        key == Key::PageUp || key == Key::Ctrl('u') ==> redraw == Some(true) && after == before
            && asks == asked.push(Effect::ScrollHover { down: false }),
        key == Key::Escape || key == Key::Ctrl('c') ==> redraw == Some(true)
            && after.language.popup is None && after.editor == before.editor,
        key is Char || key == Key::Enter || key == Key::Up || key == Key::Down || key is Alt
            ==> redraw is None && after == before && asks == asked,
{
}

/// Whether an answer is awaited at the present place.
pub open spec fn awaited(app: App, id: u64) -> bool {
    &&& app.language.pending matches Some(pending) && {
        &&& pending.id == id
        &&& pending.document == app.editor.document
        &&& pending.selections@ == app.editor.selections@
        &&& pending.mode == app.editor.mode
        &&& pending.window == app.windows.layout.active
    }
    &&& app.language.document matches Some(document) && document.snapshot.document
        == app.editor.document && app.editor.language == Some(document.language)
}

/// An awaited answer is used for what it is: a hover text is shown, a highlighted
/// word is selected, formatting and renames are applied at the place they were
/// asked for, code actions are offered, a prepared action is applied or its
/// command run, and the name to be changed stands in the prompt. Nothing is
/// awaited any more.
pub proof fn law_answers_are_used_for_what_they_are(
    before: App,
    id: u64,
    answer: Answer,
    now: Time,
    after: App,
    asked: Seq<Effect>,
    asks: Seq<Effect>,
    handled: (bool, Next),
)
    requires
        awaited(before, id),
        event_taken(
            before,
            ServerEvent::Answer {
                epoch: before.language.epoch,
                revision: before.editor.revision,
                id,
                cancelled: false,
                result: Ok(answer),
            },
            now,
            after,
            asked,
            asks,
            handled,
        ),
    ensures
        handled.0,
        answer matches Answer::Hover(text) ==> handled.1 == Next::Nothing && asks == asked && (
        text@.len() > 0 ==> after.language.popup == Some(text)) && after.language.pending is None,
        answer matches Answer::Highlights(found) ==> {
            &&& found <==> handled.1 == Next::Highlights
            &&& after.language.pending is None
            &&& after.editor == before.editor
        },
        answer matches Answer::Formatted { unchanged } ==> (before.formatting.context matches Some(
            place,
        ) ==> place.holds(before.editor) ==> if unchanged {
            handled.1 == Next::Nothing
        } else {
            handled.1 == Next::Edit(place)
        }),
        answer is Formatted && before.formatting.context is None ==> handled.1 == Next::Nothing,
        answer matches Answer::Formatted { unchanged } ==> (before.formatting.context matches Some(
            place,
        ) ==> !place.holds(before.editor) ==> handled.1 == Next::Nothing && after.error),
        answer is WorkspaceEdit ==> (before.rename.context matches Some(place) ==> handled.1
            == Next::Edit(place)),
        answer matches Answer::CodeActions { items, limited } ==> before.actions.context is Some
            && before.actions.context->0.holds(before.editor) && before.actions.language
            == before.editor.language ==> if items@.len() == 0 {
            after.actions.menu is None
        } else {
            after.actions.menu matches Some(menu) && menu.items == items && menu.selected == 0
                && menu.limited == limited
        },
        answer matches Answer::CodeActionReady { edit, command } ==> before.actions.context is Some
            && before.actions.context->0.holds(before.editor) && before.actions.language
            == before.editor.language ==> {
            &&& edit ==> handled.1 == Next::Edit(before.actions.context->0)
            &&& !edit ==> match command {
                Some(command) => handled.1 == Next::Command(command),
                None => handled.1 == Next::Nothing && after.error,
            }
        },
        answer matches Answer::RenamePrepared(name) ==> (before.rename.context matches Some(place)
            ==> place.holds(before.editor) ==> {
            &&& after.prompt matches Some(prompt) && prompt.input.text == name && (
            prompt.kind matches crate::app::PromptKind::Rename { context } && context == place)
        }),
{
}

/// What the server says of itself is kept: it is ready, or starting, or has
/// failed and then offers nothing more. What it offers for completion is kept as
/// it is, and another server's words change nothing.
pub proof fn law_the_server_is_taken_at_its_word(
    before: App,
    epoch: u64,
    message: String,
    failed: bool,
    completion: Option<CompletionOptions>,
    now: Time,
    told: App,
    offered: App,
    asked: Seq<Effect>,
    asks: (Seq<Effect>, Seq<Effect>),
    handled: ((bool, Next), (bool, Next)),
)
    requires
        event_taken(
            before,
            ServerEvent::Progress { epoch, message, failed },
            now,
            told,
            asked,
            asks.0,
            handled.0,
        ),
        event_taken(
            before,
            ServerEvent::Capabilities { epoch, completion },
            now,
            offered,
            asked,
            asks.1,
            handled.1,
        ),
    ensures
        epoch != before.language.epoch ==> told == before && offered == before,
        epoch == before.language.epoch && before.language.document is Some ==> {
            let ready = message@.len() >= 5 && message@.skip(message@.len() - 5) == "ready"@;
            &&& offered.language.completion == completion
            &&& offered.editor == before.editor
            &&& !failed && ready ==> told.language.status == Status::Ready
            &&& !failed && !ready ==> told.language.status == Status::Starting
        },
{
    reveal_strlit("ready");
}

/// The problems of the present text replace the ones before, all of them and in
/// the order of the text; problems of another text are dropped.
pub proof fn law_problems_are_those_of_the_text(
    before: App,
    epoch: u64,
    revision: Revision,
    diagnostics: Vec<Diagnostic>,
    now: Time,
    after: App,
    asked: Seq<Effect>,
    asks: Seq<Effect>,
    handled: (bool, Next),
)
    requires
        event_taken(
            before,
            ServerEvent::Diagnostics { epoch, revision, diagnostics },
            now,
            after,
            asked,
            asks,
            handled,
        ),
    ensures
        revision != before.editor.revision || epoch != before.language.epoch ==> after == before,
        handled.0 ==> {
            let list = crate::diagnostics::problems(after.language);
            &&& after.language.diagnostic_revision == Some(
                (before.editor.document, before.editor.revision),
            )
            &&& forall|i: int, j: int|
                0 <= i < j < list.len() ==> (#[trigger] list[i]).start <= (#[trigger] list[j]).start
        },
{
    if handled.0 {
        let list = crate::diagnostics::problems(after.language);
        assert forall|i: int, j: int| 0 <= i < j < list.len() implies (#[trigger] list[i]).start <= (
        #[trigger] list[j]).start by {
            assert(!crate::diagnostics::precedes(
                crate::diagnostics::order(list[j]),
                crate::diagnostics::order(list[i]),
            ));
        }
    }
}

} // verus!
