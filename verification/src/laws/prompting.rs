//! Prompts and the document by their keys.

use crate::app::{App, PromptKind};
use crate::document::document_event_taken;
use crate::editor::Mode;
use crate::effect::Effect;
use crate::event::{Event, Key};
use crate::input::{prompt_key_taken, search_prompt_opened, PromptStep, RegisterKey};
use crate::laws::completing::press;
use crate::prompt::{law_recorded_text_is_newest, of_register};
use vstd::prelude::*;

verus! {

/// Up and Ctrl-p go to older texts of the prompt's own register and Down and
/// Ctrl-n to newer ones, one at a time; at the ends they stay. From a new prompt
/// Up leads to the newest text. What stands in the prompt is then that text.
pub proof fn law_history_keys_go_through_the_texts(
    before: App,
    key: Key,
    directory: bool,
    after: App,
    asked: Seq<Effect>,
    asks: Seq<Effect>,
    step: PromptStep,
    texts: Seq<Seq<char>>,
)
    requires
        before.prompt matches Some(prompt) && !(prompt.kind is Rename) && texts == of_register(
            before.prompt_history@,
            prompt.register,
        ) && (prompt.history_position matches Some(at) ==> at < texts.len()),
        texts.len() > 0,
        texts.len() <= usize::MAX,
        prompt_key_taken(before, key, RegisterKey::Other, directory, after, asked, asks, step),
        key == Key::Up || key == Key::Ctrl('p') || key == Key::Down || key == Key::Ctrl('n'),
    ensures
        step is Done,
        after.prompt_history == before.prompt_history,
        after.prompt matches Some(prompt) && (prompt.history_position matches Some(now) && {
            let back = key == Key::Up || key == Key::Ctrl('p');
            &&& now < texts.len()
            &&& prompt.input.text@ == texts[now as int]
            &&& prompt.kind == before.prompt->0.kind
            &&& prompt.register == before.prompt->0.register
            &&& match before.prompt->0.history_position {
                None => back ==> now == texts.len() - 1,
                Some(at) => if back {
                    now == if at > 0 { at - 1 } else { 0 }
                } else {
                    now == if at + 1 < texts.len() { at + 1 } else { at as int }
                },
            }
        }),
{
}

/// What was searched for last is what Up brings back at the next prompt of the
/// same register.
pub proof fn law_up_brings_back_the_last_search(
    first: App,
    directory: bool,
    accepted: App,
    later: App,
    key: Key,
    after: App,
    asked: Seq<Effect>,
    done: Seq<Effect>,
    asks: Seq<Effect>,
    submitted: PromptStep,
    step: PromptStep,
)
    requires
        first.prompt matches Some(prompt) && prompt.kind is Search && prompt.input.text@.len() > 0
            && crate::text::byte_length(prompt.input.text@) <= 65_536,
        prompt_key_taken(
            first,
            Key::Enter,
            RegisterKey::Other,
            directory,
            accepted,
            asked,
            done,
            submitted,
        ),
        later.prompt_history@ == accepted.prompt_history@,
        later.prompt matches Some(prompt) && prompt.register == first.prompt->0.register
            && prompt.history_position is None && !(prompt.kind is Rename),
        key == Key::Up || key == Key::Ctrl('p'),
        prompt_key_taken(later, key, RegisterKey::Other, directory, after, done, asks, step),
    ensures
        submitted is AcceptSearch,
        accepted.prompt is None,
        after.prompt matches Some(prompt) && prompt.input.text@ == first.prompt->0.input.text@,
{
    let prompt = first.prompt->0;
    let entries = first.prompt_history@;
    if crate::prompt::recordable(entries, prompt.register, prompt.input.text@) {
        law_recorded_text_is_newest(entries, prompt.register, prompt.input.text@);
    }
}

/// Enter runs the command line as it was typed and closes the prompt; Escape and
/// Ctrl-c close it and run nothing, and a search then goes back to where it
/// began. Tab and Shift-Tab go through the suggestions of a command line, forward
/// and back. Other keys edit the line.
pub proof fn law_prompt_keys_do_what_they_name(
    before: App,
    key: Key,
    after: App,
    asked: Seq<Effect>,
    asks: Seq<Effect>,
    step: PromptStep,
)
    requires
        before.prompt is Some,
        prompt_key_taken(before, key, RegisterKey::Other, false, after, asked, asks, step),
    ensures
        after.editor == before.editor,
        key == Key::Enter ==> after.prompt is None && match before.prompt->0.kind {
            PromptKind::Command => step is Execute && (before.prompt->0.input.text@.len() > 0
                ==> step->Execute_text@ == before.prompt->0.input.text@),
            PromptKind::Rename { context } => step is Rename && step->name@
                == before.prompt->0.input.text@ && step->context == context,
            PromptKind::Search { .. } => step is AcceptSearch && (
            before.prompt->0.input.text@.len() > 0 ==> step->prompt.input.text@
                == before.prompt->0.input.text@),
        },
        key == Key::Escape || key == Key::Ctrl('c') ==> after.prompt is None
            && after.prompt_history == before.prompt_history && match before.prompt->0.kind {
            PromptKind::Search { operation, viewport } => step == (PromptStep::CancelSearch {
                viewport,
            }),
            _ => step is Done,
        },
        before.prompt->0.kind == PromptKind::Command && key == Key::Tab ==> step == (
        PromptStep::Cycle { back: false }) && after == before,
        before.prompt->0.kind == PromptKind::Command && key == Key::BackTab ==> step == (
        PromptStep::Cycle { back: true }) && after == before,
        key is Char || key == Key::Left || key == Key::Right || key == Key::Backspace ==> step
            is Edit && after == before && asks == asked,
{
}

/// A search begins with an empty prompt that remembers where the view was, and the
/// prompt closes when the editor no longer searches. Any other prompt is left
/// alone.
pub proof fn law_searches_have_their_prompt(
    before: App,
    after: App,
    asked: Seq<Effect>,
    asks: Seq<Effect>,
)
    requires
        search_prompt_opened(before, after, asked, asks),
    ensures
        before.editor.search_prompt matches Some(operation) ==> before.prompt is None ==> {
            &&& after.prompt matches Some(prompt) && prompt.input.text@.len() == 0 && prompt.kind
                == (PromptKind::Search { operation, viewport: before.viewport })
        },
        before.editor.search_prompt is None ==> !(after.prompt matches Some(prompt) && prompt.kind
            is Search),
        before.prompt matches Some(prompt) ==> !(prompt.kind is Search) ==> after.prompt
            == before.prompt,
        after.viewport == before.viewport,
{
}

/// Whether some of the effects behind the first give a key to the keymap.
pub open spec fn typed(asked: Seq<Effect>, asks: Seq<Effect>) -> bool {
    exists|i: int| asked.len() <= i < asks.len() && #[trigger] asks[i] is HandleKey
}

/// A key that nothing waits for goes to the prompt where one is open, and
/// otherwise to the keymap, as the same key and once. A colon outside insert mode
/// opens the command line instead.
pub proof fn law_keys_reach_the_prompt_or_the_keymap(
    before: App,
    key: Key,
    room: bool,
    after: App,
    asked: Seq<Effect>,
    asks: Seq<Effect>,
    redraw: bool,
)
    requires
        before.clipboard.pending is None,
        !before.editor.repeat_pending,
        !before.editor.search_waiting,
        before.language.pending is None,
        before.language.command is None,
        before.actions.request is None,
        !before.editor.keys_pending,
        document_event_taken(before, press(key), room, after, asked, asks, redraw),
    ensures
        redraw,
        after.editor == before.editor,
        before.prompt is Some ==> after.prompt == before.prompt && !typed(asked, asks) && asks
            == asked.push(Effect::PromptKey(key)).push(Effect::OpenSearchPrompt).push(
            Effect::ApplyAction,
        ),
        before.prompt is None && key == Key::Char(':') && before.editor.mode != Mode::Insert ==> {
            &&& !typed(asked, asks)
            &&& after.prompt matches Some(prompt) && prompt.kind == PromptKind::Command
                && prompt.input.text@.len() == 0 && prompt.register == ':'
        },
        before.prompt is None && (key != Key::Char(':') || before.editor.mode == Mode::Insert) ==> {
            &&& after.prompt is None
            &&& asks == asked.push(Effect::HandleKey(key)).push(Effect::OpenSearchPrompt).push(
                Effect::ApplyAction,
            )
        },
{
    assert(!before.dismissed().transfer_waits());
    let sofar = asked + before.language.cancel_effects();
    assert(sofar =~= asked);
    let app = before.dismissed();
    if before.prompt is Some {
        assert(asks =~= asked.push(Effect::PromptKey(key)).push(Effect::OpenSearchPrompt).push(
            Effect::ApplyAction,
        ));
    } else if key == Key::Char(':') && before.editor.mode != Mode::Insert {
        assert(asks =~= asked.push(Effect::CancelKeys).push(Effect::OpenSearchPrompt).push(
            Effect::ApplyAction,
        ));
    } else {
        assert(asks =~= asked.push(Effect::HandleKey(key)).push(Effect::OpenSearchPrompt).push(
            Effect::ApplyAction,
        ));
    }
}

/// Escape and Ctrl-c give up what keys wait for, a clipboard transfer before a
/// repeated command, and do not reach the keymap then.
pub proof fn law_waiting_is_given_up(
    before: App,
    key: Key,
    room: bool,
    after: App,
    asked: Seq<Effect>,
    asks: Seq<Effect>,
    redraw: bool,
)
    requires
        key == Key::Escape || key == Key::Ctrl('c'),
        before.prompt is None,
        document_event_taken(before, press(key), room, after, asked, asks, redraw),
    ensures
        before.transfer_waits() ==> after.clipboard.pending is None && !typed(asked, asks),
        before.clipboard.pending is None && before.editor.repeat_pending ==> !typed(asked, asks)
            && exists|i: int| asked.len() <= i < asks.len() && #[trigger] asks[i] is CancelRepeat,
        before.clipboard.pending is None && !before.editor.repeat_pending && key == Key::Ctrl('c')
            && before.editor.search_waiting ==> !typed(asked, asks),
        before.transfer_waits() <==> (before.clipboard.pending matches Some(pending)
            && pending.document == before.editor.document && pending.revision
            == before.editor.revision && pending.view == before.editor.view && before.editor.mode
            == Mode::Normal && pending.selections@ == before.editor.selections@),
{
    let app = before.dismissed();
    let sofar = asked + before.language.cancel_effects();
    let waited = before.language_waits();
    let effects = app.document_key_effects(key, waited);
    assert(asks =~= (sofar + effects).push(Effect::OpenSearchPrompt).push(Effect::ApplyAction));
    assert(app.transfer_waits() == before.transfer_waits());
    if before.clipboard.pending is None && before.editor.repeat_pending {
        let at = sofar.len() as int;
        assert(effects == seq![Effect::CancelRepeat, Effect::CancelKeys]);
        assert(asks[at] == effects[0]);
    }
}

/// Pasted text goes into the prompt where one is open, into the document in insert
/// mode, and nowhere else, where it is refused. It is the text itself, once.
pub proof fn law_pasted_text_goes_where_text_is_typed(
    before: App,
    text: String,
    room: bool,
    after: App,
    asked: Seq<Effect>,
    asks: Seq<Effect>,
    redraw: bool,
)
    requires
        document_event_taken(before, Event::Paste(text), room, after, asked, asks, redraw),
    ensures
        redraw,
        asks.len() > 0,
        before.prompt is Some ==> asks.last() == Effect::PromptInsert(text),
        before.prompt is None && before.editor.mode == Mode::Insert ==> asks.last()
            == Effect::Paste(text),
        before.prompt is None && before.editor.mode != Mode::Insert ==> after.error && forall|
            i: int,
        |
            asked.len() <= i < asks.len() ==> !(#[trigger] asks[i] is Paste) && !(asks[i]
                is PromptInsert),
        after.editor == before.editor,
{
}

/// A resized terminal is remembered at its new size, and nothing else of the
/// session changes but the preview of a picker.
pub proof fn law_resizing_is_remembered(
    before: App,
    width: u16,
    height: u16,
    room: bool,
    after: App,
    asked: Seq<Effect>,
    asks: Seq<Effect>,
    redraw: bool,
)
    requires
        document_event_taken(before, Event::Resize(width, height), room, after, asked, asks, redraw),
    ensures
        redraw,
        after.size == (width, height),
        after.editor == before.editor,
        after.windows == before.windows,
        after.prompt == before.prompt,
        after.completion == before.completion,
{
    reveal(App::preview_requested);
}

} // verus!
