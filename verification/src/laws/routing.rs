//! Events by who takes them.

use crate::app::App;
use crate::dispatch::{event_handled, Handled, Inputs};
use crate::effect::Effect;
use crate::event::{Event, Key};
use crate::laws::serving::is_still;
use crate::mouse::Pointed;
use vstd::prelude::*;

verus! {

/// Whether a key was pressed.
pub open spec fn is_press(event: Event, key: Key) -> bool {
    event matches Event::Key(press) && !press.released && press.key == Some(key)
}

/// Whether neither a transfer nor a location, a picker, a prompt, a repository or a
/// commit message is in front of the document.
pub open spec fn at_the_document(app: App) -> bool {
    &&& app.clipboard.pending is None
    &&& app.navigation.pending is None
    &&& app.picker.active is None
    &&& app.prompt is None
    &&& app.screen().git_view() is None
    &&& app.git_write.drafts@.len() == 0
}

/// Escape and Ctrl-c give up a location that keys wait for before anything else,
/// and do nothing more.
pub proof fn law_waiting_keys_can_be_freed(
    before: App,
    event: Event,
    inputs: Inputs,
    after: App,
    asked: Seq<Effect>,
    asks: Seq<Effect>,
    handled: Handled,
)
    requires
        event_handled(before, event, inputs, after, asked, asks, handled),
        before.clipboard.pending is None,
        before.picker.active is None,
        before.navigation.pending is Some,
        is_press(event, Key::Escape) || is_press(event, Key::Ctrl('c')),
    ensures
        handled == (Handled::Done { redraw: true }),
        after.navigation.pending is None,
        after.navigation.job is None,
        after.message is Empty,
        asks.len() > 0 && asks.last() is CancelKeys,
        after.editor == before.editor,
        after.prompt == before.prompt,
{
}

/// The pointer changes nothing but what it does to the pointer itself: what else is
/// to be done is handed on.
pub proof fn law_the_pointer_goes_its_own_way(
    before: App,
    event: Event,
    inputs: Inputs,
    after: App,
    asked: Seq<Effect>,
    asks: Seq<Effect>,
    handled: Handled,
)
    requires
        event_handled(before, event, inputs, after, asked, asks, handled),
        before.clipboard.pending is None,
        event is Mouse,
    ensures
        handled is Pointer,
        after == (App { mouse: after.mouse, ..before }),
        asks == asked,
        after.mouse.enabled == before.mouse.enabled,
        after.mouse.focused == before.mouse.focused,
        !before.mouse.enabled || !before.mouse.focused ==> handled == Handled::Pointer(
            Pointed::Nothing,
        ),
{
    assert(asked + Seq::<Effect>::empty() =~= asked);
}

/// An open menu of actions takes the keys before the hover text, the signature, the
/// suggestions and the document do: Enter, Escape and the arrows reach none of
/// them.
pub proof fn law_the_menu_of_actions_is_in_front(
    before: App,
    event: Event,
    inputs: Inputs,
    after: App,
    asked: Seq<Effect>,
    asks: Seq<Effect>,
    handled: Handled,
)
    requires
        event_handled(before, event, inputs, after, asked, asks, handled),
        at_the_document(before),
        before.actions.menu is Some,
        before.actions.context matches Some(place) && is_still(before, place),
        before.actions.language == before.editor.language,
        is_press(event, Key::Enter) || is_press(event, Key::Escape) || is_press(event, Key::Up)
            || is_press(event, Key::Down),
    ensures
        handled is Done,
        after.editor == before.editor,
        after.completion.config == before.completion.config,
        is_press(event, Key::Up) || is_press(event, Key::Down) ==> after.actions.menu is Some
            && after.language.popup == before.language.popup && after.completion
            == before.completion,
        is_press(event, Key::Escape) ==> after.actions.menu is None,
{
    lemma_no_draft(before);
}

/// The hover text takes the keys that scroll and close it before the signature, the
/// suggestions and the document do.
pub proof fn law_the_hover_text_is_next(
    before: App,
    event: Event,
    inputs: Inputs,
    after: App,
    asked: Seq<Effect>,
    asks: Seq<Effect>,
    handled: Handled,
)
    requires
        event_handled(before, event, inputs, after, asked, asks, handled),
        at_the_document(before),
        before.actions.menu is None,
        before.actions.request is None,
        before.language.popup is Some,
        is_press(event, Key::PageUp) || is_press(event, Key::PageDown) || is_press(
            event,
            Key::Escape,
        ),
    ensures
        handled == (Handled::Done { redraw: true }),
        is_press(event, Key::PageUp) ==> asks == asked.push(Effect::ScrollHover { down: false })
            && after.language.popup == before.language.popup,
        is_press(event, Key::PageDown) ==> asks == asked.push(Effect::ScrollHover { down: true })
            && after.language.popup == before.language.popup,
        is_press(event, Key::Escape) ==> after.language.popup is None && after.message is Empty,
        after.editor == before.editor,
{
    lemma_no_draft(before);
    assert(asked + Seq::<Effect>::empty() =~= asked);
}

proof fn lemma_no_draft(app: App)
    requires
        app.git_write.drafts@.len() == 0,
    ensures
        !crate::git_write::is_draft(app.git_write.drafts@, app.editor.document),
{
    let document = app.editor.document;
    crate::find::lemma_first_where(
        app.git_write.drafts@,
        |draft: crate::git_write::Draft| draft.document == document,
    );
}

} // verus!
