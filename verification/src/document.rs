//! Events that reach the document.

use crate::app::{ActivePrompt, App, PromptInput, PromptKind};
use crate::editor::Mode;
use crate::effect::Effect;
use crate::error::Error;
use crate::event::{Event, Key, KeyPress};
use crate::windows::Screen;
use vstd::prelude::*;

verus! {

/// What a key that no prompt takes means to the document.
#[derive(Clone, Copy, Debug, PartialEq, Eq, Structural)]
pub enum DocumentChoice {
    /// Give up the clipboard transfer.
    StopTransfer,
    /// Give up the repeated command.
    StopRepeat,
    /// Give up the running search.
    StopSearch,
    /// Nothing more than giving up what the keys waited for.
    StopWaiting,
    /// Open the command line.
    Command,
    /// Give it to the keymap.
    Keymap,
}

/// An empty command line.
pub open spec fn is_command_line(prompt: Option<ActivePrompt>) -> bool {
    prompt matches Some(prompt) && {
        &&& prompt.input.text@.len() == 0
        &&& !prompt.input.register_pending
        &&& prompt.kind == PromptKind::Command
        &&& prompt.register == ':'
        &&& prompt.history_position is None
    }
}

impl ActivePrompt {
    pub fn command() -> (prompt: ActivePrompt)
        ensures
            is_command_line(Some(prompt)),
    {
        ActivePrompt {
            input: PromptInput { text: String::new(), register_pending: false },
            kind: PromptKind::Command,
            register: ':',
            history_position: None,
        }
    }

    /// What stands before the text of the prompt. `label` is that of its search
    /// operation.
    pub fn prefix(&self, label: String) -> (prefix: String)
        ensures
            prefix@ == match self.kind {
                PromptKind::Command => ":"@,
                PromptKind::Search { .. } => label@,
                PromptKind::Rename { .. } => "rename-to:"@,
            },
    {
        match self.kind {
            PromptKind::Command => ":".to_owned(),
            PromptKind::Search { .. } => label,
            PromptKind::Rename { .. } => "rename-to:".to_owned(),
        }
    }
}

impl App {
    /// What a key means to the document. `waited` says whether keys waited for
    /// the language services.
    pub open spec fn document_choice(self, key: Key, waited: bool) -> DocumentChoice {
        let leaves = key == Key::Escape || key == Key::Ctrl('c');
        if leaves && self.transfer_waits() {
            DocumentChoice::StopTransfer
        } else if leaves && self.editor.repeat_pending {
            DocumentChoice::StopRepeat
        } else if key == Key::Ctrl('c') && self.editor.search_waiting {
            DocumentChoice::StopSearch
        } else if key == Key::Ctrl('c') && waited {
            DocumentChoice::StopWaiting
        } else if key == Key::Char(':') && self.editor.mode != Mode::Insert
            && !self.editor.keys_pending {
            DocumentChoice::Command
        } else {
            DocumentChoice::Keymap
        }
    }

    fn choose_document(&self, key: Key, waited: bool) -> (choice: DocumentChoice)
        ensures
            choice == self.document_choice(key, waited),
    {
        let leaves = key == Key::Escape || key == Key::Ctrl('c');
        if leaves && self.clipboard_waiting() {
            DocumentChoice::StopTransfer
        } else if leaves && self.editor.repeat_pending {
            DocumentChoice::StopRepeat
        } else if key == Key::Ctrl('c') && self.editor.search_waiting {
            DocumentChoice::StopSearch
        } else if key == Key::Ctrl('c') && waited {
            DocumentChoice::StopWaiting
        } else if key == Key::Char(':') && self.editor.mode != Mode::Insert
            && !self.editor.keys_pending {
            DocumentChoice::Command
        } else {
            DocumentChoice::Keymap
        }
    }

    /// What a key asks for that reaches the document, but for the search prompt
    /// and the action that it may lead to.
    pub open spec fn document_key_effects(self, key: Key, waited: bool) -> Seq<Effect> {
        if self.prompt is Some {
            seq![Effect::PromptKey(key)]
        } else {
            match self.document_choice(key, waited) {
                DocumentChoice::StopTransfer => self.clipboard.cancel_effects().push(
                    Effect::CancelKeys,
                ),
                DocumentChoice::StopRepeat => seq![Effect::CancelRepeat, Effect::CancelKeys],
                DocumentChoice::StopSearch => seq![Effect::FinishUndoGroup, Effect::CancelKeys],
                DocumentChoice::StopWaiting | DocumentChoice::Command => seq![Effect::CancelKeys],
                DocumentChoice::Keymap => seq![Effect::HandleKey(key)],
            }
        }
    }

    /// Gives an event to the document, or to the prompt. `room` says whether
    /// the screen leaves room for a preview. Returns whether to redraw.
    pub fn handle_document_input(&mut self, event: Event, room: bool, out: &mut Vec<Effect>) -> (
        redraw: bool)
        requires
            old(self).screen().valid(),
            old(self).picker.active is Some ==> old(self).picker.active->0.preview_request
                < u64::MAX,
        ensures
            document_event_taken(
                *old(self),
                event,
                room,
                *final(self),
                old(out)@,
                final(out)@,
                redraw,
            ),
            old(self).sound() ==> final(self).sound(),
    {
        assert(out@ =~= old(out)@ + Seq::<Effect>::empty());
        match event {
            Event::Resize(width, height) => {
                self.size = (width, height);
                proof {
                    if old(self).sound() {
                        lemma_preview_is_sound(*self, self.screen(), room);
                    }
                }
                self.request_picker_preview(room, out);
                true
            },
            Event::FocusGained => true,
            Event::FocusLost => {
                self.dismiss_language_help(out);
                false
            },
            Event::Mouse(_) => false,
            Event::Paste(text) => {
                self.dismiss_language_help(out);
                self.clear_message();
                out.push(Effect::CancelKeys);
                if self.prompt.is_some() {
                    out.push(Effect::PromptInsert(text));
                } else if self.editor.mode == Mode::Insert {
                    out.push(Effect::Paste(text));
                } else {
                    self.fail(Error::PasteOutsideInsert);
                }
                true
            },
            Event::Key(press) => {
                if press.released {
                    return false;
                }
                let waited = self.language_waiting();
                self.dismiss_language_help(out);
                self.press(press, waited, out)
            },
        }
    }

    /// Takes a pressed key.
    fn press(&mut self, press: KeyPress, waited: bool, out: &mut Vec<Effect>) -> (redraw: bool)
        ensures
            press_taken(*old(self), press, waited, *final(self), old(out)@, final(out)@, redraw),
    {
        let key = match press.key {
            Some(key) => key,
            None => {
                return false;
            },
        };
        self.clear_message();
        if self.prompt.is_some() {
            out.push(Effect::PromptKey(key));
        } else {
            match self.choose_document(key, waited) {
                DocumentChoice::StopTransfer => {
                    self.cancel_clipboard(out);
                    out.push(Effect::CancelKeys);
                },
                DocumentChoice::StopRepeat => {
                    out.push(Effect::CancelRepeat);
                    out.push(Effect::CancelKeys);
                },
                DocumentChoice::StopSearch => {
                    out.push(Effect::FinishUndoGroup);
                    out.push(Effect::CancelKeys);
                },
                DocumentChoice::StopWaiting => {
                    out.push(Effect::CancelKeys);
                },
                DocumentChoice::Command => {
                    out.push(Effect::CancelKeys);
                    self.prompt = Some(ActivePrompt::command());
                },
                DocumentChoice::Keymap => {
                    out.push(Effect::HandleKey(key));
                },
            }
        }
        assert(out@ =~= old(out)@ + old(self).document_key_effects(key, waited));
        out.push(Effect::OpenSearchPrompt);
        out.push(Effect::ApplyAction);
        true
    }
}

/// Asking for a preview changes the picker alone.
pub proof fn lemma_preview_is_sound(app: App, screen: Screen, room: bool)
    requires
        app.sound(),
    ensures
        app.preview_requested(screen, room).sound(),
{
    reveal(App::preview_requested);
}

/// Whether a pressed key did what it should.
pub open spec fn press_taken(
    before: App,
    press: KeyPress,
    waited: bool,
    after: App,
    asked: Seq<Effect>,
    asks: Seq<Effect>,
    redraw: bool,
) -> bool {
    let app = before.cleared();
    match press.key {
        None => !redraw && after == before && asks == asked,
        Some(key) => {
            let choice = before.document_choice(key, waited);
            &&& redraw
            &&& asks == (asked + before.document_key_effects(key, waited)).push(
                Effect::OpenSearchPrompt,
            ).push(Effect::ApplyAction)
            &&& if before.prompt is Some {
                after == app
            } else if choice == DocumentChoice::StopTransfer {
                after == app.clipboard_cancelled()
            } else if choice == DocumentChoice::Command {
                after == (App { prompt: after.prompt, ..app }) && is_command_line(after.prompt)
            } else {
                after == app
            }
        },
    }
}

/// Whether an event did what it should to the document.
pub open spec fn document_event_taken(
    before: App,
    event: Event,
    room: bool,
    after: App,
    asked: Seq<Effect>,
    asks: Seq<Effect>,
    redraw: bool,
) -> bool {
    let app = before.dismissed();
    let sofar = asked + before.language.cancel_effects();
    match event {
        Event::Resize(width, height) => {
            let sized = App { size: (width, height), ..before };
            &&& redraw
            &&& after == sized.preview_requested(sized.screen(), room)
            &&& asks == asked + sized.preview_effects(room)
        },
        Event::FocusGained => redraw && after == before && asks == asked,
        Event::FocusLost => !redraw && after == app && asks == sofar,
        Event::Mouse(_) => !redraw && after == before && asks == asked,
        Event::Paste(text) => {
            &&& redraw
            &&& if before.prompt is Some {
                &&& after == app.cleared()
                &&& asks == sofar.push(Effect::CancelKeys).push(Effect::PromptInsert(text))
            } else if before.editor.mode == Mode::Insert {
                &&& after == app.cleared()
                &&& asks == sofar.push(Effect::CancelKeys).push(Effect::Paste(text))
            } else {
                &&& after == app.failed(Error::PasteOutsideInsert)
                &&& asks == sofar.push(Effect::CancelKeys)
            }
        },
        Event::Key(press) => if press.released {
            !redraw && after == before && asks == asked
        } else {
            press_taken(app, press, before.language_waits(), after, sofar, asks, redraw)
        },
    }
}

/// Pasted text never runs a command: outside insert mode and the prompt it is
/// refused, and nowhere does it reach the keymap.
pub proof fn law_pasted_text_is_never_typed(
    before: App,
    text: String,
    room: bool,
    after: App,
    asked: Seq<Effect>,
    asks: Seq<Effect>,
    redraw: bool,
)
    requires
        document_event_taken(before, Event::Paste(text), room, after, asked, asks, redraw),
    ensures
        forall|i: int|
            asked.len() <= i < asks.len() ==> !(#[trigger] asks[i] is HandleKey)
                && !(asks[i] is PromptKey),
        before.prompt is None && before.editor.mode != Mode::Insert ==> after.error && forall|i: int|
            asked.len() <= i < asks.len() ==> !(#[trigger] asks[i] is Paste),
{
}

/// Ctrl-c that gives up a request never edits the document.
pub proof fn law_giving_up_a_request_edits_nothing(
    before: App,
    press: KeyPress,
    after: App,
    asked: Seq<Effect>,
    asks: Seq<Effect>,
    redraw: bool,
)
    requires
        press_taken(before, press, true, after, asked, asks, redraw),
        press.key == Some(Key::Ctrl('c')),
        before.prompt is None,
    ensures
        forall|i: int| asked.len() <= i < asks.len() ==> !(#[trigger] asks[i] is HandleKey),
{
}

/// A colon opens the command line wherever it is not text.
pub proof fn law_a_colon_is_text_only_in_insert_mode(app: App)
    requires
        !app.editor.keys_pending,
    ensures
        (app.document_choice(Key::Char(':'), false) == DocumentChoice::Command) == (app.editor.mode
            != Mode::Insert),
{
}

} // verus!
