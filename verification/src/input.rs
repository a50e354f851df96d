//! Keys at the prompt and in the document.

use crate::app::{ActivePrompt, App, PromptInput, PromptKind, Viewport};
use crate::editor::{Context, SearchStatus};
use crate::effect::{ClipboardKind, Effect};
use crate::error::Error;
use crate::event::Key;
use crate::prompt::{of_register, recordable, stepped, trimmed};
use vstd::prelude::*;

verus! {

/// What the prompt's line made of a key, as far as registers go.
#[derive(Debug)]
pub enum RegisterKey {
    /// Nothing; the key means something else.
    Other,
    /// It began, or gave up, the insertion of a register; `pending` says
    /// whether a name is awaited now.
    Prefix { pending: bool },
    /// A clipboard is to be inserted.
    Clipboard(ClipboardKind),
    /// A register was inserted, or held nothing to insert.
    Inserted { any: bool },
    /// The register could not be read.
    Unreadable(Error),
}

/// What a key at the prompt leaves to do.
#[derive(Debug)]
pub enum PromptStep {
    /// Nothing.
    Done,
    /// Go to the next or the previous suggestion.
    Cycle { back: bool },
    /// Look for suggestions in the directory that was chosen.
    Descend,
    /// Give up the search, which began at this view.
    CancelSearch { viewport: Viewport },
    /// Run the command line.
    Execute { text: String },
    /// Accept the search, which began at this view.
    AcceptSearch { prompt: ActivePrompt, empty: bool },
    /// Ask for a rename.
    Rename { context: Context, name: String },
    /// Let the prompt's line take the key.
    Edit,
}

impl PromptKind {
    /// Where the view was before the search of a prompt.
    pub open spec fn origin(self) -> Option<Viewport> {
        match self {
            PromptKind::Search { operation, viewport } => Some(viewport),
            _ => None,
        }
    }

    /// Whether earlier texts may be recalled at a prompt: a new name is never
    /// taken from what was typed elsewhere.
    pub open spec fn recalls(self) -> bool {
        !(self is Rename)
    }

    fn remembers(self) -> (yes: bool)
        ensures
            yes == self.recalls(),
    {
        match self {
            PromptKind::Rename { .. } => false,
            _ => true,
        }
    }
}

impl App {
    /// The application that searches for the text of a prompt: the view goes
    /// back to where the search began.
    pub open spec fn previewed(self, prompt: ActivePrompt) -> App {
        match prompt.kind.origin() {
            Some(viewport) => App { viewport, ..self },
            None => self,
        }
    }

    /// What searching for the text of a prompt asks for.
    pub open spec fn preview_asks(prompt: ActivePrompt) -> Seq<Effect> {
        if prompt.kind.origin() is Some {
            seq![Effect::PreviewSearch(prompt.input.text)]
        } else {
            seq![]
        }
    }

    /// Searches for the text of the prompt, where it is a search.
    fn preview_search(&mut self, kind: PromptKind, text: String, out: &mut Vec<Effect>)
        ensures
            *final(self) == match kind.origin() {
                Some(viewport) => App { viewport, ..*old(self) },
                None => *old(self),
            },
            final(out)@ == old(out)@ + if kind.origin() is Some {
                seq![Effect::PreviewSearch(text)]
            } else {
                seq![]
            },
    {
        match kind {
            PromptKind::Search { operation, viewport } => {
                self.viewport = viewport;
                out.push(Effect::PreviewSearch(text));
            },
            _ => {},
        }
        assert(out@ =~= old(out)@ + if kind.origin() is Some {
            seq![Effect::PreviewSearch(text)]
        } else {
            seq![]
        });
    }

    fn preview_prompt(&mut self, out: &mut Vec<Effect>)
        requires
            old(self).prompt is Some,
        ensures
            *final(self) == old(self).previewed(old(self).prompt->0),
            final(out)@ == old(out)@ + App::preview_asks(old(self).prompt->0),
    {
        let (kind, text) = match &self.prompt {
            Some(prompt) => (prompt.kind, prompt.input.text.clone()),
            None => (PromptKind::Command, String::new()),
        };
        self.preview_search(kind, text, out);
    }

    /// Says how the search for the text of the prompt went.
    pub fn search_previewed(&mut self, outcome: Result<(), Error>)
        ensures
            preview_ended(*old(self), outcome, *final(self)),
    {
        match outcome {
            Err(error) => {
                self.fail(error);
            },
            Ok(()) => match self.editor.search_status {
                Some(SearchStatus::NoMatch) => {
                    self.fail(Error::NoMatches);
                },
                _ => {},
            },
        }
    }

    /// Opens a prompt for the search that the editor asks for, and closes one
    /// that it no longer does.
    pub fn open_search_prompt(&mut self, out: &mut Vec<Effect>)
        ensures
            search_prompt_opened(*old(self), *final(self), old(out)@, final(out)@),
    {
        let searching = match &self.prompt {
            Some(prompt) => match prompt.kind {
                PromptKind::Search { .. } => true,
                _ => false,
            },
            None => false,
        };
        if self.editor.search_prompt.is_none() && searching {
            self.prompt = None;
        }
        if self.prompt.is_none() {
            match self.editor.search_prompt {
                Some(operation) => {
                    out.push(Effect::CancelKeys);
                    self.prompt = Some(
                        ActivePrompt {
                            input: PromptInput { text: String::new(), register_pending: false },
                            kind: PromptKind::Search { operation, viewport: self.viewport },
                            register: match self.editor.search_register {
                                Some(register) => register,
                                None => '/',
                            },
                            history_position: None,
                        },
                    );
                },
                None => {},
            }
        }
    }

    /// Takes a key at the prompt. `register` is what its line made of the key,
    /// and `directory` says whether a suggested directory is chosen. What is
    /// left to do is returned; `prompt_edited`, `search_cancelled` and
    /// `search_accepted` then end the matter.
    pub fn handle_prompt_key(
        &mut self,
        key: Key,
        register: RegisterKey,
        directory: bool,
        out: &mut Vec<Effect>,
    ) -> (step: PromptStep)
        requires
            old(self).prompt is Some,
            old(self).prompt_history.valid(),
        ensures
            prompt_key_taken(
                *old(self),
                key,
                register,
                directory,
                *final(self),
                old(out)@,
                final(out)@,
                step,
            ),
            final(self).prompt_history.valid(),
    {
        let kind = match &self.prompt {
            Some(prompt) => prompt.kind,
            None => PromptKind::Command,
        };
        assert(out@ =~= old(out)@ + Seq::<Effect>::empty());
        match register {
            RegisterKey::Other => {},
            RegisterKey::Prefix { pending } => {
                if pending {
                    out.push(Effect::CacheRegisterHints);
                }
                return PromptStep::Done;
            },
            RegisterKey::Clipboard(which) => {
                out.push(Effect::PromptClipboard(which));
                return PromptStep::Done;
            },
            RegisterKey::Inserted { any } => {
                if any {
                    self.preview_prompt(out);
                }
                return PromptStep::Done;
            },
            RegisterKey::Unreadable(error) => {
                self.fail(error);
                return PromptStep::Done;
            },
        }
        if kind == PromptKind::Command {
            match key {
                Key::Tab => {
                    return PromptStep::Cycle { back: false };
                },
                Key::BackTab => {
                    return PromptStep::Cycle { back: true };
                },
                Key::Enter => {
                    if directory {
                        return PromptStep::Descend;
                    }
                },
                _ => {},
            }
        }
        match key {
            Key::Escape | Key::Ctrl('c') => {
                self.prompt = None;
                out.push(Effect::CancelKeys);
                match kind {
                    PromptKind::Search { operation, viewport } => PromptStep::CancelSearch {
                        viewport,
                    },
                    _ => PromptStep::Done,
                }
            },
            Key::Enter => self.submit_prompt(out),
            Key::Up | Key::Ctrl('p') => {
                self.step_history(true, out);
                PromptStep::Done
            },
            Key::Down | Key::Ctrl('n') => {
                self.step_history(false, out);
                PromptStep::Done
            },
            _ => PromptStep::Edit,
        }
    }

    fn step_history(&mut self, backwards: bool, out: &mut Vec<Effect>)
        requires
            old(self).prompt is Some,
        ensures
            history_stepped(*old(self), backwards, *final(self), old(out)@, final(out)@),
            final(self).prompt_history == old(self).prompt_history,
    {
        assert(out@ =~= old(out)@ + Seq::<Effect>::empty());
        let found = match &mut self.prompt {
            Some(prompt) => {
                if !prompt.kind.remembers() {
                    return;
                }
                let found = self.prompt_history.step(
                    prompt.register,
                    &mut prompt.history_position,
                    backwards,
                );
                match found {
                    Some(text) => {
                        prompt.input = PromptInput { text, register_pending: false };
                        true
                    },
                    None => false,
                }
            },
            None => false,
        };
        if found {
            self.preview_prompt(out);
        }
    }

    fn submit_prompt(&mut self, out: &mut Vec<Effect>) -> (step: PromptStep)
        requires
            old(self).prompt is Some,
            old(self).prompt_history.valid(),
        ensures
            prompt_submitted(*old(self), *final(self), old(out)@, final(out)@, step),
            final(self).prompt_history.valid(),
    {
        assert(out@ =~= old(out)@ + Seq::<Effect>::empty());
        let mut prompt = match self.prompt.take() {
            Some(prompt) => prompt,
            None => {
                return PromptStep::Done;
            },
        };
        let mut recalled = false;
        if prompt.kind.remembers() && prompt.input.text.as_str().is_empty() {
            match self.prompt_history.last(prompt.register) {
                Some(text) => {
                    recalled = true;
                    prompt.input.text = text;
                    self.preview_search(prompt.kind, prompt.input.text.clone(), out);
                },
                None => {},
            }
        }
        match prompt.kind {
            PromptKind::Command => PromptStep::Execute { text: prompt.input.text },
            PromptKind::Rename { context } => PromptStep::Rename {
                context,
                name: prompt.input.text,
            },
            PromptKind::Search { operation, viewport } => {
                self.prompt_history.push(prompt.register, prompt.input.text.as_str());
                let empty = match self.editor.search_status {
                    Some(SearchStatus::Empty) => !recalled,
                    _ => false,
                };
                PromptStep::AcceptSearch { prompt, empty }
            },
        }
    }

    /// Ends a key that the prompt's line took: `changed` says whether its text
    /// is another, and `error` what is wrong with the search.
    pub fn prompt_edited(&mut self, changed: bool, error: Option<Error>, out: &mut Vec<Effect>)
        requires
            old(self).prompt is Some,
        ensures
            prompt_followed(*old(self), changed, error, *final(self), old(out)@, final(out)@),
    {
        let kind = match &self.prompt {
            Some(prompt) => prompt.kind,
            None => PromptKind::Command,
        };
        if changed {
            self.preview_prompt(out);
            return;
        }
        let searching = match kind {
            PromptKind::Search { .. } => true,
            _ => false,
        };
        let unmatched = match self.editor.search_status {
            Some(SearchStatus::NoMatch) => true,
            _ => false,
        };
        if searching && unmatched {
            self.fail(Error::NoMatches);
        } else {
            match error {
                Some(error) => {
                    self.fail(error);
                },
                None => {},
            }
        }
    }

    /// Ends a search that was given up: the view goes back to where it began.
    pub fn search_cancelled(&mut self, viewport: Viewport, outcome: Result<(), Error>)
        ensures
            search_given_up(*old(self), viewport, outcome, *final(self)),
    {
        match outcome {
            Ok(()) => {
                self.viewport = viewport;
            },
            Err(error) => {
                self.fail(error);
            },
        }
    }

    /// Ends a search that was accepted: the prompt stays while the search runs,
    /// or while the editor asks for another text.
    pub fn search_accepted(&mut self, prompt: ActivePrompt, empty: bool, outcome: Result<(), Error>)
        requires
            prompt.kind.origin() is Some,
        ensures
            search_ended(*old(self), prompt, empty, outcome, *final(self)),
    {
        match outcome {
            Ok(()) => {
                match prompt.kind {
                    PromptKind::Search { operation, viewport } => {
                        if empty {
                            self.viewport = viewport;
                        }
                    },
                    _ => {},
                }
                if self.editor.search_pending {
                    self.prompt = Some(prompt);
                }
            },
            Err(error) => {
                self.fail(error);
                if self.editor.search_prompt.is_some() {
                    self.prompt = Some(prompt);
                }
            },
        }
    }
}

/// Whether the prompt for a search was opened or closed as it should be.
pub open spec fn search_prompt_opened(
    before: App,
    after: App,
    asked: Seq<Effect>,
    asks: Seq<Effect>,
) -> bool {
    let searching = before.prompt matches Some(prompt) && prompt.kind.origin() is Some;
    match before.editor.search_prompt {
        None => {
            &&& asks == asked
            &&& after == if searching { App { prompt: None, ..before } } else { before }
        },
        Some(operation) => if before.prompt is Some {
            after == before && asks == asked
        } else {
            &&& asks == asked.push(Effect::CancelKeys)
            &&& after == (App { prompt: after.prompt, ..before })
            &&& after.prompt matches Some(prompt) && {
                &&& prompt.input.text@.len() == 0
                &&& !prompt.input.register_pending
                &&& prompt.kind == (PromptKind::Search { operation, viewport: before.viewport })
                &&& prompt.register == match before.editor.search_register {
                    Some(register) => register,
                    None => '/',
                }
                &&& prompt.history_position is None
            }
        },
    }
}

/// Whether a step through the history of the prompt did what it should.
pub open spec fn history_stepped(
    before: App,
    backwards: bool,
    after: App,
    asked: Seq<Effect>,
    asks: Seq<Effect>,
) -> bool {
    let prompt = before.prompt->0;
    let texts = of_register(before.prompt_history@, prompt.register);
    let at = stepped(texts.len(), prompt.history_position, backwards);
    if texts.len() == 0 || !prompt.kind.recalls() {
        after == before && asks == asked
    } else {
        let moved = ActivePrompt { history_position: Some(at as usize), ..prompt };
        if at < texts.len() {
            &&& after.prompt matches Some(now) && now == (ActivePrompt { input: now.input, ..moved })
                && now.input.text@ == texts[at] && !now.input.register_pending
            &&& after == (App { prompt: after.prompt, ..before.previewed(prompt) })
            &&& asks == asked + App::preview_asks(after.prompt->0)
        } else {
            after == (App { prompt: Some(moved), ..before }) && asks == asked
        }
    }
}

/// Whether the prompt was submitted as it should be: an empty text stands for
/// the last one of its history, a search is recorded there, and the prompt
/// closes.
pub open spec fn prompt_submitted(
    before: App,
    after: App,
    asked: Seq<Effect>,
    asks: Seq<Effect>,
    step: PromptStep,
) -> bool {
    let prompt = before.prompt->0;
    let texts = of_register(before.prompt_history@, prompt.register);
    let recalled = prompt.kind.recalls() && prompt.input.text@.len() == 0 && texts.len() > 0;
    let text = if recalled { texts.last() } else { prompt.input.text@ };
    let app = if recalled { before.previewed(prompt) } else { before };
    &&& after == (App { prompt: None, prompt_history: after.prompt_history, ..app })
    &&& match (prompt.kind, step) {
        (PromptKind::Command, PromptStep::Execute { text: line }) => {
            &&& line@ == text
            &&& after.prompt_history == before.prompt_history
            &&& asks == asked
        },
        (PromptKind::Rename { context }, PromptStep::Rename { context: place, name }) => {
            &&& place == context
            &&& name@ == text
            &&& after.prompt_history == before.prompt_history
            &&& asks == asked
        },
        (PromptKind::Search { .. }, PromptStep::AcceptSearch { prompt: kept, empty }) => {
            &&& kept == (ActivePrompt { input: kept.input, ..prompt })
            &&& kept.input == (PromptInput { text: kept.input.text, ..prompt.input })
            &&& kept.input.text@ == text
            &&& asks == asked + if recalled { App::preview_asks(kept) } else { seq![] }
            &&& empty == (!recalled && before.editor.search_status == Some(SearchStatus::Empty))
            &&& after.prompt_history@ == if recordable(
                before.prompt_history@,
                prompt.register,
                text,
            ) {
                trimmed(before.prompt_history@.push((prompt.register, text)))
            } else {
                before.prompt_history@
            }
        },
        _ => false,
    }
}

/// Whether a key at the prompt did what it should.
pub open spec fn prompt_key_taken(
    before: App,
    key: Key,
    register: RegisterKey,
    directory: bool,
    after: App,
    asked: Seq<Effect>,
    asks: Seq<Effect>,
    step: PromptStep,
) -> bool {
    let prompt = before.prompt->0;
    let command = prompt.kind == PromptKind::Command;
    match register {
        RegisterKey::Prefix { pending } => {
            &&& step is Done
            &&& after == before
            &&& asks == if pending { asked.push(Effect::CacheRegisterHints) } else { asked }
        },
        RegisterKey::Clipboard(which) => {
            &&& step is Done
            &&& after == before
            &&& asks == asked.push(Effect::PromptClipboard(which))
        },
        RegisterKey::Inserted { any } => {
            &&& step is Done
            &&& after == if any { before.previewed(prompt) } else { before }
            &&& asks == asked + if any { App::preview_asks(prompt) } else { seq![] }
        },
        RegisterKey::Unreadable(error) => {
            step is Done && after == before.failed(error) && asks == asked
        },
        RegisterKey::Other => if command && key == Key::Tab {
            step == (PromptStep::Cycle { back: false }) && after == before && asks == asked
        } else if command && key == Key::BackTab {
            step == (PromptStep::Cycle { back: true }) && after == before && asks == asked
        } else if command && key == Key::Enter && directory {
            step is Descend && after == before && asks == asked
        } else {
            match key {
                Key::Escape | Key::Ctrl('c') => {
                    &&& after == (App { prompt: None, ..before })
                    &&& asks == asked.push(Effect::CancelKeys)
                    &&& match prompt.kind.origin() {
                        Some(viewport) => step == (PromptStep::CancelSearch { viewport }),
                        None => step is Done,
                    }
                },
                Key::Enter => prompt_submitted(before, after, asked, asks, step),
                Key::Up | Key::Ctrl('p') => step is Done && history_stepped(
                    before,
                    true,
                    after,
                    asked,
                    asks,
                ),
                Key::Down | Key::Ctrl('n') => step is Done && history_stepped(
                    before,
                    false,
                    after,
                    asked,
                    asks,
                ),
                _ => step is Edit && after == before && asks == asked,
            }
        },
    }
}

/// A new name is never taken from what was typed at another prompt, nor kept
/// for one.
pub proof fn law_renames_never_borrow_history(
    before: App,
    key: Key,
    register: RegisterKey,
    directory: bool,
    after: App,
    asked: Seq<Effect>,
    asks: Seq<Effect>,
    step: PromptStep,
)
    requires
        before.prompt is Some,
        before.prompt->0.kind is Rename,
        prompt_key_taken(before, key, register, directory, after, asked, asks, step),
    ensures
        after.prompt_history == before.prompt_history,
        after.prompt is Some ==> after.prompt == before.prompt,
        step matches PromptStep::Rename { context, name } ==> name@ == before.prompt->0.input.text@,
{
}

/// Whatever is typed at a prompt, a command line runs only when it is
/// submitted with Enter.
pub proof fn law_only_enter_runs_a_command(
    before: App,
    key: Key,
    register: RegisterKey,
    directory: bool,
    after: App,
    asked: Seq<Effect>,
    asks: Seq<Effect>,
    step: PromptStep,
)
    requires
        before.prompt is Some,
        prompt_key_taken(before, key, register, directory, after, asked, asks, step),
        step is Execute,
    ensures
        key == Key::Enter,
        before.prompt->0.kind == PromptKind::Command,
{
}

/// Whether an accepted search was ended as it should be.
pub open spec fn search_ended(
    before: App,
    prompt: ActivePrompt,
    empty: bool,
    outcome: Result<(), Error>,
    now: App,
) -> bool {
    now == match outcome {
        Ok(()) => {
            let app = if empty {
                App { viewport: prompt.kind.origin()->0, ..before }
            } else {
                before
            };
            if before.editor.search_pending {
                App { prompt: Some(prompt), ..app }
            } else {
                app
            }
        },
        Err(error) => {
            let app = before.failed(error);
            if before.editor.search_prompt is Some {
                App { prompt: Some(prompt), ..app }
            } else {
                app
            }
        },
    }
}

/// Whether an edit of the prompt was followed as it should be.
pub open spec fn prompt_followed(
    before: App,
    changed: bool,
    error: Option<Error>,
    now: App,
    asked: Seq<Effect>,
    asks: Seq<Effect>,
) -> bool {
    let prompt = before.prompt->0;
    let searching = prompt.kind.origin() is Some;
    if changed {
        &&& now == before.previewed(prompt)
        &&& asks == asked + App::preview_asks(prompt)
    } else {
        &&& asks == asked
        &&& now == if searching && before.editor.search_status == Some(
            SearchStatus::NoMatch,
        ) {
            before.failed(Error::NoMatches)
        } else {
            match error {
                Some(error) => before.failed(error),
                None => before,
            }
        }
    }
}

/// Whether a search that was given up was ended as it should be.
pub open spec fn search_given_up(
    before: App,
    viewport: Viewport,
    outcome: Result<(), Error>,
    now: App,
) -> bool {
    now == match outcome {
        Ok(()) => App { viewport, ..before },
        Err(error) => before.failed(error),
    }
}

/// Whether the search for the text of a prompt was ended as it should be.
pub open spec fn preview_ended(before: App, outcome: Result<(), Error>, now: App) -> bool {
    now == match outcome {
        Err(error) => before.failed(error),
        Ok(()) => if before.editor.search_status == Some(SearchStatus::NoMatch) {
            before.failed(Error::NoMatches)
        } else {
            before
        },
    }
}

} // verus!
