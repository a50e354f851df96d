//! Rename prompt and the capture retained from preparation through edit delivery.

use crate::app::{ActivePrompt, App, PromptInput, PromptKind};
use crate::editor::{Context, Scope};
use crate::error::Error;
use crate::language::RequestKind;
use crate::text::{byte_length, bytes_in, chars_of, control_code};
use vstd::prelude::*;

verus! {

#[derive(Debug)]
pub struct State {
    pub context: Option<Context>,
    pub request: Option<RequestKind>,
}

impl State {
    /// Nothing is being renamed.
    pub open spec fn idle() -> State {
        State { context: None, request: None }
    }

    pub fn clear(&mut self)
        ensures
            *final(self) == State::idle(),
    {
        self.context = None;
        self.request = None;
    }
}

/// A longer name is refused.
pub const MAX_NAME_BYTES: usize = 4096;

/// Whether a name can be asked for: it is not too long and on one line.
pub open spec fn acceptable(name: Seq<char>) -> bool {
    &&& byte_length(name) <= MAX_NAME_BYTES
    &&& forall|i: int| 0 <= i < name.len() ==> !control_code(#[trigger] name[i])
}

fn accepts(name: &str) -> (yes: bool)
    ensures
        yes == acceptable(name@),
{
    if bytes_in(name) > MAX_NAME_BYTES {
        return false;
    }
    let chars = chars_of(name);
    let mut i: usize = 0;
    while i < chars.len()
        invariant
            i <= chars.len(),
            chars@ == name@,
            forall|j: int| 0 <= j < i ==> !control_code(#[trigger] name@[j]),
        decreases chars.len() - i,
    {
        if chars[i].is_control() {
            assert(control_code(name@[i as int]));
            return false;
        }
        i += 1;
    }
    true
}

impl App {
    /// The place that a rename starts from.
    pub open spec fn rename_place(self) -> Context {
        Context { scope: Scope::Workspace, stamp: self.editor.workspace_stamp }
    }

    /// Begins a rename of what stands at the primary selection.
    pub fn prepare_rename_request(&mut self) -> (request: RequestKind)
        requires
            old(self).editor.valid(),
        ensures
            request == (RequestKind::PrepareRename {
                selection: old(self).editor.spec_primary(),
                context: old(self).rename_place(),
            }),
            *final(self) == (App {
                rename: State { context: Some(old(self).rename_place()), ..old(self).rename },
                ..*old(self)
            }),
    {
        let context = self.editor.workspace_context();
        self.rename.context = Some(context);
        RequestKind::PrepareRename { selection: self.editor.primary(), context }
    }

    /// Whether a rename waits to be asked for from a place that still holds.
    pub open spec fn rename_holds(self) -> bool {
        self.rename.context matches Some(context) && context.holds(self.editor)
    }

    /// The application after the request to rename was taken.
    pub open spec fn rename_taken(self) -> App {
        if self.rename.request is None {
            self
        } else if self.rename_holds() {
            App { rename: State { request: None, ..self.rename }, ..self }
        } else {
            App { rename: State::idle(), ..self }.failed(Error::RenameOriginChanged)
        }
    }

    /// The request to rename, where its place still holds.
    pub open spec fn rename_request(self) -> Option<RequestKind> {
        if self.rename_holds() { self.rename.request } else { None }
    }

    /// Takes the request to rename; one from a place that the editor has left
    /// fails.
    pub fn take_rename_request(&mut self) -> (request: Option<RequestKind>)
        ensures
            request == old(self).rename_request(),
            *final(self) == old(self).rename_taken(),
    {
        let request = match self.rename.request.take() {
            Some(request) => request,
            None => {
                return None;
            },
        };
        let holds = match &self.rename.context {
            Some(context) => context.current(&self.editor),
            None => false,
        };
        if !holds {
            self.rename.clear();
            self.fail(Error::RenameOriginChanged);
            return None;
        }
        Some(request)
    }

    /// The application with a prompt for a new name, with the old one in it,
    /// where the rename was not given up and its place still holds.
    pub open spec fn rename_prompted(self, name: String) -> App {
        let app = App { rename: State { context: None, ..self.rename }, ..self };
        match self.rename.context {
            Some(context) => if context.holds(self.editor) {
                App {
                    prompt: Some(
                        ActivePrompt {
                            input: PromptInput { text: name, register_pending: false },
                            kind: PromptKind::Rename { context },
                            register: ':',
                            history_position: None,
                        },
                    ),
                    ..app
                }.cleared()
            } else {
                app
            },
            None => self,
        }
    }

    /// Opens the prompt for a new name, with the old one in it.
    pub fn receive_rename_preparation(&mut self, name: String)
        ensures
            *final(self) == old(self).rename_prompted(name),
    {
        let context = match self.rename.context.take() {
            Some(context) => context,
            None => {
                return;
            },
        };
        if !context.current(&self.editor) {
            return;
        }
        self.prompt = Some(
            ActivePrompt {
                input: PromptInput { text: name, register_pending: false },
                kind: PromptKind::Rename { context },
                register: ':',
                history_position: None,
            },
        );
        self.clear_message();
    }

    /// Asks for a rename, once the new name was typed. An empty name gives up.
    pub fn submit_rename(&mut self, context: Context, name: &String)
        ensures
            rename_submitted(*old(self), context, *name, *final(self)),
    {
        if name.as_str().is_empty() {
            self.clear_message();
            return;
        }
        if !context.current(&self.editor) {
            self.fail(Error::RenameOriginChanged);
            return;
        }
        if !accepts(name.as_str()) {
            self.fail(Error::RenameName);
            return;
        }
        self.rename.request = Some(RequestKind::Rename { name: name.clone(), context });
        self.rename.context = Some(context);
    }

    /// The place to apply the edits of a rename at, unless it was given up.
    pub fn receive_rename_edit(&mut self) -> (context: Option<Context>)
        ensures
            context == old(self).rename.context,
            *final(self) == (App {
                rename: State { context: None, ..old(self).rename },
                ..*old(self)
            }),
    {
        self.rename.context.take()
    }
}

/// A rename whose place has changed is never asked for.
pub proof fn law_a_moved_rename_is_refused(app: App)
    requires
        app.rename.request is Some,
        app.rename.context matches Some(context) && !context.holds(app.editor),
    ensures
        app.rename_request() is None,
        app.rename_taken().rename == State::idle(),
        app.rename_taken().error,
{
}

/// Whether a new name was asked for as it should be.
pub open spec fn rename_submitted(before: App, context: Context, name: String, now: App) -> bool {
    now == if name@.len() == 0 {
        before.cleared()
    } else if !context.holds(before.editor) {
        before.failed(Error::RenameOriginChanged)
    } else if !acceptable(name@) {
        before.failed(Error::RenameName)
    } else {
        App {
            rename: State {
                request: Some(RequestKind::Rename { name, context }),
                context: Some(context),
            },
            ..before
        }
    }
}

} // verus!
