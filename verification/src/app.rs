//! Application state: everything between an event and what is done about it.

use crate::actions;
use crate::clipboard;
use crate::completion;
use crate::editor::{Context, Editor};
use crate::error::Error;
use crate::formatting;
use crate::git;
use crate::git_write;
use crate::jumps;
use crate::language;
use crate::message::Message;
use crate::mouse;
use crate::navigation;
use crate::picker;
use crate::prompt::History;
use crate::reload;
use crate::rename;
use crate::signature;
use crate::status;
use crate::windows;
use vstd::prelude::*;

verus! {

/// Which part of a document a pane shows.
#[derive(Clone, Copy, Debug, PartialEq, Eq, Structural)]
pub struct Viewport {
    pub top_line: usize,
    pub left_column: usize,
}

/// What an open prompt asks for.
#[derive(Clone, Copy, Debug, PartialEq, Eq, Structural)]
pub enum PromptKind {
    Command,
    /// A search operation, and where the view was before it.
    Search { operation: u64, viewport: Viewport },
    /// A new name for what stands at a place.
    Rename { context: Context },
}

/// The text typed at a prompt.
#[derive(Debug)]
pub struct PromptInput {
    pub text: String,
    /// Whether a register's name is awaited to be inserted.
    pub register_pending: bool,
}

/// The open prompt.
#[derive(Debug)]
pub struct ActivePrompt {
    pub input: PromptInput,
    pub kind: PromptKind,
    pub register: char,
    pub history_position: Option<usize>,
}

/// The application.
pub struct App {
    pub editor: Editor,
    pub viewport: Viewport,
    pub prompt: Option<ActivePrompt>,
    pub prompt_history: History,
    pub message: Message,
    pub error: bool,
    pub quit: bool,
    pub size: (u16, u16),
    pub automatic_language: bool,
    pub language: language::State,
    pub picker: picker::State,
    pub completion: completion::State,
    pub actions: actions::State,
    pub rename: rename::State,
    pub formatting: formatting::State,
    pub signature: signature::State,
    pub navigation: navigation::State,
    pub windows: windows::State,
    pub jumps: jumps::Histories,
    pub mouse: mouse::State,
    pub clipboard: clipboard::State,
    pub git: git::State,
    pub reload: reload::State,
    pub status: status::State,
    pub git_write: git_write::State,
}

impl App {
    pub fn size(&self) -> (size: (u16, u16))
        ensures
            size == self.size,
    {
        self.size
    }

    pub fn should_quit(&self) -> (quit: bool)
        ensures
            quit == self.quit,
    {
        self.quit
    }

    pub fn is_dirty(&self) -> (dirty: bool)
        ensures
            dirty == self.editor.dirty,
    {
        self.editor.dirty
    }

    /// The application with nothing on its command line.
    pub open spec fn cleared(self) -> App {
        App { message: Message::Empty, error: false, ..self }
    }

    /// The application that reports an error.
    pub open spec fn failed(self, error: Error) -> App {
        App { message: Message::Failed { error }, error: true, ..self }
    }

    /// The application that says something. Whether the last message was an
    /// error does not change.
    pub open spec fn says(self, message: Message) -> App {
        App { message, ..self }
    }

    pub fn clear_message(&mut self)
        ensures
            *final(self) == old(self).cleared(),
    {
        self.message = Message::Empty;
        self.error = false;
    }

    pub fn fail(&mut self, error: Error)
        ensures
            *final(self) == old(self).failed(error),
    {
        self.message = Message::Failed { error };
        self.error = true;
    }

    /// The window that has the focus.
    pub open spec fn window(self) -> u64 {
        self.windows.layout.active
    }

    pub fn focused_window_id(&self) -> (id: u64)
        ensures
            id == self.window(),
    {
        self.windows.layout.active
    }
}

} // verus!
