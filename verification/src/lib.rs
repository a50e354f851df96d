//! The decision core of the Vex terminal editor.
//!
//! Everything the terminal application decides without touching a file, a
//! process or the screen lives here: window geometry, prompts and their
//! history, the jump list, language requests and the menus drawn for them,
//! Git scheduling and the picker. Values that belong to other components are
//! plain here: a document, a view or a revision is an integer, a file is an
//! identity, and time is a number of nanoseconds. What has to be done outside
//! is asked for by a list of effects.

pub mod actions;
pub mod answers;
pub mod app;
pub mod browser;
pub mod buffers;
pub mod checkpoints;
pub mod chrome;
pub mod clipboard;
pub mod commands;
pub mod completion;
pub mod diagnostics;
pub mod dispatch;
pub mod document;
pub mod editor;
pub mod effect;
pub mod error;
pub mod event;
pub mod find;
pub mod formatting;
pub mod git;
pub mod git_write;
pub mod hints;
pub mod input;
pub mod jumps;
pub mod language;
pub mod laws;
pub mod layout;
pub mod measure;
pub mod menu;
pub mod message;
pub mod mouse;
pub mod names;
pub mod navigation;
pub mod paint;
pub mod picker;
pub mod pickers;
pub mod picking;
pub mod prompt;
pub mod refresh;
pub mod reload;
pub mod rename;
pub mod roots;
pub mod selection;
pub mod server;
pub mod shared;
pub mod signature;
pub mod sources;
pub mod startup;
pub mod status;
pub mod status_keys;
pub mod symbols;
pub mod text;
pub mod travel;
pub mod unsaved;
pub mod update;
pub mod view;
pub mod windows;
