# vex_term

The decision core of a terminal text editor, written and proved in Verus.

The core is told what the active document and its view are, and takes the events
of the terminal and of the workers behind it. It answers with its next state and
a list of effects: things to be done by the text engine, the language service,
Git or the screen. No file, process or terminal is touched here.

- `src/` is the library. `app.rs` holds the state of the application and
  `dispatch.rs` the way of an event through it; the other modules each hold one
  concern: windows and their layout, jumps, prompts, pickers, completion, the
  exchange with a language server, Git and its views, the clipboard, reloading.
  Each function states what it returns, what it changes and what it asks for.
  What holds across functions stands in proof functions whose names begin with
  `law_`.
- `tests/` runs the library; `session.rs` plays whole sessions against a small
  text editor.
- `app/` is the ordinary Rust around it: the events of the terminal, and a
  session that lets an engine do what the core asks for, hands out jobs to
  workers, takes their reports and draws the screen. The engine that edits texts
  and the workers themselves come from elsewhere, as traits.
