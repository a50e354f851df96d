//! Whole sessions: keys and events go in, and a small text editor does what the
//! application asks for.

use std::collections::HashMap;
use std::sync::Arc;
use vex_term::answers::{Answer, Next, ServerEvent};
use vex_term::app::{ActivePrompt, App};
use vex_term::clipboard::{ClipboardAction, Outcome, Placement};
use vex_term::commands::{CommandId, Invocation};
use vex_term::completion::{CompletionItem, CompletionTrigger, Completions};
use vex_term::diagnostics::Visit;
use vex_term::dispatch::{ApplicationAction, Handled, Inputs, SearchCompletion};
use vex_term::editor::{Editor, Mode, SearchStatus, Server, MILLISECOND};
use vex_term::effect::{Effect, Job};
use vex_term::error::Error;
use vex_term::event::{Event, Key, KeyPress};
use vex_term::git_write::Draft;
use vex_term::hints::HintSource;
use vex_term::input::{PromptStep, RegisterKey};
use vex_term::jumps::{Jump, CAPACITY};
use vex_term::language::{CompletionOptions, Diagnostic, RequestKind};
use vex_term::measure::label_clusters;
use vex_term::event::{MouseButton, MouseEvent, MouseEventKind};
use vex_term::layout::Axis;
use vex_term::menu::Frame;
use vex_term::mouse::{Pointed, Popups, Wheel};
use vex_term::paint::{paint_dividers, Content};
use vex_term::picker::{Destination, Notice, Position, PreviewState, Rows};
use vex_term::picking::Action;
use vex_term::refresh;
use vex_term::reload::{self, observe, Observed, Probe, Report};
use vex_term::selection::{Selection, Selections};
use vex_term::server::{LanguageAction, Update};
use vex_term::travel::WindowAction;
use vex_term::view::{Motion, Sight, ViewAction};
use vex_term::windows::{Buffer, Prepared};

const LANGUAGES: [&str; 7] = [
    "rust",
    "markdown",
    "shell",
    "typescript",
    "tsx",
    "javascript",
    "jsx",
];

type Ranges = (Vec<Selection>, usize);

struct Doc {
    text: Vec<char>,
    saved: Vec<char>,
    undo: Vec<(Vec<char>, Ranges)>,
    redo: Vec<(Vec<char>, Ranges)>,
    typing: bool,
    revision: u64,
    file: Option<u64>,
    language: Option<u64>,
}

struct World {
    app: App,
    docs: HashMap<u64, Doc>,
    views: HashMap<(u64, u64), Ranges>,
    /// The document and the view that the editor shows.
    shown: (u64, u64),
    last_views: HashMap<u64, u64>,
    cancelled: Vec<Job>,
    now: u64,
    language: Option<LanguageAction>,
    wanted: Option<ApplicationAction>,
    edits: HashMap<u64, Vec<(usize, usize, String)>>,
    typed: String,
    registers: HashMap<char, String>,
    line: (String, usize),
    search: Option<(bool, Ranges)>,
    found: Option<String>,
    pasted: String,
    repeat: usize,
    applied: Vec<u64>,
    /// What was drawn last of a view that stays where it is: the cursor, the
    /// revision and the size.
    held: HashMap<u64, (usize, u64, (u16, u16))>,
    /// The column that moves by lines keep to.
    column: Option<usize>,
    /// Whether searches wait for a worker, and the text one waits with.
    background: bool,
    waits: Option<String>,
    /// The selections before a pair was looked for.
    pair: Option<Ranges>,
}

struct Drawn {
    cursor: Option<(u16, u16)>,
    rows: Vec<Vec<char>>,
}

impl Drawn {
    fn row(&self, y: usize) -> String {
        self.rows[y].iter().collect()
    }
}

fn columns(ch: char, column: usize) -> usize {
    match ch {
        '\t' => 4 - column % 4,
        '\u{300}'..='\u{36f}' => 0,
        '\u{1100}'.. => 2,
        _ => 1,
    }
}

fn margin(height: usize) -> usize {
    3.min((height - 1) / 2)
}

/// A selection whose cursor is moved, with the anchor staying where it is.
fn extended(selection: Selection, position: usize) -> Selection {
    let forward = selection.anchor < selection.head;
    let anchor = if forward && position < selection.anchor {
        selection.anchor + 1
    } else if !forward && position >= selection.anchor {
        selection.anchor - 1
    } else {
        selection.anchor
    };
    let head = if anchor <= position { position + 1 } else { position };
    Selection { anchor, head }
}

fn at(position: usize) -> Selection {
    Selection { anchor: position, head: position + 1 }
}

fn caret(position: usize) -> Selection {
    Selection { anchor: position, head: position }
}

fn key(key: Key) -> Event {
    Event::Key(KeyPress { released: false, key: Some(key) })
}

fn ctrl(ch: char) -> Event {
    key(Key::Ctrl(ch))
}

fn editor(document: u64) -> Editor {
    Editor {
        document,
        revision: 0,
        view: 0,
        selections: Arc::new(Selections { ranges: vec![at(0)], primary: 0 }),
        mode: Mode::Normal,
        cursor: 0,
        length: 0,
        bytes: 0,
        lines: 1,
        language: None,
        server: None,
        file: None,
        dirty: false,
        document_stamp: 0,
        workspace_stamp: 0,
        search_prompt: None,
        search_register: None,
        search_status: None,
        search_waiting: false,
        search_pending: false,
        repeat_pending: false,
        repeat_ready: false,
        keys_pending: false,
    }
}

impl World {
    fn new(text: &str, size: (u16, u16)) -> World {
        let mut world = World {
            app: App::from_document(editor(1), size),
            docs: HashMap::new(),
            views: HashMap::new(),
            shown: (1, 0),
            last_views: HashMap::new(),
            cancelled: Vec::new(),
            now: 10_000 * MILLISECOND,
            language: None,
            wanted: None,
            edits: HashMap::new(),
            typed: String::new(),
            registers: HashMap::new(),
            line: (String::new(), 0),
            search: None,
            found: None,
            pasted: String::new(),
            repeat: 0,
            applied: Vec::new(),
            held: HashMap::new(),
            column: None,
            background: false,
            waits: None,
            pair: None,
        };
        world.load(1, text, None);
        world.views.insert((1, 0), (vec![at(0)], 0));
        world.sync();
        world
    }

    fn open(text: &str, size: (u16, u16)) -> World {
        let mut world = World::new(text, size);
        let doc = world.docs.get_mut(&1).unwrap();
        doc.file = Some(11);
        doc.language = Some(0);
        world.sync();
        world
    }

    fn load(&mut self, document: u64, text: &str, file: Option<u64>) {
        let text: Vec<char> = text.chars().collect();
        self.docs.insert(
            document,
            Doc {
                saved: text.clone(),
                text,
                undo: Vec::new(),
                redo: Vec::new(),
                typing: false,
                revision: 0,
                file,
                language: None,
            },
        );
    }

    fn doc(&mut self) -> &mut Doc {
        self.docs.get_mut(&self.shown.0).unwrap()
    }

    fn text(&self) -> String {
        self.docs[&self.shown.0].text.iter().collect()
    }

    fn ranges(&self) -> Ranges {
        self.views[&self.shown].clone()
    }

    fn select(&mut self, ranges: Ranges) {
        self.views.insert(self.shown, ranges);
        self.sync();
    }

    fn primary(&self) -> Selection {
        let (ranges, primary) = self.ranges();
        ranges[primary]
    }

    fn start(&self) -> usize {
        self.primary().start()
    }

    fn put(&mut self, position: usize) {
        self.select((vec![at(position)], 0));
    }

    /// Lets the application know what the document is now.
    fn sync(&mut self) {
        if self.app.editor.document != self.shown.0 {
            return; // More effects follow.
        }
        self.app.editor.view = self.shown.1;
        let (ranges, primary) = self.ranges();
        let waiting = self.repeat > 0;
        let pending = !self.typed.is_empty();
        let doc = &self.docs[&self.shown.0];
        let editor = &mut self.app.editor;
        let same = editor.selections.ranges == ranges && editor.selections.primary == primary;
        let changed = !same || editor.revision != doc.revision || editor.language != doc.language;
        if changed {
            editor.document_stamp += 1;
            editor.workspace_stamp += 1;
        }
        if !same {
            editor.selections = Arc::new(Selections { ranges: ranges.clone(), primary });
        }
        editor.revision = doc.revision;
        editor.cursor = match editor.mode {
            Mode::Insert => ranges[primary].head,
            _ if ranges[primary].head <= ranges[primary].anchor => ranges[primary].head,
            _ => ranges[primary].head - 1,
        };
        editor.length = doc.text.len();
        editor.bytes = doc.text.iter().map(|ch| ch.len_utf8()).sum();
        editor.lines = 1 + doc.text.iter().filter(|&&ch| ch == '\n').count();
        editor.language = doc.language;
        editor.server = doc.language.map(|id| Server {
            label: format!("{}-server", LANGUAGES[id as usize]),
            command: "serve".into(),
        });
        editor.file = doc.file;
        editor.dirty = doc.text != doc.saved;
        editor.repeat_pending = waiting;
        editor.repeat_ready = waiting;
        editor.keys_pending = pending;
    }

    fn mode(&mut self, mode: Mode) {
        if self.app.editor.mode != mode {
            self.app.editor.mode = mode;
            self.app.editor.document_stamp += 1;
            self.app.editor.workspace_stamp += 1;
        }
        self.doc().typing = false;
        self.sync();
    }

    fn edit(&mut self, from: usize, to: usize, text: &str, head: usize, typing: bool) {
        let before = self.ranges();
        let insert = self.app.editor.mode == Mode::Insert;
        let doc = self.doc();
        if !(typing && doc.typing) {
            doc.undo.push((doc.text.clone(), before));
        }
        doc.redo.clear();
        doc.typing = typing;
        doc.text.splice(from..to, text.chars());
        doc.revision += 1;
        self.select((vec![if insert { caret(head) } else { at(head) }], 0));
    }

    fn insert(&mut self, text: &str) {
        let head = self.primary().head;
        self.edit(head, head, text, head + text.chars().count(), true);
    }

    fn undo(&mut self) {
        let now = self.ranges();
        let doc = self.doc();
        doc.typing = false;
        if let Some((text, ranges)) = doc.undo.pop() {
            doc.redo.push((std::mem::replace(&mut doc.text, text), now));
            doc.revision += 1;
            self.select(ranges);
        }
    }

    fn redo(&mut self) {
        let now = self.ranges();
        let doc = self.doc();
        if let Some((text, ranges)) = doc.redo.pop() {
            doc.undo.push((std::mem::replace(&mut doc.text, text), now));
            doc.revision += 1;
            self.select(ranges);
        }
    }

    fn find(&self, pattern: &str, from: usize, backward: bool) -> Option<usize> {
        let text = &self.docs[&self.app.editor.document].text;
        let pattern: Vec<char> = pattern.chars().collect();
        let hits: Vec<usize> = (0..text.len())
            .filter(|&i| text[i..].starts_with(&pattern))
            .collect();
        if backward {
            hits.iter().rev().find(|&&i| i < from).or(hits.last()).copied()
        } else {
            hits.iter().find(|&&i| i >= from).or(hits.first()).copied()
        }
    }

    fn go_to(&mut self, pattern: &str, from: usize, backward: bool) -> bool {
        let Some(hit) = self.find(pattern, from, backward) else {
            return false;
        };
        let end = hit + pattern.chars().count();
        let found = Selection { anchor: hit, head: end };
        let mut ranges = (vec![found], 0);
        if self.app.editor.mode == Mode::Select {
            let (mut before, _) = self.ranges();
            before.push(found);
            ranges = (before.clone(), before.len() - 1);
        }
        self.select(ranges);
        true
    }

    fn line_of(&self, position: usize) -> usize {
        let text = &self.docs[&self.shown.0].text;
        text[..position].iter().filter(|&&ch| ch == '\n').count()
    }

    fn line_start(&self, line: usize) -> usize {
        let text = &self.docs[&self.shown.0].text;
        (0..=text.len()).find(|&i| self.line_of(i) == line).unwrap()
    }

    fn column_of(&self, position: usize) -> usize {
        let text = &self.docs[&self.shown.0].text;
        let from = self.line_start(self.line_of(position));
        text[from..position].iter().fold(0, |column, &ch| column + columns(ch, column))
    }

    /// Where the primary cursor is drawn.
    fn cursor(&self) -> usize {
        let selection = self.primary();
        if self.app.editor.mode == Mode::Insert || selection.head <= selection.anchor {
            selection.head
        } else {
            selection.head - 1
        }
    }

    fn cursor_line(&self) -> usize {
        self.line_of(self.cursor())
    }

    fn move_cursor(&mut self, position: usize) {
        let (mut ranges, primary) = self.ranges();
        ranges[primary] = match self.app.editor.mode {
            Mode::Insert => caret(position),
            Mode::Select => extended(ranges[primary], position),
            Mode::Normal => at(position),
        };
        self.select((ranges, primary));
    }

    fn move_lines(&mut self, down: bool, count: usize) {
        let line = self.cursor_line();
        let wanted = self.column.unwrap_or_else(|| self.column_of(self.cursor()));
        let target = if down {
            line.saturating_add(count).min(self.app.editor.lines - 1)
        } else {
            line.saturating_sub(count)
        };
        let mut position = self.line_start(target);
        let text = &self.docs[&self.shown.0].text;
        let mut column = 0;
        while column < wanted && position + 1 < text.len() && text[position + 1] != '\n' {
            column += columns(text[position], column);
            position += 1;
        }
        self.move_cursor(position);
        self.column = Some(wanted);
    }

    fn half_page(&mut self, down: bool, count: usize) {
        let distance = self.app.half_page_distance(count);
        let before = self.cursor_line();
        self.move_lines(down, distance);
        let after = self.cursor_line();
        self.app.scroll_half_page(down, before, after);
    }

    /// The rows and the columns of text in the focused pane.
    fn body(&self) -> (usize, usize) {
        let (width, height) = self.app.active_size();
        let gutter = self.gutter().min(width.into());
        (usize::from(height).saturating_sub(1), usize::from(width) - gutter)
    }

    fn gutter(&self) -> usize {
        self.app.editor.lines.to_string().len() + 4
    }

    /// Moves the view to the cursor, unless it was put where it is.
    fn follow(&mut self) {
        let (height, width) = self.body();
        let stamp = (self.cursor(), self.app.editor.revision, self.app.active_size());
        if height == 0 || width == 0 || self.held.get(&self.shown.1) == Some(&stamp) {
            return;
        }
        self.held.remove(&self.shown.1);
        let margin = margin(height);
        let row = self.cursor_line();
        let top = self.app.viewport.top_line;
        if row < top + margin {
            self.app.viewport.top_line = row.saturating_sub(margin);
        } else if row + margin >= top + height {
            self.app.viewport.top_line = row + margin + 1 - height;
        }
        let column = self.column_of(self.cursor());
        let left = self.app.viewport.left_column;
        if column < left {
            self.app.viewport.left_column = column;
        } else if column >= left + width {
            self.app.viewport.left_column = column + 1 - width;
        }
    }

    fn hold(&mut self) {
        let stamp = (self.cursor(), self.app.editor.revision, self.app.active_size());
        self.held.insert(self.shown.1, stamp);
    }

    fn view(&mut self, action: ViewAction, count: usize) {
        self.follow();
        let (height, _) = self.body();
        let cursor = self.cursor();
        let row = self.line_of(cursor);
        let sight = Sight {
            cursor,
            line_start: self.line_start(row),
            row,
            column: self.column_of(cursor),
            margin: if height == 0 { 0 } else { margin(height) },
            gutter: self.gutter().min(self.app.active_size().0.into()),
        };
        match self.app.view_action(action, count, sight) {
            Some(Motion::Put { line }) => {
                let (mut ranges, primary) = self.ranges();
                let position = self.line_start(line);
                ranges[primary] = match self.app.editor.mode {
                    Mode::Insert => caret(position),
                    Mode::Select => extended(ranges[primary], position),
                    Mode::Normal => at(position),
                };
                self.select((ranges, primary));
            }
            Some(Motion::GoTo { line }) => {
                let last = self.app.editor.lines;
                self.move_cursor(self.line_start(line.min(last) - 1));
            }
            Some(Motion::Stay) => {}
            None => return,
        }
        self.hold();
    }

    fn window(&mut self, action: WindowAction) {
        let mut out = Vec::new();
        let result = self.app.window_action(action, 1, Ok(vec![]), &mut out);
        self.run(out);
        if let Err(error) = result {
            self.app.fail(error);
        }
    }

    fn draw(&mut self) -> Drawn {
        self.open_search_prompt();
        let (width, height) = self.app.size();
        let mut rows = vec![vec![' '; width.into()]; height.into()];
        let mut cursor = None;
        let plan = self.app.paint_windows();
        for pane in &plan.panes {
            let (x, y) = (usize::from(pane.rect.x), usize::from(pane.rect.y));
            let (wide, tall) = (usize::from(pane.rect.width), usize::from(pane.rect.height));
            let body = App::body_height(pane.rect.height + plan.reserved_bottom, plan.reserved_bottom);
            assert_eq!(usize::from(body), tall.saturating_sub(1));
            let (document, viewport) = match pane.content {
                Content::Active => {
                    self.follow();
                    (self.shown.0, self.app.viewport)
                }
                Content::Document(document, _) => {
                    (document, self.app.windows.panes[self.pane(pane.id)].viewport)
                }
                Content::Git(_) => panic!("no repository"),
            };
            let text: String = self.docs[&document].text.iter().collect();
            let lines: Vec<&str> = text.split('\n').collect();
            let digits = lines.len().to_string().len();
            for row in 0..usize::from(body) {
                if let Some(line) = lines.get(viewport.top_line + row) {
                    let number = viewport.top_line + row + 1;
                    let shown = format!(" {number:>digits$}   {line}");
                    for (i, ch) in shown.chars().take(wide).enumerate() {
                        rows[y + row][x + i] = ch;
                    }
                }
            }
            if tall > 0 {
                rows[y + tall - 1][x..x + wide].fill('─');
            }
            if matches!(pane.content, Content::Active) {
                let row = self.cursor_line().checked_sub(viewport.top_line);
                let column = self.column_of(self.cursor()).checked_sub(viewport.left_column);
                if let (Some(row), Some(column)) = (row, column) {
                    let column = column + digits + 4;
                    if row < body.into() && column < wide {
                        cursor = Some(((x + column) as u16, (y + row) as u16));
                    }
                }
            }
        }
        let above: Vec<bool> = plan
            .dividers
            .iter()
            .map(|divider| {
                divider.y > 0 && rows[usize::from(divider.y) - 1][usize::from(divider.x)] == '─'
            })
            .collect();
        for cell in paint_dividers(&plan.leaves, &plan.dividers, &above) {
            rows[usize::from(cell.y)][usize::from(cell.x)] = cell.glyph;
        }
        if height > 0 {
            let line = match &self.app.prompt {
                Some(prompt) => {
                    let before = prompt.prefix(self.label().into());
                    let text = &prompt.input.text;
                    let typed = if *text == self.line.0 { self.line.1 } else { text.len() };
                    let x = before.chars().count() + typed;
                    cursor = Some((x.min(usize::from(width) - 1) as u16, height - 1));
                    before + text
                }
                None => self.app.command_line().text,
            };
            for (i, ch) in line.chars().take(width.into()).enumerate() {
                rows[usize::from(height) - 1][i] = ch;
            }
        }
        Drawn { cursor, rows }
    }

    fn pane(&self, id: u64) -> usize {
        self.app.windows.panes.iter().position(|pane| pane.id == id).unwrap()
    }

    /// What stands before the text of a search prompt.
    fn label(&self) -> &'static str {
        match self.app.editor.search_prompt {
            Some(1) => "?",
            Some(2) => "select: ",
            Some(3) => "keep: ",
            Some(4) => "split: ",
            _ => "/",
        }
    }

    fn begin_search(&mut self, backward: bool) {
        self.search = Some((backward, self.ranges()));
        self.app.editor.search_prompt = Some(u64::from(backward));
        self.app.editor.search_status = Some(SearchStatus::Empty);
    }

    fn end_search(&mut self) {
        self.search = None;
        self.app.editor.search_prompt = None;
        self.app.editor.search_status = None;
    }

    /// Lets the worker find what the prompt asked for.
    fn search_finished(&mut self) -> bool {
        let waits = self.waits.take();
        let result = match &self.search {
            Some(_) => {
                self.background = false;
                self.preview(&waits.unwrap());
                self.background = true;
                SearchCompletion::Preview
            }
            None => SearchCompletion::Ignored,
        };
        let mut out = Vec::new();
        let redraw = self.app.handle_search_result(Ok(result), &mut out);
        self.run(out);
        redraw
    }

    /// The parts of the selections that a pattern selects, keeps or leaves.
    fn preview_pattern(&mut self, pattern: &str) -> Result<(), Error> {
        let (_, origin) = self.search.clone().unwrap();
        self.select(origin.clone());
        let word: fn(char) -> bool = match pattern {
            "" => {
                self.app.editor.search_status = Some(SearchStatus::Empty);
                return Ok(());
            }
            "[" | "\\" => {
                self.app.editor.search_status = Some(SearchStatus::Invalid);
                return Err(Error::Other("invalid pattern".into()));
            }
            "\\w" | "\\w+" => |ch| ch.is_alphanumeric(),
            " " => |ch| ch == ' ',
            "o" => |ch| ch == 'o',
            other => panic!("{other}"),
        };
        let operation = self.app.editor.search_prompt;
        let text = self.doc().text.clone();
        let mut found = Vec::new();
        for range in origin.0 {
            if operation == Some(3) {
                if text[range.start()..range.end()].iter().any(|&ch| word(ch)) {
                    found.push(range);
                }
                continue;
            }
            let wanted = operation == Some(2);
            let mut from = range.start();
            for i in range.start()..=range.end() {
                let joins = i < range.end() && word(text[i]) == wanted && pattern != "\\w";
                if !joins {
                    if from < i {
                        found.push(Selection { anchor: from, head: i });
                    }
                    from = i + 1;
                }
            }
        }
        self.app.editor.search_status = Some(SearchStatus::Match);
        if !found.is_empty() {
            self.select((found, 0));
        }
        Ok(())
    }

    /// Loads the place of a problem in the present document.
    fn visit(&mut self, selection: Selection, _message: &str) {
        let place = Position { line: 0, character: 0 };
        let destination = Destination { file: 11, start: place, end: place };
        let mut out = Vec::new();
        self.app.begin_location_navigation(destination, &mut out);
        self.run(out);
        self.edits.insert(0, vec![(selection.anchor, selection.head, String::new())]);
    }

    /// Goes to the place that was loaded, where it is still wanted.
    fn visited(&mut self, id: u64) -> bool {
        let cancelled = self.cancelled.contains(&Job::Location(id));
        let (redraw, origin) = self.app.handle_location_navigation(id, cancelled);
        if let Some(origin) = origin {
            let (anchor, head, _) = self.edits[&0][0].clone();
            self.select((vec![Selection { anchor, head }], 0));
            let mut out = Vec::new();
            self.app.finish_location_navigation(origin, Ok(()), &mut out);
            self.run(out);
        }
        redraw
    }

    /// Lets the worker look for the pair that was asked for.
    fn pair_found(&mut self, found: Option<(usize, usize)>) -> bool {
        let result = match (found, &self.pair) {
            (_, None) => Ok(SearchCompletion::Ignored),
            (None, Some(_)) => {
                self.pair = None;
                Err(Error::Other("surround pair not found".into()))
            }
            (Some((open, close)), Some(_)) => {
                self.select((vec![at(open), at(close)], 0));
                Ok(SearchCompletion::Navigation)
            }
        };
        let mut out = Vec::new();
        let redraw = self.app.handle_search_result(result, &mut out);
        self.run(out);
        redraw
    }

    /// Replaces the pair that was found.
    fn pair_replaced(&mut self) {
        let with = self.waits.take().unwrap();
        self.pair = None;
        self.typed.clear();
        let (ranges, _) = self.ranges();
        for range in ranges {
            self.edit(range.start(), range.end(), &with, range.start(), false);
        }
        self.mode(Mode::Normal);
        let mut out = Vec::new();
        let done = Ok(SearchCompletion::Navigation);
        self.app.handle_search_result(done, &mut out);
        self.run(out);
    }

    fn preview(&mut self, pattern: &str) {
        if self.background {
            self.waits = Some(pattern.to_string());
            self.app.editor.search_status = Some(SearchStatus::Pending);
            return;
        }
        let (backward, origin) = self.search.clone().unwrap();
        let primary = origin.0[origin.1];
        self.select(origin);
        self.app.editor.search_status = Some(if pattern.is_empty() {
            SearchStatus::Empty
        } else if self.go_to(
            pattern,
            if backward { primary.start() } else { primary.end() },
            backward,
        ) {
            SearchStatus::Match
        } else {
            SearchStatus::NoMatch
        });
    }

    fn handle(&mut self, event: Event) -> bool {
        self.handle_at(event, self.now)
    }

    fn handle_at(&mut self, event: Event, now: u64) -> bool {
        self.now = now;
        let inputs = Inputs {
            now,
            action: Action::Idle,
            room: true,
            counted: false,
            space: self.typed == " ",
            requested: false,
            popups: Popups {
                signature: None,
                completion: self.app.completion.active.is_some(),
                hover: None,
            },
        };
        let mut out = Vec::new();
        let handled = self.app.handle(event, inputs, &mut out);
        self.run(out);
        match handled {
            Handled::Done { redraw } => redraw,
            Handled::Picker { redraw, .. } => redraw,
            Handled::Signature { redraw, .. } => redraw,
            Handled::Pointer(pointed) => self.pointer(pointed),
            Handled::Document { redraw, typing } => {
                if let Some(typing) = typing {
                    let head = self.primary().head;
                    let doc = &self.docs[&self.app.editor.document];
                    let before: Vec<char> = doc.text[..head].to_vec();
                    self.app.schedule_completion(typing, &before, now);
                }
                redraw
            }
            _ => true,
        }
    }

    fn pointer(&mut self, pointed: Pointed) -> bool {
        match pointed {
            Pointed::Nothing => false,
            Pointed::Scroll { id, wheel, .. } => {
                let top = if id == self.app.focused_window_id() {
                    self.app.viewport.top_line
                } else {
                    self.app.windows.panes[self.pane(id)].viewport.top_line
                };
                let top = self.scrolled(top, wheel);
                if id == self.app.focused_window_id() {
                    self.app.viewport.top_line = top;
                    self.hold();
                } else {
                    let pane = self.pane(id);
                    self.app.windows.panes[pane].viewport.top_line = top;
                }
                true
            }
            other => panic!("{other:?}"),
        }
    }

    fn scrolled(&self, top: usize, wheel: Wheel) -> usize {
        if wheel.down {
            top.saturating_add(wheel.lines).min(self.app.editor.lines - 1)
        } else {
            top.saturating_sub(wheel.lines)
        }
    }

    fn press(&mut self, keys: &str) {
        for ch in keys.chars() {
            self.handle(key(Key::Char(ch)));
        }
    }

    fn run(&mut self, effects: Vec<Effect>) {
        for effect in effects {
            match effect {
                Effect::Cancel(job) => self.cancelled.push(job),
                Effect::CancelKeys => {
                    self.typed.clear();
                    if let Some(origin) = self.pair.take() {
                        self.views.insert(self.shown, origin);
                    }
                    self.sync();
                }
                Effect::CancelSearch => {
                    if let Some((_, origin)) = self.search.clone() {
                        self.select(origin);
                    }
                    self.end_search();
                }
                Effect::FinishUndoGroup => self.doc().typing = false,
                Effect::FocusView(view) => {
                    self.shown.1 = view;
                    self.sync();
                }
                Effect::DuplicateView(view) => {
                    let ranges = self.ranges();
                    self.views.insert((self.shown.0, view), ranges);
                }
                Effect::InstallBuffer(document, view) => {
                    self.views.insert((document, view), (vec![at(0)], 0));
                    self.last_views.insert(self.shown.0, self.shown.1);
                    self.shown = (document, view);
                    self.sync();
                }
                Effect::SwitchBuffer(document) => {
                    self.last_views.insert(self.shown.0, self.shown.1);
                    self.shown = (document, self.last_views[&document]);
                    self.sync();
                }
                Effect::Replay(event) => {
                    self.handle(event);
                }
                Effect::ClearMessage => self.app.clear_message(),
                Effect::Report(error) => self.app.fail(error),
                Effect::ApplyCompletion { item, following } => {
                    let mut edits = self.edits[&item].clone();
                    edits.sort();
                    let mut head = 0;
                    let mut shift = 0;
                    let before = self.ranges();
                    let doc = self.doc();
                    doc.undo.push((doc.text.clone(), before));
                    doc.typing = false;
                    for (from, to, text) in edits {
                        let count = text.chars().count();
                        doc.text.splice(from + shift..to + shift, text.chars());
                        head = from + shift + count;
                        shift = shift + count - (to - from);
                    }
                    doc.revision += 1;
                    self.select((vec![caret(head)], 0));
                    let mut out = Vec::new();
                    self.app.completion_applied(Ok(()), following, &mut out);
                    self.run(out);
                }
                Effect::PreviewSearch(text) => {
                    let outcome = match self.app.editor.search_prompt {
                        Some(2..) => self.preview_pattern(&text),
                        _ => {
                            self.preview(&text);
                            Ok(())
                        }
                    };
                    self.app.search_previewed(outcome);
                }
                Effect::VisitDiagnostic { selection, message } => {
                    self.visit(selection, &message);
                }
                Effect::PromptKey(key) => self.prompt_key(key),
                Effect::PromptInsert(text) => {
                    self.line_insert(&text);
                    let mut out = Vec::new();
                    self.app.prompt_edited(true, None, &mut out);
                    self.run(out);
                }
                Effect::Paste(text) => {
                    self.doc().typing = false;
                    self.insert(&text);
                    self.doc().typing = false;
                }
                Effect::ApplyPaste(id) => {
                    self.applied.push(id);
                    let text = self.pasted.clone();
                    let start = self.start();
                    self.edit(start, start, &text, start, false);
                }
                Effect::CancelRepeat => {
                    self.repeat = 0;
                    self.sync();
                }
                Effect::OpenSearchPrompt => self.open_search_prompt(),
                Effect::ApplyAction => self.apply_action(),
                Effect::HandleKey(key) => self.keymap(key),
                Effect::SetRegister(name, text) => {
                    self.registers.insert(name, text);
                }
                Effect::CancelServerEdit
                | Effect::RetainActiveView
                | Effect::HideBuffer(_)
                | Effect::DropBuffer(_)
                | Effect::RemoveView(..)
                | Effect::CacheRegisterHints
                | Effect::ScrollHover { .. } => {}
                other => panic!("{other:?}"),
            }
        }
    }

    fn open_search_prompt(&mut self) {
        let mut out = Vec::new();
        self.app.open_search_prompt(&mut out);
        self.run(out);
    }

    fn apply_action(&mut self) {
        let mut out = Vec::new();
        let action = self.wanted.take();
        let left = self.app.apply_application_action(action, &mut out);
        self.run(out);
        match left {
            Some(ApplicationAction::Jump { forward, count }) => {
                let _ = self.jump(forward, count);
            }
            Some(ApplicationAction::HalfPageDown(count)) => self.half_page(true, count),
            Some(ApplicationAction::HalfPageUp(count)) => self.half_page(false, count),
            Some(ApplicationAction::Window(action, _)) => self.window(action),
            Some(other) => panic!("{other:?}"),
            None => {}
        }
    }

    fn jump(&mut self, forward: bool, count: usize) -> Result<(), Error> {
        let Some(plan) = self.app.navigate_jump(forward, count) else {
            return Ok(());
        };
        let document = plan.jump.document;
        let length = self.docs.get(&document).map_or(0, |doc| doc.text.len());
        let selections = App::jump_selections(&plan, length);
        let select = plan.select;
        let mut out = Vec::new();
        let reached = self.app.reach_jump(&plan, &mut out);
        self.run(out);
        reached?;
        self.select((selections.ranges, selections.primary));
        self.mode(if select { Mode::Select } else { Mode::Normal });
        self.app.finish_jump(plan, Ok(()))
    }

    /// The keys that the sessions use.
    fn keymap(&mut self, key: Key) {
        self.held.remove(&self.shown.1);
        let vertical = matches!(
            key,
            Key::Char('0'..='9' | 'j' | 'k' | 'v') | Key::Ctrl('d' | 'u') | Key::Escape
        );
        if !vertical {
            self.column = None;
        }
        if self.app.editor.mode == Mode::Insert {
            let head = self.primary().head;
            match key {
                Key::Char(ch) => self.insert(&ch.to_string()),
                Key::Enter => self.insert("\n"),
                Key::Tab => self.insert("\t"),
                Key::Backspace | Key::Ctrl('h') => {
                    if head > 0 {
                        self.edit(head - 1, head, "", head - 1, true);
                    }
                }
                Key::Left => self.select((vec![caret(head.saturating_sub(1))], 0)),
                Key::Ctrl('x') => self.language = Some(LanguageAction::Completion),
                Key::Ctrl('s') => {
                    self.doc().typing = false;
                    self.wanted = Some(ApplicationAction::SaveSelection);
                }
                Key::Escape => self.mode(Mode::Normal),
                _ => {}
            }
            return;
        }
        if key == Key::Ctrl('c') && self.typed.is_empty() {
            self.comment();
            return;
        }
        if key == Key::Escape || key == Key::Ctrl('c') {
            if self.typed.is_empty() {
                self.mode(Mode::Normal);
            }
            self.typed.clear();
            if let Some(origin) = self.pair.take() {
                self.views.insert(self.shown, origin);
            }
            self.sync();
            return;
        }
        let typed = std::mem::take(&mut self.typed);
        let count = typed.trim_matches(|ch: char| !ch.is_ascii_digit()).parse().unwrap_or(1);
        let start = self.start();
        let prefix = typed.trim_matches(|ch: char| ch.is_ascii_digit());
        let viewed = match (prefix, key) {
            ("z" | "Z", Key::Char('t')) => Some(ViewAction::AlignTop),
            ("z" | "Z", Key::Char('b')) => Some(ViewAction::AlignBottom),
            ("z" | "Z", Key::Char('z' | 'c')) => Some(ViewAction::AlignCenter),
            ("z" | "Z", Key::Char('m')) => Some(ViewAction::AlignMiddle),
            ("z" | "Z", Key::Char('j')) => Some(ViewAction::ScrollDown),
            ("z" | "Z", Key::Char('k')) => Some(ViewAction::ScrollUp),
            ("g", Key::Char('t')) => Some(ViewAction::WindowTop),
            ("g", Key::Char('b')) => Some(ViewAction::WindowBottom),
            ("g", Key::Char('c')) => Some(ViewAction::WindowCenter),
            ("" | "z" | "Z", Key::PageDown | Key::Ctrl('f')) => Some(ViewAction::PageDown),
            ("" | "z" | "Z", Key::PageUp | Key::Ctrl('b')) => Some(ViewAction::PageUp),
            _ => None,
        };
        if let Some(action) = viewed {
            self.view(action, count);
        }
        if prefix == "Z" {
            self.typed = match key {
                Key::Char(digit @ '0'..='9') => format!("{digit}Z"),
                _ => "Z".into(),
            };
        }
        if viewed.is_some() {
            self.sync();
            return;
        }
        match (prefix, key) {
            ("Z", Key::Char(_)) => {}
            ("m", Key::Char('r')) => self.typed = "mr".into(),
            ("mr", Key::Char(ch)) => {
                self.pair = Some(self.ranges());
                self.typed = format!("mr{ch}");
            }
            (pair, Key::Char(ch)) if pair.starts_with("mr") => {
                self.waits = Some(ch.to_string());
            }
            (" w" | "w", Key::Char(ch) | Key::Ctrl(ch)) => {
                let action = match ch {
                    'v' => WindowAction::SplitVertical,
                    's' => WindowAction::SplitHorizontal,
                    'q' => WindowAction::Close,
                    'h' => WindowAction::FocusLeft,
                    'l' => WindowAction::FocusRight,
                    'H' => WindowAction::SwapLeft,
                    other => panic!("{other}"),
                };
                self.wanted = Some(ApplicationAction::Window(action, count));
            }
            (" ", Key::Char('w')) => self.typed = " w".into(),
            (_, Key::Ctrl('w')) => self.typed = "w".into(),
            (_, Key::Ctrl('d')) => self.wanted = Some(ApplicationAction::HalfPageDown(count)),
            (_, Key::Ctrl('u')) => self.wanted = Some(ApplicationAction::HalfPageUp(count)),
            (_, Key::Char('j') | Key::Down) => self.move_lines(true, count),
            (_, Key::Char('k') | Key::Up) => self.move_lines(false, count),
            ("f", Key::Char(_) | Key::Tab | Key::Enter) => {
                let wanted = match key {
                    Key::Char(ch) => ch,
                    Key::Tab => '\t',
                    _ => '\n',
                };
                let from = self.cursor();
                let text = &self.docs[&self.shown.0].text;
                if let Some(hit) = (from + 1..text.len()).find(|&i| text[i] == wanted) {
                    self.select((vec![Selection { anchor: from, head: hit + 1 }], 0));
                }
            }
            ("r", Key::Char(_)) => {}
            (" ", Key::Char(ch)) => {
                let action = match ch {
                    'p' => ClipboardAction::Paste(Placement::After),
                    'P' => ClipboardAction::Paste(Placement::Before),
                    'R' => ClipboardAction::Paste(Placement::Replace),
                    'r' => {
                        self.language = Some(LanguageAction::Rename);
                        self.sync();
                        return;
                    }
                    other => panic!("{other}"),
                };
                self.wanted = Some(ApplicationAction::Clipboard(action, count));
            }
            (_, Key::Char(ch)) => match ch {
                ' ' | 'r' | 'f' | 'g' | 'm' | 'z' | 'Z' | '0'..='9' => {
                    self.typed = format!("{typed}{ch}");
                }
                'i' => {
                    self.mode(Mode::Insert);
                    self.select((vec![caret(start)], 0));
                }
                'a' => {
                    self.mode(Mode::Insert);
                    self.select((vec![caret(start + 1)], 0));
                }
                'v' => self.mode(Mode::Select),
                'l' => self.put(start + count),
                'h' => self.put(start - count),
                'u' => (0..count).for_each(|_| self.undo()),
                'U' => (0..count).for_each(|_| self.redo()),
                'd' => {
                    let (ranges, _) = self.ranges();
                    for (i, selection) in ranges.iter().rev().enumerate() {
                        let (from, to) = (selection.start(), selection.end());
                        self.edit(from, to, "", from, false);
                        if i > 0 {
                            let (_, before) = self.doc().undo.pop().unwrap();
                            self.doc().undo.last_mut().unwrap().1 = before;
                        }
                    }
                    self.doc().undo.last_mut().unwrap().1 .0 = ranges;
                }
                '%' => {
                    let length = self.doc().text.len();
                    self.select((vec![Selection { anchor: 0, head: length }], 0));
                }
                's' | 'K' | 'S' => {
                    self.begin_search(false);
                    let operation = match ch {
                        's' => 2,
                        'K' => 3,
                        _ => 4,
                    };
                    self.app.editor.search_prompt = Some(operation);
                }
                '.' => self.repeat = count,
                '/' => self.begin_search(false),
                '?' => self.begin_search(true),
                'n' | 'N' => {
                    let pattern = self.found.clone().unwrap();
                    for _ in 0..count {
                        let selection = self.primary();
                        if ch == 'n' {
                            self.go_to(&pattern, selection.end(), false);
                        } else {
                            self.go_to(&pattern, selection.start(), true);
                        }
                    }
                }
                _ => {}
            },
            (_, Key::Ctrl('o')) => {
                self.wanted = Some(ApplicationAction::Jump { forward: false, count });
            }
            (_, Key::Ctrl('i')) | (_, Key::Tab) => {
                self.wanted = Some(ApplicationAction::Jump { forward: true, count });
            }
            (_, Key::Ctrl('s')) => self.wanted = Some(ApplicationAction::SaveSelection),
            _ => {}
        }
        self.sync();
    }

    fn comment(&mut self) {
        let text = self.text();
        let length = text.chars().count();
        let other = match text.strip_prefix("// ") {
            Some(rest) => rest.to_string(),
            None => format!("// {text}"),
        };
        self.edit(0, length, &other, 0, false);
    }

    /// One key of the prompt's line.
    fn line_edit(&mut self, key: Key) -> bool {
        let text = self.app.prompt.as_ref().unwrap().input.text.clone();
        if text != self.line.0 {
            self.line = (text.clone(), text.chars().count());
        }
        let mut chars: Vec<char> = text.chars().collect();
        let cursor = self.line.1;
        match key {
            Key::Char(ch) => {
                chars.insert(cursor, ch);
                self.line.1 += 1;
            }
            Key::Backspace if cursor > 0 => {
                chars.remove(cursor - 1);
                self.line.1 -= 1;
            }
            Key::Delete if cursor < chars.len() => {
                chars.remove(cursor);
            }
            Key::Left => self.line.1 = cursor.saturating_sub(1),
            Key::Home => self.line.1 = 0,
            Key::Ctrl('u') => {
                chars.drain(..cursor);
                self.line.1 = 0;
            }
            _ => {}
        }
        let after: String = chars.iter().collect();
        self.line.0 = after.clone();
        let changed = after != text;
        self.app.prompt.as_mut().unwrap().input.text = after;
        changed
    }

    fn line_insert(&mut self, text: &str) {
        for ch in text.chars().filter(|ch| !ch.is_control()) {
            self.line_edit(Key::Char(ch));
        }
    }

    fn prompt_key(&mut self, key: Key) {
        let pending = self.app.prompt.as_ref().unwrap().input.register_pending;
        let register = if pending {
            self.app.prompt.as_mut().unwrap().input.register_pending = false;
            match key {
                Key::Char(name) => match self.registers.get(&name).cloned() {
                    Some(text) => {
                        self.line_insert(&text);
                        RegisterKey::Inserted { any: true }
                    }
                    None => RegisterKey::Inserted { any: false },
                },
                _ => RegisterKey::Prefix { pending: false },
            }
        } else if key == Key::Ctrl('r') {
            self.app.prompt.as_mut().unwrap().input.register_pending = true;
            RegisterKey::Prefix { pending: true }
        } else {
            RegisterKey::Other
        };
        let mut out = Vec::new();
        let step = self.app.handle_prompt_key(key, register, false, &mut out);
        self.run(out);
        match step {
            PromptStep::Done | PromptStep::Cycle { .. } | PromptStep::Descend => {}
            PromptStep::CancelSearch { viewport } => {
                let (_, origin) = self.search.clone().unwrap();
                self.select(origin);
                self.end_search();
                self.app.search_cancelled(viewport, Ok(()));
            }
            PromptStep::Execute { text } => {
                if let Err(error) = self.execute(&text) {
                    self.app.fail(error);
                }
            }
            PromptStep::AcceptSearch { prompt, empty } => {
                let outcome = match self.app.editor.search_status {
                    Some(SearchStatus::NoMatch) => Err(Error::NoMatches),
                    Some(SearchStatus::Invalid) => Err(Error::Other("invalid pattern".into())),
                    _ => {
                        if !prompt.input.text.is_empty() {
                            self.found = Some(prompt.input.text.clone());
                        }
                        self.end_search();
                        Ok(())
                    }
                };
                self.app.search_accepted(prompt, empty, outcome);
            }
            PromptStep::Rename { context, name } => self.app.submit_rename(context, &name),
            PromptStep::Edit => {
                let changed = self.line_edit(key);
                let wrong = match self.app.editor.search_status {
                    Some(SearchStatus::Invalid) => Some(Error::Other("invalid pattern".into())),
                    _ => None,
                };
                let mut out = Vec::new();
                self.app.prompt_edited(changed, wrong, &mut out);
                self.run(out);
            }
        }
    }

    fn execute(&mut self, text: &str) -> Result<(), Error> {
        let mut out = Vec::new();
        let invocation = self.app.execute(text, &mut out);
        self.run(out);
        let mut out = Vec::new();
        let result = match invocation? {
            Invocation::Nothing => Ok(()),
            Invocation::Edit { name } => {
                self.command(&name);
                self.open_search_prompt();
                self.apply_action();
                Ok(())
            }
            Invocation::Run { id, argument, force } => match id {
                CommandId::AutoCompletion => self.app.configure_completion(&argument, &mut out),
                CommandId::SetLanguage => self.set_language(&argument),
                CommandId::RestartServer => {
                    self.app.restart_language_server(&mut out);
                    Ok(())
                }
                CommandId::VerticalSplit => self.app.split_with_path(true, None, &mut out),
                CommandId::HorizontalSplit => self.app.split_with_path(false, None, &mut out),
                CommandId::Only => self.app.only_window(force, &mut out),
                CommandId::Quit => self.app.close_window(force, &mut out),
                CommandId::Help => {
                    let known = match argument.as_str() {
                        "page_cursor_half_down" => {
                            Some("Move down by half the visible text height.".to_string())
                        }
                        "search_next" => Some("Search forward again.".to_string()),
                        _ => None,
                    };
                    self.app.help(&argument, known)
                }
                CommandId::Mouse => {
                    self.app.configure_mouse(&argument);
                    Ok(())
                }
                CommandId::WriteQuit => match self.app.begin_write(None, &mut out) {
                    Ok(()) => Err(Error::Other("no file name".into())),
                    refused => refused,
                },
                other => panic!("{other:?}"),
            },
        };
        self.run(out);
        result
    }

    fn command(&mut self, name: &str) {
        match name {
            "save_selection" => self.wanted = Some(ApplicationAction::SaveSelection),
            "jump_backward" => {
                self.wanted = Some(ApplicationAction::Jump { forward: false, count: 1 });
            }
            "jump_forward" => {
                self.wanted = Some(ApplicationAction::Jump { forward: true, count: 1 });
            }
            "search_backward" => self.begin_search(true),
            "page_cursor_half_down" => {
                self.wanted = Some(ApplicationAction::HalfPageDown(1));
            }
            "page_cursor_half_up" => self.wanted = Some(ApplicationAction::HalfPageUp(1)),
            "jump_view_left" => {
                self.wanted = Some(ApplicationAction::Window(WindowAction::FocusLeft, 1));
            }
            "jump_view_up" => {
                self.wanted = Some(ApplicationAction::Window(WindowAction::FocusUp, 1));
            }
            "hover" => self.language = Some(LanguageAction::Hover),
            "goto_definition" => self.language = Some(LanguageAction::Definition),
            "goto_reference" => self.language = Some(LanguageAction::References),
            "goto_type_definition" => self.language = Some(LanguageAction::TypeDefinition),
            "goto_implementation" => self.language = Some(LanguageAction::Implementation),
            "select_references_to_symbol_under_cursor" => {
                self.language = Some(LanguageAction::DocumentHighlights);
            }
            "format" => self.language = Some(LanguageAction::FormatDocument),
            other => panic!("{other}"),
        }
    }

    fn set_language(&mut self, name: &str) -> Result<(), Error> {
        let named = LANGUAGES.iter().position(|&known| known == name).map(|id| id as u64);
        let names: Vec<String> = LANGUAGES.iter().map(|name| name.to_string()).collect();
        let set = self.app.set_language(name, Some(0), named, &names)?;
        if let Some(language) = set {
            self.doc().language = language;
            self.sync();
        }
        let shown = self.app.editor.language.map(|id| LANGUAGES[id as usize].to_string());
        self.app.show_language(shown);
        Ok(())
    }

    fn update(&mut self) -> Option<Update> {
        let mut out = Vec::new();
        let action = self.language.take();
        let update = self.app.take_lsp_update(action, self.now, &mut out);
        self.run(out);
        update
    }

    fn server(&mut self, event: ServerEvent) -> (bool, Next) {
        let mut out = Vec::new();
        let handled = self.app.handle_lsp_event(event, self.now, &mut out);
        self.run(out);
        handled
    }

    fn answer(&mut self, update: &Update, result: Result<Answer, Error>) -> bool {
        let document = update.document.as_ref().unwrap();
        let id = update.request.as_ref().unwrap().id;
        let event = ServerEvent::Answer {
            epoch: document.epoch,
            revision: document.snapshot.revision,
            id,
            cancelled: self.cancelled.contains(&Job::Language(id)),
            result,
        };
        self.server(event).0
    }

    fn deadline(&mut self) -> Option<u64> {
        let mut out = Vec::new();
        let due = self.app.completion_deadline(&mut out);
        self.run(out);
        due
    }

    fn poll(&mut self, now: u64) {
        self.now = now;
        let mut out = Vec::new();
        self.app.poll_completion(now, &mut out);
        self.run(out);
    }

    fn expire(&mut self) -> Update {
        let due = self.deadline().expect("scheduled completion");
        self.poll(due);
        self.update().expect("completion update")
    }

    fn waiting(&self) -> bool {
        self.app.input_waiting(false)
    }

    fn message(&self) -> String {
        self.app.message.show()
    }

    fn candidate(&mut self, id: u64, name: &str, resolved: bool) -> CompletionItem {
        self.edits.insert(id, vec![(6, 9, name.to_string())]);
        CompletionItem {
            id,
            label: name.to_string(),
            shown: label_clusters(name),
            detail: format!("fn {name}() -> u32"),
            documentation: "Documented completion with 界 and e\u{301}.".into(),
            resolved,
        }
    }

    fn list(&mut self, resolved: bool) -> Answer {
        Answer::Completion(Completions {
            items: vec![
                self.candidate(1, "answer", resolved),
                self.candidate(2, "another", resolved),
            ],
            incomplete: false,
            limited: false,
        })
    }

    fn automatic_answer(&mut self, incomplete: bool) -> Answer {
        let head = self.primary().head;
        let item = CompletionItem { detail: String::new(), ..self.candidate(1, "answer", true) };
        self.edits.insert(1, vec![(0, head, "answer".into())]);
        Answer::Completion(Completions { items: vec![item], incomplete, limited: false })
    }

    fn menu_shown(&mut self) -> bool {
        let mut out = Vec::new();
        let frame = Frame { width: 120, height: 20, cursor: Some((8, 3)) };
        let menu = self.app.paint_completion(frame, 18, &mut out);
        self.run(out);
        menu.is_some()
    }

    fn start_completion(&mut self) -> Update {
        self.handle(ctrl('x'));
        let update = self.update().unwrap();
        assert!(matches!(update.request.as_ref().unwrap().kind, RequestKind::Completion(_)));
        update
    }
}

/// A file with a language server that has not said anything yet.
fn fixture() -> World {
    let mut world = World::open("// 界\r\nans", (120, 20));
    world.app.enable_lsp();
    world.update();
    world.mode(Mode::Insert);
    world.select((vec![caret(9)], 0));
    world
}

/// A file with a language server that completes.
fn automatic_fixture(source: &str) -> World {
    let mut world = World::open(source, (120, 20));
    world.app.enable_lsp();
    let epoch = world.update().unwrap().document.unwrap().epoch;
    world.server(ServerEvent::Capabilities {
        epoch,
        completion: Some(CompletionOptions { trigger_characters: vec!['.', ':'] }),
    });
    world.server(ServerEvent::Progress {
        epoch,
        message: "rust-analyzer ready".into(),
        failed: false,
    });
    world.mode(Mode::Insert);
    world.select((vec![caret(source.chars().count())], 0));
    world
}

#[test]
fn automatic_completion_waits_for_threshold_and_deadline_without_selecting_an_item() {
    let mut world = automatic_fixture("");
    let now = world.now;
    world.handle_at(key(Key::Char('a')), now);
    assert!(world.deadline().is_none());
    assert!(world.update().unwrap().request.is_none());
    world.handle_at(key(Key::Char('n')), now);
    assert_eq!(world.deadline(), Some(now + 100 * MILLISECOND));
    world.poll(now + 99 * MILLISECOND);
    assert!(world.update().unwrap().request.is_none());
    let request = world.expire();
    assert!(matches!(
        request.request.as_ref().unwrap().kind,
        RequestKind::Completion(CompletionTrigger::Invoked)
    ));
    assert!(world.message().is_empty());
    assert!(!world.app.error);
    assert!(!world.menu_shown());
    let result = world.automatic_answer(false);
    assert!(world.answer(&request, Ok(result)));
    assert!(world.menu_shown());
    assert_eq!(world.app.completion.active.as_ref().unwrap().selected, None);
    world.handle(key(Key::Enter));
    assert_eq!(world.text(), "an\n");
    assert!(world.app.completion.active.is_none());
    assert!(world.deadline().is_none());
}

#[test]
fn automatic_completion_debounces_and_rejects_replies_after_further_typing() {
    let mut world = automatic_fixture("a");
    let now = world.now;
    world.handle_at(key(Key::Char('n')), now);
    let old_due = world.deadline().unwrap();
    world.handle_at(key(Key::Char('s')), now + 50 * MILLISECOND);
    world.poll(old_due);
    assert!(world.update().unwrap().request.is_none());
    assert_eq!(world.deadline(), Some(old_due + 50 * MILLISECOND));
    let old = world.expire();
    let result = world.automatic_answer(false);
    world.handle_at(key(Key::Char('w')), now + 200 * MILLISECOND);
    let id = old.request.as_ref().unwrap().id;
    assert!(world.cancelled.contains(&Job::Language(id)));
    assert!(!world.answer(&old, Ok(result)));
    let newer = world.expire();
    assert_eq!(newer.document.unwrap().snapshot.revision, world.app.editor.revision);
    assert_eq!(world.text(), "answ");
    assert!(newer.request.is_some());
}

#[test]
fn navigation_paste_focus_loss_and_mode_changes_cancel_delayed_and_hidden_completions() {
    let events = [
        key(Key::Left),
        key(Key::Down),
        key(Key::Tab),
        key(Key::Enter),
        key(Key::Escape),
        ctrl('c'),
        Event::Paste("text".into()),
        Event::FocusLost,
    ];
    for (index, event) in events.iter().enumerate() {
        for in_flight in [false, true] {
            let mut world = automatic_fixture("a");
            let now = world.now;
            world.handle_at(key(Key::Char('n')), now);
            let request = if in_flight { Some(world.expire()) } else { None };
            let result = world.automatic_answer(false);
            world.handle_at(event.duplicate(), now + 1000 * MILLISECOND);
            assert!(world.deadline().is_none(), "{event:?}");
            assert!(world.app.completion.active.is_none(), "{event:?}");
            assert!(match world.update() {
                Some(update) => update.request.is_none(),
                None => true,
            });
            if let Some(request) = request {
                assert!(!world.answer(&request, Ok(result)));
            }
            if index == 2 {
                assert_eq!(world.text(), "an\t");
            }
            if index == 3 {
                assert_eq!(world.text(), "an\n");
            }
        }
    }
}

#[test]
fn automatic_trigger_characters_are_immediate_and_incomplete_lists_retrigger() {
    let mut world = automatic_fixture("value");
    world.execute("auto-completion min-length 50").unwrap();
    let now = world.now;
    world.handle_at(key(Key::Char('.')), now);
    assert_eq!(world.deadline(), Some(now));
    let request = world.expire();
    assert!(matches!(
        request.request.as_ref().unwrap().kind,
        RequestKind::Completion(CompletionTrigger::Character('.'))
    ));
    let result = world.automatic_answer(true);
    world.answer(&request, Ok(result));
    world.handle_at(key(Key::Char('a')), now);
    let request = world.expire();
    assert!(matches!(
        request.request.unwrap().kind,
        RequestKind::Completion(CompletionTrigger::Incomplete)
    ));
    world.execute("auto-completion min-length 2").unwrap();
    world.handle_at(key(Key::Char('n')), now);
    let request = world.expire();
    let result = world.automatic_answer(true);
    world.answer(&request, Ok(result));
    world.handle_at(key(Key::Char('s')), now);
    let request = world.expire();
    assert!(matches!(
        request.request.unwrap().kind,
        RequestKind::Completion(CompletionTrigger::Incomplete)
    ));
}

#[test]
fn automatic_completion_refreshes_on_backspace_and_closes_below_threshold() {
    let mut world = automatic_fixture("an");
    let now = world.now;
    world.handle_at(key(Key::Char('s')), now);
    let request = world.expire();
    let result = world.automatic_answer(true);
    world.answer(&request, Ok(result));
    world.handle_at(key(Key::Backspace), now);
    let request = world.expire();
    assert!(matches!(
        request.request.as_ref().unwrap().kind,
        RequestKind::Completion(CompletionTrigger::Incomplete)
    ));
    let result = world.automatic_answer(false);
    world.answer(&request, Ok(result));
    world.handle_at(ctrl('h'), now);
    assert_eq!(world.text(), "a");
    assert!(world.deadline().is_none());
}

#[test]
fn automatic_empty_results_errors_and_dismissal_do_not_reopen_or_report_messages() {
    for error in [false, true] {
        let mut world = automatic_fixture("a");
        world.handle(key(Key::Char('n')));
        let request = world.expire();
        world.answer(
            &request,
            if error {
                Err(Error::Other("temporary failure".into()))
            } else {
                Ok(Answer::Completion(Completions {
                    items: vec![],
                    incomplete: false,
                    limited: false,
                }))
            },
        );
        assert!(world.message().is_empty());
        assert!(!world.app.error);
        assert!(world.app.completion.active.is_none());
        assert!(world.deadline().is_none());
    }
    let mut world = automatic_fixture("a");
    world.handle(key(Key::Char('n')));
    let request = world.expire();
    let result = world.automatic_answer(false);
    world.answer(&request, Ok(result));
    world.handle(ctrl('c'));
    assert_eq!(world.app.editor.mode, Mode::Insert);
    assert!(world.app.completion.active.is_none());
    assert!(world.deadline().is_none());
    world.handle(key(Key::Char('s')));
    assert!(world.deadline().is_some());
}

#[test]
fn automatic_settings_survive_dismissal_and_manual_completion_bypasses_them() {
    let mut world = automatic_fixture("a");
    world.execute("auto-completion delay 250").unwrap();
    world.execute("auto-completion min-length 3").unwrap();
    let now = world.now;
    world.handle_at(key(Key::Char('n')), now);
    assert!(world.deadline().is_none());
    world.handle_at(key(Key::Char('s')), now);
    assert_eq!(world.deadline(), Some(now + 250 * MILLISECOND));
    for argument in ["min-length 0", "min-length 257", "delay 10001", "delay nope", "unknown"] {
        assert!(world.execute(&format!("auto-completion {argument}")).is_err());
    }
    assert_eq!(world.app.completion.config.min_length, 3);
    world.execute("auto-completion off").unwrap();
    assert!(world.deadline().is_none());
    world.handle_at(key(Key::Char('w')), now);
    assert!(world.deadline().is_none());
    let request = world.start_completion();
    assert!(request.request.is_some());
    assert!(!world.app.completion.active.as_ref().unwrap().automatic);
    world.execute("lsp-restart").unwrap();
    assert!(!world.app.completion.config.enabled);
    assert_eq!(world.app.completion.config.delay, 250);
}

#[test]
fn automatic_menu_accepts_only_after_selection_and_old_capabilities_are_ignored() {
    let mut world = automatic_fixture("a");
    assert!(
        !world
            .server(ServerEvent::Capabilities { epoch: u64::MAX, completion: None })
            .0
    );
    world.handle(key(Key::Char('n')));
    let request = world.expire();
    let result = world.automatic_answer(false);
    world.answer(&request, Ok(result));
    world.handle(key(Key::Tab));
    assert_eq!(world.text(), "an");
    world.handle(key(Key::Enter));
    assert_eq!(world.text(), "answer");
    assert_eq!(world.app.editor.mode, Mode::Insert);
    assert!(world.deadline().is_none());
    world.undo();
    assert_eq!(world.text(), "an");
    let mut world = automatic_fixture("界");
    world.handle(key(Key::Char('日')));
    assert!(world.deadline().is_some());
}

#[test]
fn automatic_completion_skips_unavailable_services_multiple_carets_and_external_changes() {
    let mut world = fixture(); // The server has not started yet.
    world.handle(key(Key::Char('w')));
    assert!(world.deadline().is_none());
    assert!(!world.app.error);
    let mut world = automatic_fixture("a");
    world.select((vec![caret(0), caret(1)], 0));
    world.handle(key(Key::Char('n')));
    assert!(world.deadline().is_none());
    let mut world = automatic_fixture("a");
    world.handle(key(Key::Char('n')));
    let head = world.primary().head;
    world.select((vec![caret(head - 1)], 0));
    assert!(world.deadline().is_none());
    world.handle(key(Key::Char('s')));
    world.load(2, "new buffer", None);
    world.views.insert((2, 0), (vec![at(0)], 0));
    world.app.editor = editor(2);
    world.shown = (2, 0);
    world.sync();
    assert!(world.deadline().is_none());
}

#[test]
fn helix_navigation_acceptance_rejection_and_escape_dispatch() {
    let mut world = fixture();
    let request = world.start_completion();
    let result = world.list(true);
    assert!(world.answer(&request, Ok(result)));
    world.handle(key(Key::Tab));
    assert_eq!(world.app.completion.active.as_ref().unwrap().selected, Some(0));
    world.handle(ctrl('n'));
    assert_eq!(world.app.completion.active.as_ref().unwrap().selected, Some(1));
    world.handle(key(Key::BackTab));
    world.handle(key(Key::Enter));
    assert_eq!(world.text(), "// 界\r\nanswer");
    assert_eq!(world.app.editor.mode, Mode::Insert);
    world.undo();
    let request = world.start_completion();
    let result = world.list(true);
    world.answer(&request, Ok(result));
    world.handle(ctrl('p'));
    world.handle(ctrl('c'));
    assert_eq!(world.text(), "// 界\r\nans");
    assert_eq!(world.app.editor.mode, Mode::Insert);
    let request = world.start_completion();
    let result = world.list(true);
    world.answer(&request, Ok(result));
    world.handle(key(Key::Down));
    world.handle(key(Key::Escape));
    assert_eq!(world.text(), "// 界\r\nanswer");
    assert_eq!(world.app.editor.mode, Mode::Normal);
}

#[test]
fn backspace_aliases_refresh_unselected_completions_after_deleting() {
    for event in [key(Key::Backspace), ctrl('h')] {
        let mut world = fixture();
        let old = world.start_completion();
        world.handle(event);
        assert_eq!(world.text(), "// 界\r\nan");
        let newer = world.update().unwrap();
        assert!(matches!(newer.request.as_ref().unwrap().kind, RequestKind::Completion(_)));
        let result = world.list(true);
        assert!(!world.answer(&old, Ok(result)));
        let result = world.list(true);
        assert!(world.answer(&newer, Ok(result)));
    }
}

#[test]
fn resolution_waits_for_imports_preserves_following_input_and_rejects_stale_results() {
    let mut world = fixture();
    let old = world.start_completion();
    world.handle(key(Key::Char('w'))); // Refresh, without selecting a suggestion.
    let newer = world.update().unwrap();
    let result = world.list(false);
    assert!(!world.answer(&old, Ok(result)));
    assert_eq!(world.text(), "// 界\r\nansw");
    world.handle(ctrl('c'));
    let result = world.list(false);
    assert!(!world.answer(&newer, Ok(result)));
    world.undo();
    let request = world.start_completion();
    let result = world.list(false);
    world.answer(&request, Ok(result));
    world.handle(key(Key::Tab));
    let stale = world.update().unwrap();
    world.handle(key(Key::Down));
    let current = world.update().unwrap();
    let item = world.candidate(1, "answer", true);
    assert!(!world.answer(&stale, Ok(Answer::Resolved(item))));
    world.handle(key(Key::Char(';'))); // Implicit acceptance waits for resolve.
    assert!(world.waiting());
    assert_eq!(world.text(), "// 界\r\nans");
    let item = world.candidate(2, "another", true);
    world.edits.get_mut(&2).unwrap().push((0, 0, "use demo::another;\r\n".into()));
    assert!(world.answer(&current, Ok(Answer::Resolved(item))));
    assert!(!world.waiting());
    assert_eq!(world.text(), "use demo::another;\r\n// 界\r\nanother;");
    world.undo(); // Following input is a separate typing group.
    world.undo(); // Replacement and import are one group.
    assert_eq!(world.text(), "// 界\r\nans");
}

#[test]
fn early_navigation_accepts_after_list_and_resolution_and_cancellation_retains_input() {
    let mut world = fixture();
    let request = world.start_completion();
    world.handle(key(Key::Tab));
    world.handle(key(Key::Enter));
    assert!(world.waiting());
    let result = world.list(false);
    world.answer(&request, Ok(result));
    let resolve = world.update().unwrap();
    let item = world.candidate(1, "answer", true);
    world.answer(&resolve, Ok(Answer::Resolved(item)));
    assert_eq!(world.text(), "// 界\r\nanswer");
    world.undo();
    let request = world.start_completion();
    let result = world.list(false);
    world.answer(&request, Ok(result));
    world.handle(key(Key::Tab));
    let resolve = world.update().unwrap();
    world.handle(key(Key::Char(';')));
    world.handle(ctrl('c'));
    assert_eq!(world.text(), "// 界\r\nans;");
    assert!(!world.waiting());
    let item = world.candidate(1, "answer", true);
    assert!(!world.answer(&resolve, Ok(Answer::Resolved(item))));
}

#[test]
fn completion_boxes_keep_cursor_visible_and_fit_above_below_and_at_edges() {
    let mut world = fixture();
    let request = world.start_completion();
    let result = world.list(true);
    world.answer(&request, Ok(result));
    world.handle(key(Key::Tab));
    for (width, height) in [(0u16, 0u16), (1, 1), (8, 3), (24, 8), (80, 12), (120, 20)] {
        for (x, y) in [(0, 0), (width.saturating_sub(1), height.saturating_sub(3))] {
            let body = height.saturating_sub(2);
            let cursor = if width > 0 && height > 0 { Some((x, y)) } else { None };
            let mut out = Vec::new();
            let menu = world
                .app
                .paint_completion(Frame { width, height, cursor }, body, &mut out);
            if let Some(menu) = &menu {
                assert!(!menu.rect.contains(x, y));
                assert!(menu.rect.x + menu.rect.width <= width);
                assert!(menu.rect.y + menu.rect.height <= body);
                if let Some(beside) = &menu.documentation {
                    assert!(!(beside.x <= x && x < beside.x + beside.width && menu.rect.y == y));
                }
            }
            if width == 120 && height == 20 {
                let menu = menu.unwrap();
                assert!(menu.documentation.unwrap().text.contains("Documented completion"));
                assert_eq!(menu.selected, Some(0));
            }
        }
    }
    world.insert("x");
    assert!(!world.menu_shown());
    assert!(world.app.completion.active.is_none());
}

#[test]
fn cancel_and_resize_keep_the_document_and_ignore_late_results() {
    for event in [key(Key::Escape), ctrl('c')] {
        let mut world = World::new("abc", (80, 24));
        world.press(" R");
        let job = world.app.take_clipboard_job(&mut Vec::new()).unwrap();
        world.handle(Event::Resize(40, 12));
        assert_eq!(world.app.size(), (40, 12));
        assert!(world.waiting());
        world.handle(event);
        assert!(world.cancelled.contains(&Job::Clipboard(job.id)));
        let mut out = Vec::new();
        assert!(!world.app.handle_clipboard_result(job.id, Ok(Outcome::Ready), &mut out));
        world.run(out);
        assert!(!world.waiting());
        assert_eq!(world.text(), "abc");
    }
}

#[test]
fn stale_pastes_cannot_edit_a_new_cursor_view_mode_buffer_or_revision() {
    for kind in 0..5 {
        let mut world = World::new("abc", (80, 24));
        world.pasted = "replacement".into();
        world.press(" R");
        let job = world.app.take_clipboard_job(&mut Vec::new()).unwrap();
        match kind {
            0 => world.put(1),
            1 => world.mode(Mode::Select),
            2 => {
                world.run(vec![Effect::DuplicateView(1), Effect::FocusView(1)]);
            }
            3 => {
                world.load(2, "other", Some(12));
                let mut out = Vec::new();
                world
                    .app
                    .open_window_file(
                        Prepared::New(Buffer {
                            editor: editor(2),
                            automatic_language: true,
                        }),
                        &mut out,
                    )
                    .unwrap();
                world.run(out);
            }
            _ => {
                world.mode(Mode::Insert);
                world.select((vec![caret(0)], 0));
                world.insert("z");
                world.mode(Mode::Normal);
            }
        }
        let before = world.text();
        let mut out = Vec::new();
        assert!(!world.app.handle_clipboard_result(job.id, Ok(Outcome::Ready), &mut out));
        world.run(out);
        assert!(!world.waiting());
        assert_eq!(world.text(), before);
        assert!(world.applied.is_empty());
    }
}

#[test]
fn an_old_cancelled_result_does_not_discard_the_next_request() {
    let mut world = World::new("abc", (80, 24));
    world.pasted = "X".into();
    world.press(" p");
    let old = world.app.take_clipboard_job(&mut Vec::new()).unwrap();
    world.handle(key(Key::Escape));
    world.press(" P");
    assert!(!world.app.handle_clipboard_result(old.id, Ok(Outcome::Ready), &mut Vec::new()));
    assert!(world.waiting());
    let job = world.app.take_clipboard_job(&mut Vec::new()).unwrap();
    let mut out = Vec::new();
    assert!(world.app.handle_clipboard_result(job.id, Ok(Outcome::Ready), &mut out));
    world.run(out);
    assert!(!world.waiting());
    assert!(!world.app.error);
    assert_eq!(world.text(), "Xabc");
}

#[test]
fn failed_and_finished_transfers_report_and_release_input() {
    let mut world = World::new("abc", (80, 24));
    world.press(" p");
    assert_eq!(world.message(), "reading clipboard...");
    let job = world.app.take_clipboard_job(&mut Vec::new()).unwrap();
    assert!(world.app.take_clipboard_job(&mut Vec::new()).is_none());
    let failure = Error::Other("clipboard is gone".into());
    assert!(world.app.handle_clipboard_result(job.id, Err(failure), &mut Vec::new()));
    assert!(world.app.error);
    assert_eq!(world.message(), "clipboard is gone");
    assert!(!world.waiting());
    for (count, expected) in [
        (1, "yanked 1 selection to clipboard"),
        (2, "yanked 2 selections to clipboard"),
    ] {
        let mut out = Vec::new();
        world.app.begin_clipboard(ClipboardAction::Yank, 1, &mut out);
        assert_eq!(world.message(), "copying to clipboard...");
        let job = world.app.take_clipboard_job(&mut out).unwrap();
        assert!(world.app.handle_clipboard_result(job.id, Ok(Outcome::Copied(count)), &mut out));
        assert_eq!(world.message(), expected);
    }
}

#[test]
fn command_history_reexecutes_and_search_history_updates_equal_length_previews() {
    let mut world = World::new("aa bb", (80, 24));
    world.execute("language rust").unwrap();
    world.execute("language text").unwrap();
    world.app.prompt = Some(ActivePrompt::command());
    world.prompt_key(Key::Up);
    world.prompt_key(Key::Ctrl('p'));
    assert_eq!(world.app.prompt.as_ref().unwrap().input.text, "language rust");
    world.prompt_key(Key::Enter);
    assert_eq!(world.app.editor.language, Some(0));
    world.doc().language = None;
    world.sync();
    world.app.prompt = Some(ActivePrompt::command());
    world.prompt_key(Key::Enter);
    assert_eq!(world.app.editor.language, Some(0));
    for text in ["aa", "bb"] {
        world.begin_search(false);
        world.open_search_prompt();
        for ch in text.chars() {
            world.prompt_key(Key::Char(ch));
        }
        world.prompt_key(Key::Enter);
    }
    world.begin_search(false);
    world.open_search_prompt();
    world.prompt_key(Key::Up);
    assert_eq!(world.start(), 3);
    world.prompt_key(Key::Up);
    assert_eq!(world.start(), 0);
    world.prompt_key(Key::Escape);
    assert!(world.app.prompt.is_none());
}

#[test]
fn backward_forward_counts_duplicates_and_branching_follow_live_selection() {
    let mut world = World::new("abcdefghijk", (80, 24));
    for position in [0, 3, 6] {
        world.put(position);
        world.execute("save_selection").unwrap();
    }
    // The most recent saved selection is also the live position: skip it.
    world.handle(ctrl('o'));
    assert_eq!(world.start(), 3);
    world.handle(ctrl('i'));
    assert_eq!(world.start(), 6);
    world.execute("jump_backward").unwrap();
    world.handle(key(Key::Tab));
    assert_eq!(world.start(), 6);
    world.press("2");
    world.handle(ctrl('o'));
    assert_eq!(world.start(), 0);
    world.press("2");
    world.handle(ctrl('i'));
    assert_eq!(world.start(), 6);
    world.jump(false, usize::MAX).unwrap();
    world.jump(true, usize::MAX).unwrap();
    assert_eq!(world.start(), 6);
    world.execute("jump_backward").unwrap();
    world.put(4);
    world.execute("save_selection").unwrap();
    world.put(9);
    world.execute("jump_forward").unwrap(); // Old forward branch was discarded.
    assert_eq!(world.start(), 9);
    world.execute("jump_backward").unwrap();
    assert_eq!(world.start(), 4);
    world.execute("jump_forward").unwrap();
    assert_eq!(world.start(), 9);
}

#[test]
fn history_capacity_shares_selection_storage_and_failed_destinations_preserve_history() {
    let mut world = World::new(&"x".repeat(100), (80, 24));
    for position in 0..80 {
        world.put(position);
        world.app.record_jump();
    }
    assert_eq!(world.app.jumps.list[0].1.entries.len(), CAPACITY);
    world.put(90);
    world.jump(false, CAPACITY).unwrap();
    assert_eq!(world.start(), 49); // Saving the live return location evicts 48.
    world.jump(true, CAPACITY - 1).unwrap();
    assert_eq!(world.start(), 90);
    let history = world.app.jumps.list[0].1.duplicate();
    assert!(Arc::ptr_eq(
        &history.entries[0].selections,
        &world.app.jumps.list[0].1.entries[0].selections
    ));
    world.app.push_jump(Jump::new(
        99,
        &Selections { ranges: vec![caret(0)], primary: 0 },
    ));
    let position = world.app.jumps.list[0].1.cursor;
    let length = world.app.jumps.list[0].1.entries.len();
    assert!(world.jump(false, 1).is_err());
    assert_eq!(world.app.jumps.list[0].1.cursor, position);
    assert_eq!(world.app.jumps.list[0].1.entries.len(), length);
    assert_eq!(world.start(), 90);
}

#[test]
fn each_pane_keeps_its_own_history() {
    let mut world = World::new("abcdefghij", (100, 24));
    world.execute("save_selection").unwrap();
    world.put(3);
    world.execute("vsplit").unwrap();
    world.execute("jump_backward").unwrap();
    assert_eq!(world.start(), 3); // The new pane cannot use the other's history.
    world.execute("save_selection").unwrap();
    world.put(6);
    world.execute("jump_backward").unwrap();
    assert_eq!(world.start(), 3);
    let mut out = Vec::new();
    world.app.focus_window(0, &mut out);
    world.run(out);
    world.execute("jump_backward").unwrap();
    assert_eq!(world.start(), 0);
    let mut out = Vec::new();
    world.app.focus_window(1, &mut out);
    world.run(out);
    world.execute("jump_forward").unwrap();
    assert_eq!(world.start(), 6);
    // A file is opened over the document, which the history leads back to.
    world.load(2, "target", Some(12));
    let mut out = Vec::new();
    world.app.open_window_from_picker(other(2, 12), &mut out).unwrap();
    world.run(out);
    assert_eq!(world.app.editor.document, 2);
    world.execute("jump_backward").unwrap();
    assert_eq!(world.app.editor.document, 1);
    assert_eq!(world.start(), 6);
    world.execute("jump_forward").unwrap();
    assert_eq!(world.app.editor.document, 2);
}

#[test]
fn dirty_shared_views_can_close_but_the_last_view_is_protected() {
    let mut world = World::new("abc", (80, 24));
    world.press("iX");
    world.handle(key(Key::Escape));
    world.execute("vsplit").unwrap();
    world.execute("hsplit").unwrap();
    world.execute("only").unwrap();
    assert_eq!(world.app.windows.panes.len(), 1);
    assert_eq!(world.text(), "Xabc");
    assert!(world.execute("q").is_err());
    world.execute("vsplit").unwrap();
    world.execute("q").unwrap();
    assert!(!world.app.should_quit());
    assert!(world.execute("q").is_err());
    world.execute("q!").unwrap();
    assert!(world.app.should_quit());
}

#[test]
fn closed_documents_leave_no_dangling_checkpoints() {
    let mut world = World::new("abcdefghij", (100, 24));
    world.execute("save_selection").unwrap();
    world.load(2, "target", Some(12));
    let mut out = Vec::new();
    world.app.split_with_path(true, Some(other(2, 12)), &mut out).unwrap();
    world.run(out);
    world.execute("save_selection").unwrap();
    // The other pane looks at the document too, and leads back to it.
    let mut out = Vec::new();
    world.app.focus_window(0, &mut out);
    world.run(out);
    let mut out = Vec::new();
    world.app.open_window_from_picker(Prepared::Existing(2), &mut out).unwrap();
    world.run(out);
    world.execute("save_selection").unwrap();
    let mut out = Vec::new();
    world.app.open_window_file(Prepared::Existing(1), &mut out).unwrap();
    world.run(out);
    let history = &world.app.jumps.list[0].1;
    assert!(history.entries.iter().any(|jump| jump.document == 2));
    let mut out = Vec::new();
    world.app.focus_window(1, &mut out);
    world.run(out);
    assert_eq!(world.app.editor.document, 2);
    // Its last window closes it, and its checkpoints go with it.
    world.execute("q").unwrap();
    assert_eq!(world.app.editor.document, 1);
    assert!(!world.app.document_open(2));
    assert_eq!(world.app.jumps.list.len(), 1);
    let history = &world.app.jumps.list[0].1;
    assert!(history.entries.iter().all(|jump| jump.document == 1));
    assert!(history.cursor <= history.entries.len());
    world.execute("jump_backward").unwrap();
    assert_eq!(world.app.editor.document, 1);
}

#[test]
fn a_history_moves_only_once_the_selections_are_restored() {
    let mut world = World::new("abcdefghij", (100, 24));
    world.execute("save_selection").unwrap();
    world.put(3);
    let before = world.app.jumps.list[0].1.cursor;
    let length = world.app.jumps.list[0].1.entries.len();
    let plan = world.app.navigate_jump(false, 1).unwrap();
    let mut out = Vec::new();
    world.app.reach_jump(&plan, &mut out).unwrap();
    world.run(out);
    assert_eq!(world.app.jumps.list[0].1.cursor, before);
    let failure = Err(Error::Other("stale".into()));
    assert!(world.app.finish_jump(plan, failure).is_err());
    assert_eq!(world.app.jumps.list[0].1.cursor, before);
    assert_eq!(world.app.jumps.list[0].1.entries.len(), length);
    world.execute("jump_backward").unwrap();
    assert_eq!(world.start(), 0);
    assert_eq!(world.app.jumps.list[0].1.entries.len(), length + 1);
}

/// What the files hold, and what was last said about them.
struct Disk {
    files: HashMap<u64, Option<Result<String, String>>>,
    notices: HashMap<u64, Option<String>>,
}

/// A file that was looked at.
struct Look {
    probe: Probe,
    outcome: reload::Outcome,
    text: String,
}

impl Disk {
    fn new(files: &[(u64, &str)]) -> Disk {
        Disk {
            files: files.iter().map(|&(file, text)| (file, Some(Ok(text.into())))).collect(),
            notices: HashMap::new(),
        }
    }

    fn write(&mut self, file: u64, text: &str) {
        self.files.insert(file, Some(Ok(text.into())));
    }

    fn look(&self, world: &World, probes: &[Probe]) -> Vec<Look> {
        let look = |&probe: &Probe| {
            let doc = &world.docs[&probe.document];
            let (outcome, text) = match &self.files[&probe.file] {
                None => (reload::Outcome::Missing, String::new()),
                Some(Err(reason)) => (reload::Outcome::Error(reason.clone()), String::new()),
                Some(Ok(text)) if text.chars().eq(doc.saved.iter().copied()) => {
                    (reload::Outcome::Unchanged, String::new())
                }
                Some(Ok(text)) if doc.text != doc.saved => {
                    (reload::Outcome::Conflict, text.clone())
                }
                Some(Ok(text)) => (reload::Outcome::Reload, text.clone()),
            };
            Look { probe, outcome, text }
        };
        probes.iter().map(look).collect()
    }

    fn receive(
        &mut self,
        world: &mut World,
        request: u64,
        looks: Vec<Look>,
        saved: &[u64],
        now: u64,
    ) -> bool {
        if !world.app.handle_file_poll(request, now) {
            return false;
        }
        let mut redraw = false;
        for Look { probe, outcome, text } in looks {
            let document = probe.document;
            if !world.app.accepts_file(probe, saved.contains(&document)) {
                continue;
            }
            let doc = &world.docs[&document];
            let dirty = doc.text != doc.saved;
            let path = format!("{}.txt", probe.file);
            let notice = self.notices.entry(document).or_default();
            let report = match observe(outcome, dirty, path.clone()) {
                Observed::Skip => Report::Nothing,
                Observed::Settle => {
                    *notice = None;
                    Report::Nothing
                }
                Observed::Warn(message) if *notice == Some(message.show()) => Report::Nothing,
                Observed::Warn(message) => {
                    *notice = Some(message.show());
                    Report::Warned(message)
                }
                Observed::Apply => {
                    *notice = None;
                    world.reload(document, &text);
                    let mut out = Vec::new();
                    world.app.after_reload(document, false, true, now, &mut out);
                    world.run(out);
                    Report::Reloaded(path)
                }
            };
            redraw = world.app.report_file(redraw, report);
        }
        redraw
    }

    fn poll(&mut self, world: &mut World) -> bool {
        let now = world.app.file_poll_deadline().unwrap();
        let batch = world.app.take_file_poll(now).unwrap();
        let looks = self.look(world, &batch.probes);
        self.receive(world, batch.request, looks, &[], now)
    }
}

impl World {
    /// Replaces the text of a document by that of its file, as one step.
    fn reload(&mut self, document: u64, text: &str) {
        let ranges = if document == self.shown.0 { self.ranges() } else { (vec![at(0)], 0) };
        let doc = self.docs.get_mut(&document).unwrap();
        doc.undo.push((doc.text.clone(), ranges));
        doc.redo.clear();
        doc.typing = false;
        doc.text = text.chars().collect();
        doc.saved = doc.text.clone();
        doc.revision += 1;
        let revision = doc.revision;
        match self.app.windows.buffers.iter_mut().find(|b| b.editor.document == document) {
            Some(buffer) => {
                buffer.editor.revision = revision;
                buffer.editor.dirty = false;
            }
            None => self.select((vec![at(0)], 0)),
        }
    }

    fn contents(&self, document: u64) -> String {
        self.docs[&document].text.iter().collect()
    }
}

#[test]
fn poll_only_visible_documents_and_skip_scratch_and_hidden_splits() {
    let mut world = World::open("one", (100, 24));
    world.load(2, "two", Some(12));
    let mut disk = Disk::new(&[(11, "one"), (12, "two")]);
    let mut out = Vec::new();
    world.app.split_with_path(true, Some(other(2, 12)), &mut out).unwrap();
    world.run(out);
    assert_eq!(world.app.visible_files().len(), 2);
    world.handle(Event::Resize(10, 4));
    let probes = world.app.visible_files();
    assert_eq!(probes.len(), 1);
    assert_eq!(probes[0].file, 12);
    world.app.enable_file_polling(world.now);
    disk.write(11, "external one");
    assert!(!disk.poll(&mut world));
    assert_eq!(world.contents(1), "one");
    world.handle(Event::Resize(100, 24));
    assert!(disk.poll(&mut world));
    assert_eq!(world.contents(1), "external one");
    assert!(!world.app.windows.buffers[0].editor.dirty);
    let mut scratch = App::from_document(editor(1), (80, 24));
    scratch.enable_file_polling(0);
    assert!(scratch.take_file_poll(scratch.file_poll_deadline().unwrap()).is_none());
}

#[test]
fn shared_panes_read_a_file_once_and_reads_do_not_overlap() {
    let mut world = World::open("fn main() {}\n", (100, 24));
    let mut disk = Disk::new(&[(11, "fn main() {}\n")]);
    world.execute("vsplit").unwrap();
    let now = world.now;
    world.app.enable_file_polling(now);
    assert!(world.app.take_file_poll(now + reload::INTERVAL - MILLISECOND).is_none());
    disk.write(11, "// external\nfn main() {}\n");
    let batch = world.app.take_file_poll(now + reload::INTERVAL).unwrap();
    assert_eq!(batch.probes.len(), 1, "shared panes should read a file once");
    assert!(
        world.app.take_file_poll(now + 3 * reload::INTERVAL).is_none(),
        "do not overlap reads"
    );
    let looks = disk.look(&world, &batch.probes);
    assert!(disk.receive(&mut world, batch.request, looks, &[], now + reload::INTERVAL));
    assert_eq!(world.text(), "// external\nfn main() {}\n");
    assert!(!world.app.is_dirty());
    assert!(!disk.poll(&mut world), "unchanged files don't redraw");
}

#[test]
fn unsaved_edits_are_kept_until_an_explicit_reload() {
    let mut world = World::open("before", (80, 24));
    let mut disk = Disk::new(&[(11, "before")]);
    world.app.enable_file_polling(world.now);
    world.mode(Mode::Insert);
    world.select((vec![caret(0)], 0));
    world.insert("local ");
    disk.write(11, "remote");
    assert!(disk.poll(&mut world));
    assert!(world.message().contains("unsaved edits kept"));
    assert!(world.app.error);
    assert_eq!(world.text(), "local before");
    assert!(!disk.poll(&mut world), "don't repeat the warning every poll");
    assert!(world.app.reload_current_file(false).is_err());
    world.app.reload_current_file(true).unwrap();
    world.reload(1, "remote");
    assert_eq!(world.text(), "remote");
    assert!(!world.app.is_dirty());
    world.undo();
    assert_eq!(world.text(), "local before");
    assert!(world.app.is_dirty());
    assert!(!disk.poll(&mut world));
    world.redo();
    assert!(!world.app.is_dirty());
}

#[test]
fn late_reads_cannot_overwrite_typing_a_save_or_a_new_path() {
    for action in ["edit", "save", "save-as"] {
        let mut world = World::open("before", (80, 24));
        let mut disk = Disk::new(&[(11, "before")]);
        world.app.enable_file_polling(world.now);
        disk.write(11, "remote");
        let now = world.app.file_poll_deadline().unwrap();
        let batch = world.app.take_file_poll(now).unwrap();
        let looks = disk.look(&world, &batch.probes);
        let mut saved = Vec::new();
        match action {
            "edit" => {
                world.mode(Mode::Insert);
                world.insert("local ");
            }
            "save" => saved.push(1),
            _ => {
                world.doc().file = Some(13);
                world.sync();
            }
        }
        let text = world.text();
        let revision = world.app.editor.revision;
        assert!(!disk.receive(&mut world, batch.request, looks, &saved, now));
        assert_eq!(world.text(), text);
        assert_eq!(world.app.editor.revision, revision);
    }
}

#[test]
fn missing_and_invalid_files_keep_the_text() {
    let mut world = World::open("before", (80, 24));
    let mut disk = Disk::new(&[(11, "before")]);
    world.app.enable_file_polling(world.now);
    assert!(!disk.poll(&mut world));
    disk.files.insert(11, None);
    assert!(disk.poll(&mut world));
    assert!(world.message().contains("removed on disk"));
    assert_eq!(world.text(), "before");
    disk.files.insert(11, Some(Err("stream did not contain valid UTF-8".into())));
    assert!(disk.poll(&mut world));
    assert_eq!(world.text(), "before");
    disk.write(11, "🦀\r\nnew\r\n");
    assert!(disk.poll(&mut world));
    assert_eq!(world.text(), "🦀\r\nnew\r\n");
    assert!(!world.app.is_dirty());
}

#[test]
fn switching_windows_cancels_a_search_tied_to_the_old_view() {
    let mut world = World::new("origin target", (80, 24));
    world.execute("vsplit").unwrap();
    world.press("/target");
    assert!(world.app.prompt.is_some());
    let mut out = Vec::new();
    world.app.focus_window(0, &mut out);
    world.run(out);
    let mut out = Vec::new();
    assert!(!world.app.handle_search_result(Ok(SearchCompletion::Ignored), &mut out));
    assert!(world.app.prompt.is_none());
    assert_eq!(world.start(), 0);
}

#[test]
fn search_events_accept_repeat_reverse_wrap_and_edit_the_selected_match() {
    let mut world = World::new("cat bat cat cat", (50, 8));
    world.press("/cat");
    assert_eq!((world.primary().start(), world.primary().end()), (8, 11));
    world.handle(key(Key::Enter));
    world.press("2n");
    assert_eq!(world.start(), 0);
    world.press("nN");
    assert_eq!(world.start(), 0);
    world.press("?cat");
    let prompt = world.app.prompt.as_ref().unwrap();
    assert_eq!(prompt.prefix("?".into()), "?");
    assert_eq!(prompt.input.text, "cat");
    world.handle(key(Key::Enter));
    world.press("n");
    assert_eq!(world.start(), 0);
    world.press("d");
    assert_eq!(world.text(), " bat cat cat");
    world.press("u");
    assert!(!world.app.is_dirty());
}

#[test]
fn unmatched_search_reports_failure_and_backspace_recovers_from_the_origin() {
    let mut world = World::new("x cat cater", (70, 8));
    let original = world.ranges();
    world.press("/cater");
    assert_eq!(world.start(), 6);
    world.handle(key(Key::Backspace));
    world.handle(key(Key::Backspace));
    assert_eq!(world.start(), 2);
    world.press("z");
    assert_eq!(world.ranges(), original);
    assert_eq!(world.app.command_line().text, "no matches");
    assert!(world.app.command_line().error);
    world.handle(key(Key::Enter));
    assert!(world.app.prompt.is_some());
    world.handle(key(Key::Left));
    assert!(world.app.error);
    world.handle(key(Key::Delete));
    assert!(!world.app.error);
    assert_eq!(world.start(), 2);
    world.handle(key(Key::Enter));
    assert!(world.app.prompt.is_none());
    world.press("n");
    assert_eq!(world.start(), 6);
}

#[test]
fn search_prompt_paste_unicode_resize_empty_accept_and_control_c_are_safe() {
    let query = "界e\u{301}🦀".repeat(15);
    let source = format!("before\n{query}\nafter");
    let mut world = World::new(&source, (12, 5));
    let original = world.ranges();
    world.press("/");
    world.handle(Event::Paste(format!("{query}\r\n")));
    assert_eq!(world.app.prompt.as_ref().unwrap().input.text, query);
    assert_eq!(world.app.editor.search_status, Some(SearchStatus::Match));
    for (width, height) in [(1, 1), (0, 0), (80, 24)] {
        world.handle(Event::Resize(width, height));
        assert_eq!(world.app.size(), (width, height));
    }
    world.handle(ctrl('c'));
    assert_eq!(world.ranges(), original);
    assert!(world.app.prompt.is_none());
    world.press("/");
    world.handle(key(Key::Enter));
    assert!(world.app.prompt.is_none());
    assert_eq!(world.ranges(), original);
    assert!(!world.app.should_quit());
    assert!(!world.app.is_dirty());
    world.press("i/?nN");
    assert!(world.text().starts_with("/?nN"));
}

#[test]
fn control_c_comments_document_text_and_cancels_prefixes_and_prompts() {
    let mut world = World::new("let x = 1;\n", (80, 24));
    world.handle(ctrl('c'));
    assert_eq!(world.text(), "// let x = 1;\n");
    world.press("r");
    world.handle(ctrl('c'));
    assert_eq!(world.text(), "// let x = 1;\n");
    assert!(!world.app.editor.keys_pending);
    world.press(":write");
    world.handle(ctrl('c'));
    assert!(world.app.prompt.is_none());
    world.handle(ctrl('c'));
    assert_eq!(world.text(), "let x = 1;\n");
}

#[test]
fn paste_in_normal_or_prompt_modes_cannot_execute_commands() {
    let mut world = World::new("", (80, 24));
    world.handle(Event::Paste(":q!\r\n".into()));
    assert!(!world.app.should_quit());
    assert_eq!(world.text(), "");
    assert_eq!(world.message(), "enter insert mode to paste");
    world.press(":");
    world.handle(Event::Paste("q!\r\n".into()));
    assert!(!world.app.should_quit());
    world.handle(key(Key::Escape));
    assert!(world.app.prompt.is_none());
    assert!(!world.app.should_quit());
}

#[test]
fn a_colon_in_insert_mode_is_text_and_resize_is_safe() {
    let mut world = World::new("", (80, 24));
    world.press("i:w");
    assert_eq!(world.text(), ":w");
    world.handle(Event::Resize(1, 1));
    assert_eq!(world.app.paint_windows().panes.len(), 1);
    assert_eq!(world.app.size(), (1, 1));
}

#[test]
fn prompt_register_insertion_uses_the_first_fragment_at_the_cursor_without_submitting() {
    let mut world = World::new("abc", (80, 24));
    world.registers.insert('a', "界e\u{301}\n".into());
    world.press(":xy");
    world.handle(key(Key::Home));
    world.handle(ctrl('r'));
    assert!(world.app.prompt.as_ref().unwrap().input.register_pending);
    assert_eq!(world.app.hint_source(), HintSource::Registers);
    world.press("a");
    assert_eq!(world.app.prompt.as_ref().unwrap().input.text, "界e\u{301}xy");
    assert_eq!(world.line.1, "界e\u{301}".chars().count());
    assert_eq!(world.text(), "abc");
    assert!(!world.app.should_quit());
    world.handle(ctrl('r'));
    world.handle(key(Key::Escape));
    assert!(world.app.prompt.is_some());
    assert!(!world.app.prompt.as_ref().unwrap().input.register_pending);
    world.handle(key(Key::Escape));
    assert!(world.app.prompt.is_none());
}

#[test]
fn register_insertion_updates_search_previews() {
    let mut world = World::new("find cat", (80, 24));
    world.registers.insert('a', "cat".into());
    world.press("/");
    world.handle(ctrl('r'));
    world.press("a");
    assert_eq!(world.app.prompt.as_ref().unwrap().input.text, "cat");
    assert_eq!((world.primary().start(), world.primary().end()), (5, 8));
    world.handle(key(Key::Enter));
    assert!(world.app.prompt.is_none());
    assert_eq!(world.text(), "find cat");
}

#[test]
fn large_insert_repeats_keep_resize_and_cancellation_live() {
    for cancel in [key(Key::Escape), ctrl('c')] {
        let mut world = World::new("a", (80, 24));
        world.press("aX");
        world.handle(key(Key::Escape));
        world.press("1000000.");
        assert!(world.waiting());
        let steps = world.app.advance_repeat().unwrap();
        assert_eq!(steps, 64);
        world.doc().undo.push((vec!['a', 'X'], (vec![at(0)], 0)));
        let inserted: Vec<char> = vec!['X'; steps];
        world.doc().text.extend(inserted);
        world.doc().revision += 1;
        world.repeat -= steps;
        world.sync();
        let mut out = Vec::new();
        assert!(world.app.repeat_advanced(Ok(true), &mut out));
        world.run(out);
        assert!(world.text().len() > 2);
        world.handle(Event::Resize(50, 12));
        assert_eq!(world.app.size(), (50, 12));
        assert!(world.app.editor.repeat_pending);
        world.handle(cancel);
        assert!(!world.waiting());
        assert_eq!(world.app.editor.mode, Mode::Normal);
        assert!(world.app.advance_repeat().is_none());
        world.press("u");
        assert_eq!(world.text(), "aX");
    }
}

#[test]
fn control_s_creates_undo_and_jump_checkpoints_without_saving() {
    let mut world = World::new("abc def", (80, 24));
    let selection = (
        vec![
            Selection { anchor: 0, head: 2 },
            Selection { anchor: 7, head: 4 },
        ],
        1,
    );
    world.select(selection.clone());
    world.handle(ctrl('s'));
    assert!(!world.app.error);
    assert_eq!(world.message(), "jump checkpoint saved");
    world.put(0);
    world.execute("jump_backward").unwrap();
    assert_eq!(world.ranges(), selection);
    world.put(4);
    world.press("ihello");
    world.handle(ctrl('s'));
    assert!(world.app.is_dirty());
    assert_eq!(world.app.editor.mode, Mode::Insert);
    assert!(!world.app.error);
    world.press(" world");
    world.undo();
    assert_eq!(world.text(), "abc hellodef");
    world.undo();
    assert_eq!(world.text(), "abc def");
}

#[test]
fn failed_save_closes_typing_without_marking_the_buffer_saved() {
    let mut world = World::new("", (80, 24));
    world.press("iab");
    assert!(world.execute("wq").is_err());
    assert!(!world.app.should_quit());
    assert!(world.app.is_dirty());
    world.press("cd");
    assert_eq!(world.doc().undo.len(), 2);
    world.undo();
    assert_eq!(world.text(), "ab");
    assert!(world.app.is_dirty());
    world.undo();
    assert!(!world.app.is_dirty());
}

#[test]
fn bracketed_paste_has_its_own_undo_step_between_typed_text() {
    let mut world = World::new("", (80, 24));
    world.press("iab");
    world.handle(Event::Paste("e\u{301}🦀\r\n".into()));
    world.press("cd");
    world.handle(key(Key::Escape));
    assert_eq!(world.doc().undo.len(), 3);
    world.press("u");
    assert_eq!(world.text(), "abe\u{301}🦀\r\n");
    world.press("u");
    assert_eq!(world.text(), "ab");
    world.press("u");
    assert!(!world.app.is_dirty());
    world.press("3U");
    assert_eq!(world.text(), "abe\u{301}🦀\r\ncd");
}

/// A file with a language server, of which nothing is known yet.
fn served(text: &str, size: (u16, u16)) -> World {
    let mut world = World::open(text, size);
    world.app.enable_lsp();
    world.update().unwrap();
    world
}

fn issue(world: &mut World, command: &str) -> Update {
    world.execute(command).unwrap();
    let update = world.update().unwrap();
    assert!(update.request.is_some());
    update
}

#[test]
fn changing_language_restarts_the_session_and_invalidates_server_metadata() {
    let mut world = served("fn target() {}\nfn main() { target(); }\n", (80, 12));
    let mut previous_epoch = world.app.language.epoch;
    for language in ["markdown", "shell", "typescript", "tsx", "javascript", "jsx", "rust"] {
        world.execute(&format!("language {language}")).unwrap();
        let document = world.update().unwrap().document.unwrap();
        assert!(document.epoch > previous_epoch);
        assert_eq!(LANGUAGES[document.language as usize], language);
        assert!(world.app.completion_options().is_none());
        assert!(
            !world
                .server(ServerEvent::Capabilities {
                    epoch: previous_epoch,
                    completion: Some(CompletionOptions { trigger_characters: vec![] }),
                })
                .0
        );
        world.server(ServerEvent::Capabilities {
            epoch: document.epoch,
            completion: Some(CompletionOptions { trigger_characters: vec!['.'] }),
        });
        world.server(ServerEvent::Progress {
            epoch: document.epoch,
            message: "server ready".into(),
            failed: false,
        });
        assert!(world.app.language_status().contains(&format!("{language}-server")));
        assert!(world.app.completion_options().is_some());
        previous_epoch = document.epoch;
    }
    world.execute("language text").unwrap();
    assert!(world.update().unwrap().document.is_none());
    assert!(world.app.completion_options().is_none());
    assert_eq!(world.app.language_status(), "");
}

#[test]
fn hover_is_rendered_and_late_replies_cannot_survive_keys_edits_or_restart() {
    let mut world = served("fn target() {}\nfn main() { target(); }\n", (80, 12));
    let request = issue(&mut world, "hover");
    assert!(world.answer(&request, Ok(Answer::Hover("fn target()\nDocumentation".into()))));
    assert!(world.app.language.popup.as_ref().unwrap().contains("Documentation"));
    let selections = world.ranges();
    world.handle(ctrl('d'));
    assert!(world.app.language.popup.is_some());
    assert_eq!(world.ranges(), selections);
    world.handle(key(Key::Escape));
    world.update();
    assert!(world.app.language.popup.is_none());
    let request = issue(&mut world, "hover");
    for ch in ['l', 'h'] {
        world.handle(key(Key::Char(ch)));
        world.update();
    }
    assert!(!world.answer(&request, Ok(Answer::Hover("stale".into()))));
    let request = issue(&mut world, "hover");
    world.mode(Mode::Insert);
    world.insert(" ");
    world.update();
    assert!(!world.answer(&request, Ok(Answer::Hover("stale".into()))));
    let request = issue(&mut world, "hover");
    world.execute("lsp-restart").unwrap();
    world.update();
    assert!(!world.answer(&request, Ok(Answer::Hover("stale".into()))));
}

#[test]
fn reference_requests_reject_late_results_and_release_input_on_cancel_error_and_empty() {
    for command in [
        "goto_reference",
        "goto_type_definition",
        "goto_implementation",
        "select_references_to_symbol_under_cursor",
    ] {
        let mut world = served("fn target() {}\nfn main() { target(); }\n", (80, 12));
        let request = issue(&mut world, command);
        assert!(world.waiting());
        world.handle(key(Key::Escape));
        world.update();
        assert!(!world.waiting());
        assert!(!world.answer(&request, Ok(Answer::Highlights(false))));
        let request = issue(&mut world, command);
        assert!(world.answer(&request, Err(Error::Other("unsupported request".into()))));
        assert!(!world.waiting());
        assert!(world.message().contains("unsupported request"));
        let request = issue(&mut world, command);
        world.put(1);
        assert!(!world.answer(&request, Ok(Answer::Highlights(false))));
        world.update();
        assert!(!world.waiting());
        let request = issue(&mut world, command);
        assert!(world.answer(&request, Ok(Answer::Highlights(false))));
        assert!(!world.waiting());
    }
}

#[test]
fn save_as_changes_session_and_unavailable_services_report_without_waiting() {
    let mut world = served("fn target() {}\nfn main() { target(); }\n", (80, 12));
    let old_epoch = world.app.language.epoch;
    world.doc().file = Some(12);
    world.sync();
    let mut out = Vec::new();
    world.app.document_written(40, world.now, &mut out);
    world.run(out);
    assert_eq!(world.message(), "wrote 40 bytes");
    let updated = world.update().unwrap().document.unwrap();
    assert!(updated.epoch > old_epoch);
    assert_eq!(updated.saved, 1);
    world.server(ServerEvent::Progress {
        epoch: updated.epoch,
        message: "missing executable".into(),
        failed: true,
    });
    world.execute("hover").unwrap();
    assert!(world.update().is_none());
    assert!(world.app.language.pending.is_none());
    assert!(world.message().contains("lsp-restart"));
    world.execute("language text").unwrap();
    assert!(world.update().unwrap().document.is_none());
}

fn problems() -> Vec<Diagnostic> {
    vec![
        Diagnostic {
            start: 17,
            end: 21,
            line: 1,
            severity: 2,
            message: Arc::new("second warning".into()),
        },
        Diagnostic {
            start: 3,
            end: 9,
            line: 0,
            severity: 1,
            message: Arc::new("first error".into()),
        },
    ]
}

#[test]
fn problems_are_sorted_counted_visited_in_order_and_dropped_after_edits() {
    let mut world = served("fn target() {}\nfn main() { target(); }\n", (80, 12));
    let epoch = world.app.language.epoch;
    let revision = world.app.editor.revision;
    let report = || ServerEvent::Diagnostics { epoch, revision, diagnostics: problems() };
    assert!(world.server(report()).0);
    assert!(world.app.language_status().ends_with("1E 1W"));
    assert_eq!(world.app.paint_language(0, 3), vec![Some(true), Some(false), None]);
    for (visit, cursor, found) in [
        (Visit::Next, 0, Some((3, 9))),
        (Visit::Next, 3, Some((17, 21))),
        (Visit::Next, 17, None),
        (Visit::Previous, 17, Some((9, 3))),
        (Visit::Previous, 3, None),
        (Visit::Last, 3, Some((17, 21))),
        (Visit::First, 17, Some((3, 9))),
    ] {
        world.put(cursor);
        let mut out = Vec::new();
        world.app.navigate_diagnostic(visit, &mut out);
        let moved = match out.first() {
            Some(Effect::VisitDiagnostic { selection, .. }) => {
                Some((selection.anchor, selection.head))
            }
            _ => None,
        };
        assert_eq!(moved, found, "{visit:?} from {cursor}");
    }
    world.put(4);
    world.app.clear_message();
    assert_eq!(world.app.command_line().text, "first error");
    world.mode(Mode::Insert);
    world.insert("x");
    world.app.refresh_diagnostics();
    assert!(world.app.language.diagnostics.is_none());
    assert!(!world.server(report()).0);
}

fn prepare_rename(world: &mut World) -> Update {
    world.press(" r");
    let update = world.update().unwrap();
    assert!(matches!(
        update.request.as_ref().unwrap().kind,
        RequestKind::PrepareRename { .. }
    ));
    assert!(world.waiting());
    update
}

#[test]
fn rename_cancellation_stale_prompts_empty_names_and_server_failures_never_edit_or_borrow_command_history(
) {
    let mut world = served("foo\n", (100, 24));
    world.app.prompt_history.push(':', "write");
    let update = prepare_rename(&mut world);
    world.handle(key(Key::Escape));
    let id = update.request.as_ref().unwrap().id;
    assert!(world.cancelled.contains(&Job::Language(id)));
    assert!(!world.answer(&update, Ok(Answer::RenamePrepared("foo".into()))));
    assert!(world.app.prompt.is_none());
    for cancel in [false, true] {
        let update = prepare_rename(&mut world);
        world.answer(&update, Ok(Answer::RenamePrepared("foo".into())));
        world.handle(ctrl('u'));
        world.handle(key(Key::Up));
        assert_eq!(world.app.prompt.as_ref().unwrap().input.text, "");
        world.handle(key(if cancel { Key::Escape } else { Key::Enter }));
        assert!(match world.update() {
            Some(update) => update.request.is_none(),
            None => true,
        });
        assert!(world.app.prompt.is_none());
        assert_eq!(world.app.prompt_history.last(':'), Some("write".into()));
    }
    let update = prepare_rename(&mut world);
    world.answer(&update, Err(Error::Other("cannot rename".into())));
    assert!(!world.waiting());
    assert!(world.app.error);
    assert!(world.app.prompt.is_none());
    let update = prepare_rename(&mut world);
    world.answer(&update, Ok(Answer::RenamePrepared("foo".into())));
    // A file reload or programmatic selection change can happen while the
    // prompt is editable; its original capture must not be silently replaced.
    world.put(1);
    world.handle(key(Key::Enter));
    assert!(match world.update() {
        Some(update) => update.request.is_none(),
        None => true,
    });
    assert!(world.app.error);
    assert!(world.message().contains("original buffer or selection changed"));
    assert_eq!(world.text(), "foo\n");
    assert!(!world.app.is_dirty());
}

#[test]
fn a_new_name_is_asked_for_and_sent_and_long_names_are_refused() {
    let mut world = served("foo\n", (100, 24));
    let update = prepare_rename(&mut world);
    assert!(world.answer(&update, Ok(Answer::RenamePrepared("foo".into()))));
    assert!(!world.waiting());
    let prompt = world.app.prompt.as_ref().unwrap();
    assert_eq!(prompt.prefix(String::new()), "rename-to:");
    assert_eq!(prompt.input.text, "foo");
    world.handle(ctrl('u'));
    world.press("bar");
    world.handle(key(Key::Enter));
    let update = world.update().unwrap();
    match &update.request.as_ref().unwrap().kind {
        RequestKind::Rename { name, .. } => assert_eq!(name, "bar"),
        other => panic!("{other:?}"),
    }
    let context = world.app.editor.workspace_context();
    for (name, refused) in [
        ("x".repeat(4096), false),
        ("x".repeat(4097), true),
        ("a\u{7}b".to_string(), true),
    ] {
        world.app.clear_message();
        world.app.submit_rename(context, &name);
        assert_eq!(world.app.error, refused);
        if refused {
            assert_eq!(
                world.message(),
                "rename name must be one line and at most 4096 bytes"
            );
        }
    }
}

fn code_actions() -> Answer {
    Answer::CodeActions {
        items: (0..12)
            .map(|id| vex_term::actions::Action { id, title: format!("Action {id}") })
            .collect(),
        limited: false,
    }
}

fn open_actions(world: &mut World) {
    world.language = Some(LanguageAction::CodeAction);
    let update = world.update().unwrap();
    assert!(world.answer(&update, Ok(code_actions())));
    let frame = Frame { width: 100, height: 24, cursor: Some((4, 1)) };
    assert!(world.app.paint_code_actions(frame, 22).is_some());
}

#[test]
fn code_action_menu_helix_keys_wrap_scroll_cancel_and_pass_other_input() {
    let mut world = served("foo\n", (100, 24));
    open_actions(&mut world);
    let count = world.app.actions.menu.as_ref().unwrap().items.len();
    for (event, expected) in [
        (key(Key::Up), count - 1),
        (key(Key::Tab), 0),
        (ctrl('n'), 1),
        (key(Key::BackTab), 0),
        (ctrl('d'), 5),
        (key(Key::PageUp), 0),
    ] {
        world.handle(event);
        assert_eq!(world.app.actions.menu.as_ref().unwrap().selected, expected);
    }
    world.handle(key(Key::Up));
    for width in [8, 20, 100] {
        world.handle(Event::Resize(width, 8));
        world.app.paint_code_actions(Frame { width, height: 8, cursor: Some((4, 1)) }, 6);
        assert!(world.app.actions.menu.as_ref().unwrap().top > 0);
    }
    world.handle(key(Key::Escape));
    assert!(world.app.actions.context.is_none());
    open_actions(&mut world);
    world.handle(key(Key::Char('l')));
    assert!(world.app.actions.menu.is_none());
    assert_eq!(world.start(), 1);
    open_actions(&mut world);
    world.handle(key(Key::Enter));
    assert!(world.waiting());
    world.handle(ctrl('c'));
    assert!(!world.waiting());
    assert!(world.app.actions.context.is_none());
    assert!(match world.update() {
        Some(update) => update.request.is_none(),
        None => true,
    });
    assert!(!world.app.is_dirty());
}

#[test]
fn cancelled_or_stale_code_action_replies_cannot_reopen_the_menu() {
    let mut world = served("foo\n", (100, 24));
    for cancel in [true, false] {
        world.language = Some(LanguageAction::CodeAction);
        let update = world.update().unwrap();
        if cancel {
            world.handle(key(Key::Escape));
        } else {
            world.put(1);
        }
        assert!(!world.answer(&update, Ok(code_actions())));
        world.update();
        assert!(world.app.actions.menu.is_none());
        assert!(!world.waiting());
        assert!(!world.app.is_dirty());
    }
}

#[test]
fn applied_actions_ask_for_their_edit_before_their_command() {
    let mut world = served("foo\n", (100, 24));
    open_actions(&mut world);
    world.handle(key(Key::Down));
    world.handle(key(Key::Enter));
    let update = world.update().unwrap();
    match update.request.as_ref().unwrap().kind {
        RequestKind::ApplyCodeAction { action, .. } => assert_eq!(action, 1),
        ref other => panic!("{other:?}"),
    }
    let document = update.document.as_ref().unwrap();
    let (redraw, next) = world.server(ServerEvent::Answer {
        epoch: document.epoch,
        revision: document.snapshot.revision,
        id: update.request.as_ref().unwrap().id,
        cancelled: false,
        result: Ok(Answer::CodeActionReady { edit: true, command: Some(7) }),
    });
    assert!(redraw);
    assert!(matches!(next, Next::Edit(_)));
}

#[test]
fn formatting_without_a_named_file_or_language_service_reports_a_useful_error() {
    let mut world = World::new("text", (80, 24));
    world.execute("format").unwrap();
    assert!(world.update().is_none());
    assert!(world.app.error && world.message().contains("not enabled"));
    world.app.enable_lsp();
    world.doc().language = Some(0);
    world.sync();
    world.app.clear_message();
    world.language = Some(LanguageAction::FormatSelections);
    world.update();
    assert!(world.app.error && world.message().contains("named file"));
    assert!(!world.waiting());
    assert_eq!(world.text(), "text");
}

#[test]
fn formatting_for_a_place_that_was_left_is_dropped() {
    for change in ["cancel", "selection", "settings", "revision", "language", "view", "none"] {
        let mut world = served("original\n", (80, 24));
        let update = issue(&mut world, "format");
        match change {
            "cancel" => {
                world.handle(ctrl('c'));
            }
            "selection" => world.put(1),
            "settings" => {
                world.app.editor.document_stamp += 1;
                world.app.editor.workspace_stamp += 1;
            }
            "revision" => {
                world.mode(Mode::Insert);
                world.select((vec![caret(0)], 0));
                world.insert("x");
            }
            "language" => {
                world.doc().language = Some(3);
                world.sync();
            }
            "view" => world.execute("vsplit").unwrap(),
            _ => {}
        }
        let document = update.document.as_ref().unwrap();
        let id = update.request.as_ref().unwrap().id;
        let (_, next) = world.server(ServerEvent::Answer {
            epoch: document.epoch,
            revision: document.snapshot.revision,
            id,
            cancelled: world.cancelled.contains(&Job::Language(id)),
            result: Ok(Answer::Formatted { unchanged: false }),
        });
        if change == "none" {
            let Next::Edit(context) = next else { panic!("{next:?}") };
            assert!(context.current(&world.app.editor));
            // An edit that was prepared for a place is not applied at another.
            world.doc().language = Some(3);
            world.sync();
            assert!(!context.current(&world.app.editor));
        } else {
            assert!(matches!(next, Next::Nothing), "{change}");
        }
        world.update();
        assert!(!world.waiting(), "{change}");
        let expected = if change == "revision" { "xoriginal\n" } else { "original\n" };
        assert_eq!(world.text(), expected, "{change}");
    }
}

fn offer(world: &mut World, count: usize, active: Option<usize>, automatic: bool) {
    world.app.begin_signature();
    world.app.receive_signature(count, active, false, automatic);
    if let Some(session) = &mut world.app.signature.active {
        session.visible = true;
    }
}

#[test]
fn signatures_are_asked_for_after_triggers_and_a_pause() {
    let mut world = automatic_fixture("call");
    let triggers = vec!["(".to_string(), ",".to_string()];
    let before: Vec<char> = "call(".chars().collect();
    world.app.observe_signature(world.now, false, &[], Some(&triggers), false);
    world.insert("(");
    world.app.observe_signature(world.now, true, &before, Some(&triggers), false);
    let due = world.app.signature_deadline().unwrap();
    assert_eq!(due, world.now + 120 * MILLISECOND);
    assert!(world.app.take_signature_request(due - 1).is_none());
    let request = world.app.take_signature_request(due).unwrap();
    assert!(matches!(request.kind, RequestKind::SignatureHelp));
    assert!(request.automatic);
    assert!(world.app.signature_deadline().is_none());
}

#[test]
fn visible_signatures_turn_and_scroll_and_are_left_with_escape() {
    let mut world = automatic_fixture("call(");
    offer(&mut world, 2, None, false);
    let turn = |ch: char| key(Key::Alt(ch));
    world.handle(turn('p'));
    assert_eq!(world.app.signature.active.as_ref().unwrap().selected, 1);
    world.handle(turn('n'));
    assert_eq!(world.app.signature.active.as_ref().unwrap().selected, 0);
    assert_eq!(world.app.signature.active.as_ref().unwrap().show_title(), " Signature 1/2 ");
    for (event, down) in [
        (ctrl('d'), true),
        (ctrl('u'), false),
        (key(Key::PageDown), true),
        (key(Key::PageUp), false),
    ] {
        let mut out = Vec::new();
        let handled = world.app.handle_signature_input(&event, false, false, &mut out);
        assert_eq!(handled, (Some(true), Some(down)));
        world.handle(event);
        assert_eq!(world.text(), "call(");
        assert_eq!(world.app.editor.mode, Mode::Insert);
    }
    world.handle(ctrl('c'));
    assert!(world.app.signature.active.is_none());
    assert_eq!(world.app.editor.mode, Mode::Insert);
    offer(&mut world, 1, None, false);
    world.handle(key(Key::Escape));
    assert!(world.app.signature.active.is_none());
    assert_eq!(world.app.editor.mode, Mode::Normal);
}

fn other(document: u64, file: u64) -> Prepared {
    Prepared::New(Buffer {
        editor: Editor { file: Some(file), ..editor(document) },
        automatic_language: true,
    })
}

#[test]
fn documents_in_other_windows_protect_their_changes_and_their_files() {
    let mut world = World::open("alpha", (100, 24));
    world.press("iX");
    world.handle(key(Key::Escape));
    world.load(2, "beta", Some(12));
    let mut out = Vec::new();
    world.app.split_with_path(true, Some(other(2, 12)), &mut out).unwrap();
    world.run(out);
    assert_eq!(world.text(), "beta");
    world.press("iY");
    world.handle(key(Key::Escape));
    let mut out = Vec::new();
    assert!(matches!(
        world.app.close_window(false, &mut out),
        Err(Error::UnsavedWindow)
    ));
    assert!(matches!(
        world.app.only_window(false, &mut out),
        Err(Error::UnsavedOther)
    ));
    assert!(matches!(world.app.quit_all(false), Err(Error::UnsavedAll)));
    assert!(out.is_empty());
    assert_eq!(world.app.windows.panes.len(), 2);
    // An explicit save cannot overwrite a different open buffer.
    assert!(matches!(
        world.app.begin_write(Some(11), &mut out),
        Err(Error::AlreadyOpen)
    ));
    assert!(out.is_empty());
    assert!(world.app.begin_write(None, &mut out).is_ok());
    // Another view of a document that is open shares its text.
    let text = world.docs[&2].text.clone();
    world.docs.get_mut(&2).unwrap().saved = text;
    world.sync();
    let mut out = Vec::new();
    world.app.open_window_file(Prepared::Existing(1), &mut out).unwrap();
    world.run(out);
    assert_eq!(world.text(), "Xalpha");
    assert!(world.app.is_dirty());
    assert!(world.app.windows.buffers.is_empty());
    let text = world.docs[&1].text.clone();
    world.docs.get_mut(&1).unwrap().saved = text;
    world.sync();
    world.execute("q").unwrap();
    assert!(!world.app.should_quit());
    world.execute("q").unwrap();
    assert!(world.app.should_quit());
}

#[test]
fn cancelling_a_find_in_a_commit_draft_does_not_start_the_commit_prefix() {
    let mut world = World::new("subject", (80, 24));
    world.app.git_write.drafts.push(Draft {
        document: 1,
        root: Arc::new(vec![1]),
        status_key: Arc::new(vec![1]),
        committed: None,
    });
    world.press("vr");
    assert!(world.app.editor.keys_pending);
    world.handle(ctrl('c'));
    assert!(world.app.git_write.prefix.is_none());
    assert_eq!(world.app.editor.mode, Mode::Select);
    assert!(!world.app.editor.keys_pending);
    world.handle(ctrl('c'));
    assert_eq!(world.app.git_write.prefix, Some(world.app.editor.document));
}

fn lines() -> World {
    World::new(&"abcdefgh\n".repeat(100), (80, 12))
}

#[test]
fn half_page_keys_scroll_with_the_cursor_use_counts_and_follow_resize() {
    let mut world = lines();
    world.press("20j3l");
    let original = world.draw().cursor.unwrap();
    let viewport = world.app.viewport;
    let selections = world.ranges();
    let revision = world.app.editor.revision;
    world.handle(ctrl('d'));
    assert_eq!(world.start(), 25 * 9 + 3);
    assert_eq!(world.app.viewport.top_line, viewport.top_line + 5);
    assert_eq!(world.draw().cursor.unwrap(), original);
    world.handle(ctrl('u'));
    assert_eq!(world.ranges(), selections);
    assert_eq!(world.app.viewport, viewport);
    world.press("3");
    world.handle(ctrl('d'));
    assert_eq!(world.start(), 35 * 9 + 3);
    assert_eq!(world.typed, "");
    world.handle(Event::Resize(80, 22));
    world.draw();
    world.handle(ctrl('u'));
    assert_eq!(world.start(), 25 * 9 + 3);
    assert_eq!(world.app.editor.revision, revision);
    assert!(!world.app.is_dirty());
}

#[test]
fn half_pages_preserve_desired_columns_and_selection_anchors_and_clamp_at_edges() {
    let mut world = World::new("a\t界z\nx\nx\nx\n123456z", (80, 6));
    let original = (vec![Selection { anchor: 3, head: 4 }], 0);
    world.select(original.clone());
    world.execute("page_cursor_half_down").unwrap();
    world.execute("page_cursor_half_down").unwrap();
    assert_eq!(world.start(), 17);
    assert_eq!(world.column_of(17), 6);
    world.execute("page_cursor_half_up").unwrap();
    world.execute("page_cursor_half_up").unwrap();
    assert_eq!(world.ranges(), original);
    world.press("v");
    world.handle(ctrl('d'));
    assert_eq!(world.primary().anchor, 3);
    assert_eq!(world.app.editor.mode, Mode::Select);
    assert!(world.primary().head > 4);
    world.handle(ctrl('u'));
    assert_eq!(world.ranges(), original);
    world.handle(key(Key::Escape));
    world.press(&usize::MAX.to_string());
    world.handle(ctrl('d'));
    assert_eq!(world.start(), 17);
    world.draw();
    world.press(&usize::MAX.to_string());
    world.handle(ctrl('u'));
    assert_eq!(world.ranges(), original);
    world.draw();
    assert_eq!(world.app.viewport.top_line, 0);
    world.handle(Event::Resize(1, 1));
    world.execute("page_cursor_half_down").unwrap();
    assert_eq!(world.line_of(world.start()), 1);
    world.draw();
    world.execute("help page_cursor_half_down").unwrap();
    assert!(world.message().contains("half the visible text height"));
}

#[test]
fn alignment_survives_redraws_and_following_resumes_on_motion_edits_and_resize() {
    let mut world = lines();
    // Nothing is drawn in between: queued movements must still align correctly.
    world.press("20j3l");
    let selections = world.ranges();
    for (keys, expected) in [("zt", 0), ("zb", 9), ("zz", 4), ("zc", 4)] {
        world.press(keys);
        for _ in 0..3 {
            assert_eq!(world.draw().cursor.unwrap().1, expected, "{keys}");
            assert_eq!(world.ranges(), selections);
        }
    }
    world.press("ztj");
    assert_eq!(world.draw().cursor.unwrap().1, 3);
    world.press("zt");
    world.handle(Event::Resize(80, 22));
    assert_eq!(world.draw().cursor.unwrap().1, 3);
    world.press("zbiX");
    assert_eq!(world.draw().cursor.unwrap().1, 16);
    assert!(world.app.is_dirty());
}

#[test]
fn sticky_scroll_keeps_other_selections_and_clamps_only_the_primary() {
    for select in [false, true] {
        let mut world = lines();
        let secondary = Selection { anchor: 3, head: 4 };
        world.select((vec![secondary, Selection { anchor: 183, head: 184 }], 1));
        if select {
            world.press("v");
        }
        world.press("zzZ");
        let before = world.ranges();
        world.press("j");
        assert_eq!(world.ranges(), before);
        assert_eq!(world.app.viewport.top_line, 17);
        world.press("3j");
        assert_eq!(world.app.viewport.top_line, 20);
        assert_eq!(world.cursor(), 23 * 9);
        assert_eq!(world.ranges().0[0], secondary);
        if select {
            assert_eq!(world.primary().anchor, before.0[before.1].anchor);
        }
        world.draw();
        assert_eq!(world.app.viewport.top_line, 20);
        world.press("k");
        assert_eq!(world.app.viewport.top_line, 19);
        assert_eq!(world.app.hint_source(), HintSource::Keymap);
        assert!(world.app.editor.keys_pending);
        world.handle(key(Key::Escape));
        assert!(!world.app.editor.keys_pending);
        let row = world.draw().cursor.unwrap().1;
        world.press("j");
        assert_eq!(world.draw().cursor.unwrap().1, row + 1);
        assert!(!world.app.is_dirty());
    }
}

#[test]
fn paging_aliases_use_the_pane_text_height_and_work_inside_both_prefixes() {
    for prefix in ["", "z", "Z"] {
        for (down, up) in [(Key::PageDown, Key::PageUp), (Key::Ctrl('f'), Key::Ctrl('b'))] {
            let mut world = lines();
            world.press("20jzz");
            let top = world.app.viewport.top_line;
            world.press(&format!("3{prefix}"));
            world.handle(key(down));
            assert_eq!(world.app.viewport.top_line, top + 10);
            world.draw();
            assert_eq!(world.cursor_line() - world.app.viewport.top_line, 3);
            if prefix == "z" {
                world.press("z");
            }
            world.handle(key(up));
            assert_eq!(world.app.viewport.top_line, top);
            world.draw();
            assert_eq!(world.cursor_line() - world.app.viewport.top_line, 6);
        }
    }
    let mut world = lines();
    world.press("20jZ");
    world.handle(ctrl('d'));
    assert_eq!(world.cursor(), 25 * 9);
    world.handle(ctrl('u'));
    assert_eq!(world.cursor(), 20 * 9);
    assert_eq!(world.app.hint_source(), HintSource::Keymap);
    assert!(world.app.editor.keys_pending);
}

#[test]
fn horizontal_centering_uses_display_width_and_alignment_is_pane_local() {
    let line = format!("{}\t界e\u{301}{}\n", "x".repeat(100), "x".repeat(100));
    let mut world = World::new(&line.repeat(100), (80, 22));
    world.press("20j103lzmzt");
    let column = world.column_of(world.cursor());
    let gutter = world.gutter();
    assert_eq!(world.app.viewport.left_column, column - (80 - gutter) / 2);
    let drawn = world.draw().cursor.unwrap();
    assert_eq!(usize::from(drawn.0), gutter + (80 - gutter) / 2);
    let original = world.app.viewport;
    world.execute("hsplit").unwrap();
    world.press("zb");
    let height = usize::from(world.app.active_size().1) - 1;
    assert_eq!(world.app.viewport.top_line, 20 - (height - 1));
    world.execute("jump_view_up").unwrap();
    assert_eq!(world.app.viewport, original);
    // Another size ends the alignment, and the cursor stays visible.
    world.draw();
    assert_ne!(world.app.viewport.top_line, original.top_line);
}

#[test]
fn window_jumps_respect_margins_counts_and_select_anchors() {
    let mut world = lines();
    world.press("20jzz");
    assert_eq!(world.app.viewport.top_line, 16);
    for (keys, line) in [("gt", 19), ("gb", 22), ("gc", 20), ("2gt", 20), ("2gb", 21)] {
        world.press(keys);
        assert_eq!(world.cursor(), line * 9);
        world.draw();
        assert_eq!(world.app.viewport.top_line, 16);
    }
    world.press("gtv");
    let anchor = world.primary().anchor;
    world.press("gb");
    assert_eq!(world.primary().anchor, anchor);
    assert_eq!(world.app.editor.mode, Mode::Select);
}

#[test]
fn huge_counts_empty_files_and_tiny_views_stay_bounded() {
    for text in ["", "界", "a\r\nb\r\n", "a\nb\nc"] {
        let mut world = World::new(text, (80, 12));
        for (width, height) in [(80, 12), (1, 1), (1, 3), (0, 0), (12, 5)] {
            world.handle(Event::Resize(width, height));
            for action in [
                ViewAction::AlignTop,
                ViewAction::AlignBottom,
                ViewAction::AlignCenter,
                ViewAction::AlignMiddle,
                ViewAction::ScrollDown,
                ViewAction::ScrollUp,
                ViewAction::PageDown,
                ViewAction::PageUp,
                ViewAction::WindowTop,
                ViewAction::WindowCenter,
                ViewAction::WindowBottom,
            ] {
                world.view(action, usize::MAX);
                assert!(!world.app.error, "{}", world.message());
                world.draw();
                assert!(world.app.viewport.top_line < world.app.editor.lines);
            }
        }
        assert_eq!(world.text(), text);
    }
}

fn point(kind: MouseEventKind, column: u16, row: u16) -> Event {
    Event::Mouse(MouseEvent { kind, column, row })
}

#[test]
fn wheel_preserves_modes_selections_and_undo_and_keyboard_returns_to_cursor() {
    let source = "abcdefgh\n".repeat(200);
    let scroll = || point(MouseEventKind::ScrollDown, 10, 5);
    for mode in [Mode::Normal, Mode::Select, Mode::Insert] {
        let mut world = World::new(&source, (81, 22));
        world.mode(mode);
        if mode == Mode::Insert {
            world.select((vec![caret(0)], 0));
        }
        let selections = world.ranges();
        let revision = world.app.editor.revision;
        assert!(world.handle(scroll()));
        assert_eq!(world.app.viewport.top_line, 3);
        for _ in 0..3 {
            assert!(world.draw().cursor.is_none());
            assert_eq!(world.app.viewport.top_line, 3);
            assert_eq!(world.ranges(), selections);
            assert_eq!(world.app.editor.mode, mode);
            assert_eq!(world.app.editor.revision, revision);
        }
        // Even a movement clamped at the first line follows again.
        world.handle(key(Key::Up));
        assert!(world.draw().cursor.is_some());
        assert_eq!(world.app.viewport.top_line, 0);
        world.execute("mouse off").unwrap();
        assert!(!world.handle(scroll()));
        assert_eq!(world.app.viewport.top_line, 0);
        assert!(world.execute("mouse maybe").is_err());
        assert!(!world.app.mouse_enabled());
        world.execute("mouse on").unwrap();
        assert!(world.app.mouse_enabled());
    }
    let mut world = World::new(&source, (81, 22));
    world.press("ihello");
    world.handle(scroll());
    world.draw();
    world.press("world");
    world.handle(key(Key::Escape));
    world.press("u");
    assert_eq!(world.text(), source);
}

#[test]
fn wheel_over_an_inactive_pane_preserves_focus_and_both_view_selections() {
    let mut world = World::new(&"abcdefgh\n".repeat(200), (81, 22));
    world.press("30j");
    world.draw();
    world.execute("vsplit").unwrap();
    world.press("10j");
    world.draw();
    let active = world.app.focused_window_id();
    let view = world.app.editor.view;
    let selections = world.ranges();
    let viewport = world.app.viewport;
    let pane = world.pane(0);
    let old = world.app.windows.panes[pane].viewport.top_line;
    world.handle(point(MouseEventKind::ScrollDown, 3, 5));
    assert_eq!(world.app.windows.panes[pane].viewport.top_line, old + 3);
    world.draw();
    assert_eq!(world.app.focused_window_id(), active);
    assert_eq!(world.app.editor.view, view);
    assert_eq!(world.ranges(), selections);
    assert_eq!(world.app.viewport, viewport);
    assert_eq!(world.app.windows.panes[pane].viewport.top_line, old + 3);
    // A different document uses the same path without switching buffers.
    world.load(2, &"other\n".repeat(200), Some(12));
    let mut out = Vec::new();
    world.app.open_window_file(other(2, 12), &mut out).unwrap();
    world.run(out);
    world.handle(point(MouseEventKind::ScrollDown, 3, 5));
    world.draw();
    assert_eq!(world.app.editor.document, 2);
    assert_eq!(world.app.focused_window_id(), active);
    assert_eq!(world.app.windows.panes[pane].viewport.top_line, old + 6);
    assert_eq!(world.start(), 0);
}

#[test]
fn wheel_clamps_large_counts_and_tiny_or_empty_views() {
    for source in ["", "one", "one\ntwo\n", "line\n".repeat(200).as_str()] {
        let mut world = World::new(source, (80, 12));
        for (width, height) in [(80, 12), (1, 1), (1, 3), (0, 0)] {
            world.handle(Event::Resize(width, height));
            for kind in [MouseEventKind::ScrollDown, MouseEventKind::ScrollUp] {
                let popups = Popups { signature: None, completion: false, hover: None };
                let event = MouseEvent { kind, column: 0, row: 0 };
                let pointed = world.app.handle_mouse(event, usize::MAX, popups);
                world.pointer(pointed);
                world.draw();
                assert!(world.app.viewport.top_line < world.app.editor.lines);
            }
        }
        assert_eq!(world.text(), source);
    }
}

#[test]
fn unfocused_cursors_are_dim_and_only_the_focused_pane_owns_the_terminal_cursor() {
    let mut world = World::new("abc", (81, 21));
    world.execute("vsplit").unwrap();
    let plan = world.app.paint_windows();
    assert!(matches!(plan.panes[0].content, Content::Document(1, 0)));
    assert!(matches!(plan.panes[1].content, Content::Active));
    assert_eq!(world.draw().cursor.unwrap().0, 46);
    world.execute("jump_view_left").unwrap();
    let plan = world.app.paint_windows();
    assert!(matches!(plan.panes[0].content, Content::Active));
    assert!(matches!(plan.panes[1].content, Content::Document(1, 1)));
    assert_eq!(world.draw().cursor.unwrap().0, 5);
}

#[test]
fn horizontal_panes_meet_at_the_status_line_without_a_divider_row() {
    let mut world = World::new("alpha\nbeta", (80, 13));
    world.execute("hsplit").unwrap();
    let (panes, dividers) = world.app.windows.layout.visible(world.app.window_area());
    assert!(dividers.is_empty());
    assert_eq!(panes[0].1.height, 6);
    assert_eq!(panes[1].1.y, 6);
    assert_eq!(panes[1].1.height, 6);
    let drawn = world.draw();
    assert!(drawn.row(5).starts_with('─'));
    assert!(drawn.row(6).contains("alpha"));
    assert!(drawn.row(11).starts_with('─'));
    assert!((0..13)
        .filter(|row| ![5, 11].contains(row))
        .all(|row| !drawn.row(row).contains('─')));
    world.execute("vsplit").unwrap();
    let drawn = world.draw();
    assert_eq!(drawn.rows[5][39], '┬');
    assert_eq!(drawn.rows[11][39], '┴');
}

#[test]
fn command_search_and_message_line_is_global_beneath_every_split() {
    let mut world = World::new("alpha beta", (81, 21));
    world.execute("vsplit").unwrap();
    world.execute("hsplit").unwrap();
    world.press(":help");
    let drawn = world.draw();
    assert_eq!(drawn.cursor.unwrap().1, 20);
    assert!(drawn.row(20).starts_with(":help"));
    assert_eq!((0..21).filter(|&row| drawn.row(row).contains(":help")).count(), 1);
    let (panes, _) = world.app.windows.layout.visible(world.app.window_area());
    for (_, rect) in panes {
        let status = &drawn.rows[usize::from(rect.y + rect.height - 1)];
        assert_eq!(status[usize::from(rect.x) + 2], '─');
        assert!(rect.y + rect.height <= 20);
    }
    assert_eq!(drawn.rows[9][40], '├');
    assert_eq!(drawn.rows[19][40], '┴');
    world.handle(key(Key::Escape));
    world.press("/beta");
    let drawn = world.draw();
    assert_eq!(drawn.cursor.unwrap().1, 20);
    assert!(drawn.row(20).starts_with("/beta"));
    world.handle(key(Key::Escape));
    let message = "this message spans the terminal rather than a narrow pane";
    world.app.fail(Error::Other(message.into()));
    assert!(world.draw().row(20).starts_with(message));
    assert!(world.app.command_line().error);
}

#[test]
fn splits_render_shared_text_with_independent_cursors_and_viewports() {
    let source: String = (0..100).map(|line| format!("line {line}\n")).collect();
    let mut world = World::new(&source, (81, 21));
    world.handle(ctrl('w'));
    world.press("v");
    assert_eq!(world.app.windows.panes.len(), 2);
    assert_eq!(world.app.windows.buffers.len(), 0);
    let right = world.app.focused_window_id();
    world.press("30j");
    let drawn = world.draw();
    let viewport = world.app.viewport;
    assert!(drawn.cursor.unwrap().0 > 40);
    assert_eq!(drawn.rows[0][40], '│');
    assert!(drawn.row(0).starts_with("   1   line 0"));
    assert!(viewport.top_line > 0);
    world.press(" wh");
    assert_eq!(world.app.focused_window_id(), 0);
    assert_eq!(world.app.viewport.top_line, 0);
    world.press("iXX");
    world.handle(key(Key::Escape));
    assert!(world.draw().row(0).contains("XXline 0"));
    let view = (1, world.app.windows.panes[world.pane(right)].view);
    let (ranges, primary) = world.views[&view].clone();
    let moved = ranges
        .iter()
        .map(|range| Selection { anchor: range.anchor + 2, head: range.head + 2 })
        .collect();
    world.views.insert(view, (moved, primary));
    world.press(" wl");
    assert_eq!(world.app.focused_window_id(), right);
    assert_eq!(world.app.viewport, viewport);
    assert_eq!(world.line_of(world.start()), 30);
    // Undo from the other pane still uses the same document history.
    world.press("u");
    assert_eq!(world.text(), source);
    assert!(!world.app.is_dirty());
    world.press(" wH");
    assert_eq!(world.app.windows.layout.ids(), vec![right, 0]);
    assert!(world.draw().cursor.unwrap().0 < 40);
}

#[test]
fn control_aliases_do_not_save_or_quit_and_half_pages_use_the_pane_height() {
    let mut world = World::new(&"abc\n".repeat(100), (80, 23));
    world.handle(ctrl('w'));
    world.handle(ctrl('s'));
    assert_eq!(world.app.windows.panes.len(), 2);
    assert_eq!(world.app.active_size(), (80, 11));
    assert!(!world.app.error);
    world.handle(ctrl('d'));
    assert_eq!(world.start(), 20);
    world.handle(ctrl('w'));
    world.handle(ctrl('q'));
    assert_eq!(world.app.windows.panes.len(), 1);
    assert!(!world.app.should_quit());
    assert_eq!(world.start(), 0);
    world.handle(Event::Resize(1, 1));
    world.draw();
    let original = world.app.windows.layout.ids();
    assert!(world.execute("vsplit").is_err());
    assert_eq!(world.app.windows.layout.ids(), original);
}

#[test]
fn resize_temporarily_collapses_panes_and_restores_their_positions() {
    let mut world = World::new("abc", (80, 24));
    world.execute("vsplit").unwrap();
    world.press("ll");
    let cursor = world.draw().cursor.unwrap();
    world.handle(Event::Resize(10, 3));
    assert_eq!(world.app.active_size(), (10, 2));
    assert_eq!(world.app.windows.panes.len(), 2);
    assert!(world.draw().cursor.unwrap().0 < 10);
    world.handle(Event::Resize(80, 24));
    assert_eq!(world.draw().cursor.unwrap(), cursor);
}

#[test]
fn background_preview_cancel_and_external_edits_do_not_leave_stale_prompts() {
    let source = format!("origin\n{}{}target", "short\n".repeat(20), "x".repeat(120));
    let mut world = World::new(&source, (30, 8));
    world.background = true;
    world.draw();
    let viewport = world.app.viewport;
    let selections = world.ranges();
    world.press("/target");
    assert_eq!(world.app.editor.search_status, Some(SearchStatus::Pending));
    assert!(world.search_finished());
    world.draw();
    assert!(world.app.viewport.top_line > viewport.top_line);
    assert!(world.app.viewport.left_column > viewport.left_column);
    world.handle(key(Key::Escape));
    world.draw();
    assert_eq!(world.app.viewport, viewport);
    assert_eq!(world.ranges(), selections);
    world.press("/target");
    assert!(world.app.prompt.is_some());
    // An edit from elsewhere ends the search.
    world.end_search();
    world.edit(0, 1, "", 0, false);
    world.draw();
    assert!(world.app.prompt.is_none());
}

#[test]
fn search_preview_scrolls_and_cancel_restores_selections_and_both_axes() {
    let source = format!(
        "{}\n{}{}needle\n",
        "x".repeat(100),
        "short\n".repeat(40),
        "y".repeat(140)
    );
    let mut world = World::new(&source, (30, 8));
    let selections = (
        vec![Selection { anchor: 25, head: 20 }, Selection { anchor: 80, head: 85 }],
        1,
    );
    world.select(selections.clone());
    world.mode(Mode::Select);
    world.draw();
    let viewport = world.app.viewport;
    assert!(viewport.left_column > 0);
    world.press("/needle");
    assert!(world.draw().row(7).starts_with("/needle"));
    assert!(world.app.viewport.top_line > viewport.top_line);
    assert!(world.app.viewport.left_column > viewport.left_column);
    assert_eq!(world.ranges().0.len(), 3);
    world.handle(key(Key::Escape));
    world.draw();
    assert_eq!(world.app.viewport, viewport);
    assert_eq!(world.ranges(), selections);
    assert_eq!(world.app.editor.mode, Mode::Select);
    assert!(world.app.prompt.is_none());
    assert!(!world.app.is_dirty());
}

#[test]
fn search_commands_open_prompts_through_colon_or_custom_bindings() {
    let mut world = World::new("one two one", (40, 6));
    world.press(":search_backward");
    world.handle(key(Key::Enter));
    let label = world.label().to_string();
    assert_eq!(world.app.prompt.as_ref().unwrap().prefix(label), "?");
    world.handle(key(Key::Escape));
    // The keymap may ask for a search with any key.
    world.begin_search(false);
    world.open_search_prompt();
    world.press("one");
    assert_eq!(world.app.editor.search_status, Some(SearchStatus::Match));
    world.handle(key(Key::Enter));
    world.execute("help search_next").unwrap();
    assert!(world.message().contains("Search forward"));
}

#[test]
fn character_find_arguments_bypass_prompts_and_cancellation_keeps_select_mode() {
    let mut world = World::new("a:b\tc\r\nnext", (80, 24));
    world.press("f:");
    assert!(world.app.prompt.is_none());
    assert_eq!(world.primary().end(), 2);
    world.press("f");
    world.handle(key(Key::Tab));
    assert_eq!(world.primary().end(), 4);
    world.press("f");
    world.handle(key(Key::Enter));
    assert_eq!(world.primary().end(), 7);
    world.press("v2f");
    let before = world.ranges();
    world.handle(Event::Resize(81, 25));
    world.handle(ctrl('c'));
    assert_eq!(world.app.editor.mode, Mode::Select);
    assert_eq!(world.ranges(), before);
    assert_eq!(world.typed, "");
    world.press(":");
    assert!(world.app.prompt.is_some());
}

#[test]
fn opening_a_file_over_unsaved_changes_keeps_them() {
    let mut world = World::open("alpha", (100, 24));
    world.press("iX");
    world.handle(key(Key::Escape));
    world.execute("save_selection").unwrap();
    world.load(2, "beta", Some(12));
    let mut out = Vec::new();
    world.app.open_window_file(other(2, 12), &mut out).unwrap();
    assert!(out.iter().any(|effect| matches!(effect, Effect::HideBuffer(1))));
    assert!(!out.iter().any(|effect| matches!(effect, Effect::DropBuffer(_))));
    world.run(out);
    assert_eq!(world.text(), "beta");
    assert_eq!(world.app.windows.buffers.len(), 1);
    assert!(world.app.document_open(1));
    // The last window does not close while they are not saved.
    let mut out = Vec::new();
    assert!(matches!(world.app.close_window(false, &mut out), Err(Error::UnsavedAll)));
    assert!(out.is_empty());
    assert!(!world.app.should_quit());
    world.execute("jump_backward").unwrap();
    assert_eq!(world.text(), "Xalpha");
    assert!(world.app.is_dirty());
    world.execute("q!").unwrap();
    assert!(world.app.should_quit());
}

#[test]
fn a_clean_document_that_nothing_leads_back_to_is_closed() {
    let mut world = World::open("alpha", (100, 24));
    world.load(2, "beta", Some(12));
    let mut out = Vec::new();
    world.app.open_window_file(other(2, 12), &mut out).unwrap();
    world.run(out);
    assert!(world.app.document_open(1));
    let mut out = Vec::new();
    world.app.replace_window_buffer(Prepared::Existing(1), &mut out).unwrap();
    assert!(out.iter().any(|effect| matches!(effect, Effect::DropBuffer(2))));
    assert!(!world.app.document_open(2));
}

#[test]
fn jumps_restore_direction_primary_and_select_mode_across_hidden_scratch_and_files() {
    let mut world = World::new("abcdefghi", (80, 24));
    let selections =
        (vec![Selection { anchor: 3, head: 1 }, Selection { anchor: 5, head: 8 }], 1);
    world.select(selections.clone());
    world.load(2, "target text", Some(12));
    let mut out = Vec::new();
    world.app.open_window_from_picker(other(2, 12), &mut out).unwrap();
    world.run(out);
    assert_eq!(world.text(), "target text");
    world.put(4);
    world.mode(Mode::Select);
    world.execute("jump_backward").unwrap();
    assert_eq!(world.app.editor.document, 1);
    assert_eq!(world.app.editor.mode, Mode::Select);
    assert_eq!(world.ranges(), selections);
    world.execute("jump_forward").unwrap();
    assert_eq!(world.app.editor.document, 2);
    assert_eq!(world.start(), 4);
    assert_eq!(world.app.editor.mode, Mode::Select);
    // Tab retains its editing meaning in insert mode.
    world.mode(Mode::Insert);
    world.handle(key(Key::Tab));
    assert!(world.text().contains('\t'));
}

#[test]
fn background_surround_replacement_previews_accepts_literal_colons_and_clears_failed_input() {
    let mut world = World::new("(abc)", (60, 16));
    world.press("lvmr(");
    assert!(world.pair_found(Some((0, 4))));
    assert_eq!(world.app.hint_source(), HintSource::Keymap);
    assert!(world.app.editor.keys_pending);
    assert_eq!(world.ranges().0.len(), 2);
    world.draw();
    world.press(":");
    assert!(world.app.prompt.is_none());
    assert_eq!(world.text(), "(abc)");
    world.pair_replaced();
    assert_eq!(world.text(), ":abc:");
    assert_eq!(world.app.editor.mode, Mode::Normal);
    assert!(world.app.is_dirty());
    world.press("mr(");
    assert!(world.pair_found(None));
    assert!(!world.app.editor.keys_pending);
    assert!(world.message().contains("surround pair not found"));
    world.press(":");
    assert!(world.app.prompt.is_some());
}

#[test]
fn pending_surround_scans_and_previews_cancel_without_leaving_select_mode() {
    for completed in [false, true] {
        let mut world = World::new("(abc)", (60, 16));
        world.press("lv");
        let before = world.ranges();
        world.press("mr(");
        if completed {
            world.pair_found(Some((0, 4)));
        }
        world.handle(ctrl('c'));
        if !completed {
            assert!(!world.pair_found(Some((0, 4))));
        }
        assert_eq!(world.app.editor.mode, Mode::Select);
        assert_eq!(world.ranges(), before);
        assert!(!world.app.editor.keys_pending);
        assert_eq!(world.text(), "(abc)");
    }
}

#[test]
fn selection_prompts_draw_labels_and_recover_from_invalid_regexes() {
    let mut world = World::new("one two three", (40, 6));
    world.press("%s[");
    assert_eq!(world.app.editor.search_status, Some(SearchStatus::Invalid));
    assert!(world.draw().row(5).starts_with("select: ["));
    world.handle(key(Key::Left));
    assert!(world.app.error);
    world.handle(key(Key::Enter));
    assert!(world.app.prompt.is_some());
    world.handle(key(Key::Delete));
    world.press("\\w+");
    assert!(!world.app.error);
    assert_eq!(world.ranges().0.len(), 3);
    for width in [1, 6, 9, 40] {
        world.handle(Event::Resize(width, 6));
        assert!(world.draw().cursor.unwrap().0 < width);
    }
    world.handle(key(Key::Enter));
    world.press("Ko");
    assert!(world.draw().row(5).starts_with("keep: o"));
    world.handle(key(Key::Enter));
    assert_eq!(world.ranges().0.len(), 2);
    world.press("d");
    assert_eq!(world.text(), "  three");
    world.press("u%S ");
    assert!(world.draw().row(5).starts_with("split:  "));
    assert_eq!(world.ranges().0.len(), 3);
    world.handle(key(Key::Escape));
    assert_eq!(world.ranges().0.len(), 1);
    assert!(!world.app.is_dirty());
}

#[test]
fn diagnostics_select_ranges_stop_at_ends_and_disappear_immediately_after_edit() {
    let mut world = served("fn target() {}\nfn main() { target(); }\n", (80, 12));
    let epoch = world.app.language.epoch;
    let revision = world.app.editor.revision;
    let report = || ServerEvent::Diagnostics { epoch, revision, diagnostics: problems() };
    assert!(world.server(report()).0);
    assert_eq!(world.app.paint_language(0, 10)[0], Some(true));
    assert!(world.app.language_status().contains("1E 1W"));
    for (action, anchor, head, moves) in [
        (LanguageAction::NextDiagnostic, 3, 9, true),
        (LanguageAction::NextDiagnostic, 17, 21, true),
        (LanguageAction::NextDiagnostic, 17, 21, false),
        (LanguageAction::PreviousDiagnostic, 21, 17, true),
        (LanguageAction::PreviousDiagnostic, 9, 3, true),
        (LanguageAction::PreviousDiagnostic, 9, 3, false),
        (LanguageAction::LastDiagnostic, 17, 21, true),
        (LanguageAction::FirstDiagnostic, 3, 9, true),
    ] {
        world.language = Some(action);
        world.update();
        let job = world.app.take_location_navigation();
        assert_eq!(job.is_some(), moves, "{action:?}");
        if let Some(job) = job {
            assert!(world.waiting());
            assert!(world.visited(job.id));
        }
        assert!(!world.waiting());
        assert_eq!(world.primary(), Selection { anchor, head }, "{action:?}");
        assert_eq!(world.app.editor.mode, Mode::Normal);
    }
    world.execute("jump_backward").unwrap();
    assert_eq!(world.primary().anchor, 17);
    world.mode(Mode::Select);
    world.language = Some(LanguageAction::FirstDiagnostic);
    world.update();
    let job = world.app.take_location_navigation().unwrap();
    world.visited(job.id);
    assert_eq!(world.app.editor.mode, Mode::Select);
    assert_eq!(world.primary().anchor, 3);
    assert_eq!(world.primary().head, 9);
    world.mode(Mode::Insert);
    world.insert("x");
    world.app.refresh_diagnostics();
    assert!(world.app.language.diagnostics.is_none());
    assert!(!world.server(report()).0);
}

#[test]
fn diagnostic_navigation_rejects_cancelled_and_changed_origins() {
    let mut world = served("fn target() {}\nfn main() { target(); }\n", (80, 12));
    let destination = Selection { anchor: 3, head: 9 };
    let initial = world.ranges();
    world.visit(destination, "message");
    let job = world.app.take_location_navigation().unwrap();
    world.handle(key(Key::Escape));
    assert!(world.cancelled.contains(&Job::Location(job.id)));
    assert_eq!(world.ranges(), initial);
    assert!(!world.waiting());
    for change in ["move_right", "select_mode", "insert_mode"] {
        world.visit(destination, "message");
        let job = world.app.take_location_navigation().unwrap();
        match change {
            "move_right" => world.put(1),
            "select_mode" => world.mode(Mode::Select),
            _ => {
                world.mode(Mode::Insert);
                world.insert("x");
            }
        }
        let expected = world.ranges();
        assert!(world.visited(job.id));
        assert_eq!(world.ranges(), expected);
        assert!(!world.waiting());
    }
}

#[test]
fn invalid_overlapping_failed_and_noop_formatting_never_partially_changes_text() {
    for mode in ["invalid", "overlap", "malformed", "error", "null", "noop", "unsupported"] {
        let mut world = served("original\n", (80, 24));
        let revision = world.app.editor.revision;
        let selections = world.ranges();
        let update = issue(&mut world, "format");
        let result = match mode {
            "null" | "noop" => Ok(Answer::Formatted { unchanged: true }),
            wrong => Err(Error::Other(format!("{wrong} edit"))),
        };
        assert!(world.answer(&update, result));
        assert_eq!(world.app.editor.revision, revision, "{mode}");
        assert_eq!(world.text(), "original\n", "{mode}");
        assert_eq!(world.ranges(), selections, "{mode}");
        assert!(!world.app.is_dirty(), "{mode}");
        assert_eq!(world.app.error, !matches!(mode, "null" | "noop"), "{mode}");
        assert!(!world.waiting());
    }
}

#[test]
fn bare_commands_and_cancellation_during_resolution_preserve_input_order() {
    let mut world = served("foo\n", (100, 24));
    open_actions(&mut world);
    world.handle(key(Key::Enter));
    let update = world.update().unwrap();
    assert!(update.request.is_some());
    world.handle(key(Key::Escape));
    let ready = Answer::CodeActionReady { edit: true, command: None };
    assert!(!world.answer(&update, Ok(ready)));
    assert_eq!(world.text(), "foo\n");
    open_actions(&mut world);
    for _ in 0..3 {
        world.handle(key(Key::Down));
    }
    assert_eq!(world.app.actions.menu.as_ref().unwrap().selected, 3);
    world.handle(key(Key::Enter));
    let update = world.update().unwrap();
    let document = update.document.as_ref().unwrap();
    // An action that is a command alone runs without an edit before it.
    let (_, next) = world.server(ServerEvent::Answer {
        epoch: document.epoch,
        revision: document.snapshot.revision,
        id: update.request.as_ref().unwrap().id,
        cancelled: false,
        result: Ok(Answer::CodeActionReady { edit: false, command: Some(9) }),
    });
    assert_eq!(next, Next::Command(9));
    assert!(!world.app.error, "{}", world.message());
}

fn parameters() -> Vec<String> {
    vec!["(".into(), ",".into(), "::".into()]
}

impl World {
    /// Looks at the place of the cursor, as after every key.
    fn observe(&mut self, inserted: bool) {
        let before = self.doc().text.clone();
        let head = self.primary().head;
        let git = false;
        self.app.observe_signature(self.now, inserted, &before[..head], Some(&parameters()), git);
    }

    fn type_observed(&mut self, event: Event) {
        let revision = self.app.editor.revision;
        self.handle(event);
        let inserted = self.app.editor.revision != revision;
        self.observe(inserted);
    }

    /// Waits until help is asked for.
    fn help_due(&mut self) -> bool {
        match self.app.signature_deadline() {
            Some(due) => {
                self.now = due;
                self.app.take_signature_request(due).is_some()
            }
            None => false,
        }
    }

    fn help(&mut self, count: usize, active: Option<usize>) {
        self.app.receive_signature(count, active, false, true);
        if let Some(session) = &mut self.app.signature.active {
            session.visible = true;
        }
    }
}

#[test]
fn debounce_retrigger_overload_keys_stale_replies_and_insert_keys() {
    let mut world = automatic_fixture("call(");
    world.observe(false);
    let due = world.app.signature_deadline().unwrap();
    assert!(world.app.take_signature_request(due - 1).is_none());
    assert_eq!(world.app.signature_deadline(), Some(due));
    assert!(world.help_due());
    assert!(world.app.signature_deadline().is_none());
    world.help(2, None);
    assert!(world.app.signature.active.as_ref().unwrap().visible);
    world.handle(key(Key::Alt('p')));
    assert_eq!(world.app.signature.active.as_ref().unwrap().selected, 1);
    world.type_observed(key(Key::Char('1')));
    assert!(world.app.signature_deadline().is_some());
    assert!(world.help_due());
    world.help(2, None);
    assert_eq!(world.app.signature.active.as_ref().unwrap().selected, 1);
    world.type_observed(key(Key::Char(',')));
    assert!(world.help_due());
    world.type_observed(key(Key::Left));
    assert!(world.help_due());
    world.help(2, Some(0));
    assert_eq!(world.app.signature.active.as_ref().unwrap().selected, 0);
    world.handle(ctrl('c'));
    assert_eq!(world.app.editor.mode, Mode::Insert);
    assert_eq!(world.text(), "call(1,");
    world.type_observed(key(Key::Char('(')));
    assert!(world.help_due());
    world.type_observed(key(Key::Escape));
    assert_eq!(world.app.editor.mode, Mode::Normal);
    assert!(world.app.signature.active.is_none());
    assert!(world.app.signature.due.is_none());
}

#[test]
fn empty_cancelled_unsupported_and_failed_help_stays_quiet_and_can_reopen() {
    let mut world = automatic_fixture("call(");
    world.observe(false);
    assert!(world.help_due());
    world.help(0, None);
    assert!(world.app.signature.due.is_none());
    world.type_observed(key(Key::Char('1')));
    assert!(world.app.signature.due.is_none());
    world.type_observed(key(Key::Char(',')));
    assert!(world.app.signature.due.is_some());
    assert!(world.help_due());
    world.type_observed(key(Key::Char(',')));
    assert!(world.help_due());
    world.help(2, None);
    world.handle(ctrl('c'));
    assert!(world.app.signature.due.is_none());
    assert!(world.app.signature.active.is_none());
    assert_eq!(world.app.editor.mode, Mode::Insert);
    // A server that offers no signatures is not asked.
    world.insert("(");
    world.app.observe_signature(world.now, true, &['('], None, false);
    assert!(world.app.signature.due.is_none());
}

#[test]
fn visible_signature_scrolls_with_helix_popup_keys_without_editing_text() {
    let mut world = automatic_fixture("call(");
    world.observe(false);
    assert!(world.help_due());
    world.help(1, None);
    for (down, up) in [
        (ctrl('d'), ctrl('u')),
        (key(Key::PageDown), key(Key::PageUp)),
    ] {
        for (event, scrolls) in [(down, true), (up, false)] {
            let mut out = Vec::new();
            let handled = world.app.handle_signature_input(&event, false, false, &mut out);
            assert_eq!(handled, (Some(true), Some(scrolls)));
            assert!(world.handle(event));
        }
        assert_eq!(world.text(), "call(");
        assert_eq!(world.app.editor.mode, Mode::Insert);
    }
}

#[test]
fn tutorial_rejects_arguments_and_explains_how_to_restart() {
    let mut world = World::new("original", (80, 24));
    for command in ["tutorial!", "tutorial path.txt"] {
        assert!(world.execute(command).is_err());
        assert_eq!(world.app.editor.document, 1);
        assert_eq!(world.app.documents().len(), 1);
    }
    world.execute("help tutorial").unwrap();
    assert!(world.message().contains(":bc!"));
}

#[test]
fn the_command_register_is_inserted_into_the_prompt() {
    let mut world = World::new("abc", (80, 24));
    world.execute("vsplit").unwrap();
    world.execute("jump_view_left").unwrap();
    world.press(":");
    world.handle(ctrl('r'));
    world.press(":");
    assert_eq!(world.app.prompt.as_ref().unwrap().input.text, "jump_view_left");
}

#[test]
fn manual_signature_command_also_works_in_normal_mode_without_an_insert_binding() {
    let mut world = automatic_fixture("call(");
    world.mode(Mode::Normal);
    world.put(4);
    offer(&mut world, 2, None, false);
    assert!(world.app.signature.active.as_ref().unwrap().visible);
    world.type_observed(key(Key::Char('h')));
    assert!(world.app.signature.active.is_none());
}

#[test]
fn locations_being_loaded_are_given_up_with_escape_and_keep_their_origin() {
    for leave in [key(Key::Escape), ctrl('c')] {
        let mut world = World::new("origin", (80, 24));
        world.visit(Selection { anchor: 3, head: 4 }, "message");
        let job = world.app.take_location_navigation().unwrap();
        assert!(world.waiting());
        assert!(world.handle(leave));
        assert!(world.cancelled.contains(&Job::Location(job.id)));
        assert!(!world.waiting());
        assert!(!world.visited(job.id));
        assert_eq!(world.text(), "origin");
        assert_eq!(world.start(), 0);
    }
}

#[test]
fn definitions_protect_unsaved_files_and_jump_back_restores_the_origin() {
    for unsaved in [true, false] {
        let mut world = served("fn target() {}\nfn main() { target(); }\n", (80, 12));
        if unsaved {
            world.mode(Mode::Insert);
            world.select((vec![caret(0)], 0));
            world.insert(" ");
        }
        let update = issue(&mut world, "goto_definition");
        let place = Position { line: 0, character: 7 };
        let first = Destination { file: 12, start: place, end: place };
        let view = Rows {
            query: String::new(),
            register_pending: false,
            pending: true,
            current: false,
            items: 0,
            selected: None,
            matched: 0,
            total: 0,
            notice: Notice::Empty,
            preview: PreviewState::Empty,
        };
        let found = refresh::Found { items: 1, first, limited: false, skipped: 0 };
        let locations = Answer::Locations { title: "Definitions".into(), found, view };
        assert!(world.answer(&update, Ok(locations)));
        let job = world.app.take_location_navigation().unwrap();
        assert_eq!(job.destination, first);
        let (redraw, origin) = world.app.handle_location_navigation(job.id, false);
        assert!(redraw);
        world.load(2, "pub fn there() {}\n", Some(12));
        let mut out = Vec::new();
        let opened = world.app.open_window_definition(other(2, 12), Some(7), &mut out);
        assert!(matches!(opened, Ok(7)));
        world.run(out);
        world.put(7);
        let mut out = Vec::new();
        world.app.finish_location_navigation(origin.unwrap(), Ok(()), &mut out);
        world.run(out);
        world.update();
        assert_eq!(world.app.editor.file, Some(12));
        assert_eq!(world.start(), 7);
        world.execute("jump_backward").unwrap();
        world.update();
        assert_eq!(world.app.editor.file, Some(11));
        assert_eq!(world.app.is_dirty(), unsaved);
        assert_eq!(world.text().starts_with(' '), unsaved);
        world.execute("jump_forward").unwrap();
        assert_eq!(world.app.editor.file, Some(12));
    }
}
