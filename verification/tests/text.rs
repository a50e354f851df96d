use std::sync::Arc;
use vex_term::app::{ActivePrompt, App};
use vex_term::chrome::{Names, Progress};
use vex_term::commands::{commands, find, parse_line, ArgumentCompletion, CommandId};
use vex_term::completion::identifier;
use vex_term::editor::{Editor, Mode};
use vex_term::error::Error;
use vex_term::hints::{group_hints, Hint};
use vex_term::layout::Rect;
use vex_term::measure::{
    fill_rows, label_clusters, label_columns, line_clusters, split_lines, total_columns, wrap, Cell,
    Measured,
};
use vex_term::menu::place;
use vex_term::message::Message;
use vex_term::names::{selected_name, selected_paths};
use vex_term::reload::{observe, Observed, Outcome, Probe, Report};
use vex_term::roots::{compare, relative, Place};
use vex_term::selection::{Selection, Selections};
use vex_term::status_keys::visited_line;
use vex_term::text::{
    bytes_in, chars_of, ends_with, number, parse_number, text_between, trim_white, words,
};

fn editor(document: u64) -> Editor {
    Editor {
        document,
        revision: 0,
        view: 0,
        selections: Arc::new(Selections {
            ranges: vec![Selection { anchor: 0, head: 1 }],
            primary: 0,
        }),
        mode: Mode::Normal,
        cursor: 0,
        length: 0,
        bytes: 0,
        lines: 1,
        language: None,
        server: None,
        file: None,
        dirty: false,
        document_stamp: 0,
        workspace_stamp: 0,
        search_prompt: None,
        search_register: None,
        search_status: None,
        search_waiting: false,
        search_pending: false,
        repeat_pending: false,
        repeat_ready: false,
        keys_pending: false,
    }
}

fn chars(text: &str) -> Vec<char> {
    text.chars().collect()
}

#[test]
fn numbers_are_written_and_read() {
    assert_eq!(number(0), "0");
    assert_eq!(number(1905), "1905");
    assert_eq!(number(u64::MAX), "18446744073709551615");
    assert_eq!(parse_number("0250", 10000), Some(250));
    assert_eq!(parse_number("+7", 10000), Some(7));
    assert_eq!(parse_number("10001", 10000), None);
    assert_eq!(parse_number("nope", 10000), None);
    assert_eq!(parse_number("", 10000), None);
}

#[test]
fn words_and_trimmed_texts_end_at_white_space() {
    assert_eq!(words("  delay \t 250\u{a0}ms "), vec!["delay", "250", "ms"]);
    assert!(words(" \n ").is_empty());
    assert_eq!(trim_white("\u{2003} a b \n"), "a b");
    assert!(ends_with("rust-analyzer ready", "ready"));
    assert!(!ends_with("ready", "rust-analyzer ready"));
    assert_eq!(bytes_in("界e\u{301}"), 6);
    assert_eq!(text_between(&chars("abcdef"), 2, 4), "cd");
    assert_eq!(chars_of("界a"), vec!['界', 'a']);
}

#[test]
fn identifiers_hold_letters_and_digits_of_any_script() {
    for ch in ['a', '界', 'é', '7', '_'] {
        assert!(identifier(ch), "{ch}");
    }
    for ch in ['.', ' ', '(', '-', '\u{301}'] {
        assert!(!identifier(ch), "{ch}");
    }
}

#[test]
fn lines_and_clusters_cut_a_text_without_losing_any_of_it() {
    assert_eq!(split_lines("a\r\nb\n\nc"), vec!["a", "b", "", "c"]);
    assert!(split_lines("").is_empty());
    assert_eq!(split_lines("a\n"), vec!["a"]);
    assert_eq!(label_clusters("e\u{301}界🦀"), vec!["e\u{301}", "界", "🦀"]);
    assert_eq!(
        line_clusters("ab\r\n界e\u{301}\n"),
        vec![vec!["a", "b"], vec!["界", "e\u{301}"]]
    );
    let shown: Vec<String> = label_clusters("e\u{301}界🦀a");
    assert_eq!(label_columns(&shown), 6);
}

fn cells(text: &str) -> Vec<Cell> {
    label_clusters(text)
        .into_iter()
        .map(|text| Cell { shown: text.clone(), text })
        .collect()
}

#[test]
fn wrapping_breaks_between_clusters_and_stops_at_the_last_row() {
    let lines = vec![cells("ab界cd"), cells(""), cells("e\u{301}f")];
    assert_eq!(wrap(&lines, 4, 10), vec!["ab界", "cd", "", "e\u{301}f"]);
    assert_eq!(wrap(&lines, 3, 10), vec!["ab", "界c", "d", "", "e\u{301}f"]);
    assert_eq!(wrap(&lines, 4, 2), vec!["ab界", "cd"]);
    assert_eq!(wrap(&lines, 80, 10).concat(), "ab界cde\u{301}f");
}

fn measured(parts: &[(&str, usize)]) -> Vec<Measured> {
    parts.iter().map(|&(text, size)| Measured { text: text.into(), size }).collect()
}

#[test]
fn measured_clusters_fill_rows() {
    let lines = vec![
        measured(&[("a", 1), ("b", 1), ("xx", 2), ("c", 1)]),
        measured(&[]),
        measured(&[("wide", 9), ("d", 1)]),
    ];
    assert_eq!(fill_rows(&lines, 4, 10), vec!["abxx", "c", "", "", "wide", "d"]);
    assert_eq!(fill_rows(&lines, 3, 10), vec!["ab", "xxc", "", "", "wide", "d"]);
    assert_eq!(fill_rows(&lines, 4, 2), vec!["abxx", "c"]);
    assert_eq!(fill_rows(&lines, 4, 0), vec!["abxx"]);
    assert!(fill_rows(&vec![], 4, 2).is_empty());
    // A cluster without a width stays on the row.
    assert_eq!(fill_rows(&vec![measured(&[("a", 1), ("", 0)])], 1, 9), vec!["a"]);
}

#[test]
fn widths_add_up_to_the_greatest_number_at_most() {
    assert_eq!(total_columns(&vec![]), 0);
    assert_eq!(total_columns(&vec![1, 2, 0, 2]), 5);
    assert_eq!(total_columns(&vec![usize::MAX, 1]), usize::MAX);
    assert_eq!(total_columns(&vec![1, usize::MAX - 1]), usize::MAX);
}

#[test]
fn wrapped_rows_keep_to_their_width() {
    let lines = vec![cells("ab界cd界界"), cells("e\u{301}fghij"), cells("")];
    for width in 2..12 {
        for row in wrap(&lines, width, 100) {
            assert!(label_columns(&vec![row.clone()]) <= width, "{row} in {width}");
        }
    }
    // A cluster that is wider than the row stands alone in one.
    assert_eq!(wrap(&vec![cells("a界b")], 1, 10), vec!["a", "界", "b"]);
}

#[test]
fn white_space_is_trimmed_and_parts_words_wherever_it_is_defined() {
    let spaces = "\u{9}\u{a}\u{b}\u{c}\u{d} \u{85}\u{a0}\u{1680}\u{2000}\u{200a}\u{2028}\u{2029}\u{202f}\u{205f}\u{3000}";
    for space in spaces.chars() {
        assert_eq!(trim_white(&format!("{space}a{space}b{space}")), format!("a{space}b"));
        assert_eq!(words(&format!("a{space}b")), vec!["a", "b"]);
    }
    for other in ["\u{200b}", "\u{feff}", "\u{1c}", "\u{180e}"] {
        assert_eq!(trim_white(other), other);
        assert_eq!(words(&format!("a{other}b")).len(), 1);
    }
}

#[test]
fn menus_stand_beside_the_cursor_or_nowhere() {
    assert_eq!(
        place(20, 6, 80, 20, (10, 3)),
        Some(Rect { x: 9, y: 4, width: 20, height: 6 })
    );
    assert_eq!(place(20, 6, 80, 20, (10, 18)).map(|rect| rect.y), Some(12));
    assert_eq!(place(20, 6, 80, 4, (10, 2)), None);
    assert_eq!(place(7, 6, 80, 20, (10, 3)), None);
    assert_eq!(place(20, 6, 80, 20, (79, 3)).map(|rect| rect.x), Some(60));
}

#[test]
fn names_are_found_around_the_cursor_and_in_selections() {
    let text = chars("use \"src/界 x.rs\" (one.txt)");
    let name = |anchor: usize, head: usize| selected_name(&text, Selection { anchor, head });
    assert_eq!(name(6, 7).unwrap(), "src/界");
    assert_eq!(name(18, 19).unwrap(), "one.txt");
    assert_eq!(name(4, 16).unwrap(), "src/界 x.rs");
    assert!(matches!(selected_name(&chars("a  b"), Selection { anchor: 1, head: 3 }), Err(Error::NoName)));
    let long = chars(&"x".repeat(5000));
    assert!(matches!(
        selected_name(&long, Selection { anchor: 10, head: 11 }),
        Err(Error::NameTooLong)
    ));
    assert_eq!(selected_paths(vec![Ok(3), Ok(5), Ok(3)]).unwrap(), vec![3, 5]);
    assert!(selected_paths(vec![Ok(3), Err(Error::SelectedNotAFile)]).is_err());
}

#[test]
fn command_lines_are_a_name_a_mark_and_one_literal_argument() {
    let line = parse_line("w!  path with spaces ");
    assert_eq!(line.name, "w");
    assert_eq!(line.argument, "path with spaces");
    assert!(line.force);
    let line = parse_line("help");
    assert_eq!((line.name.as_str(), line.argument.as_str(), line.force), ("help", "", false));
    assert_eq!(find("wq"), Some(CommandId::WriteQuit));
    assert_eq!(find("buffer-previous"), Some(CommandId::BufferPrevious));
    assert_eq!(find("nothing"), None);
    let all = commands();
    assert_eq!(all.len(), 29);
    let open = all.iter().find(|command| command.name == "open").unwrap();
    assert_eq!(open.aliases, vec!["o", "edit", "e"]);
    assert_eq!(open.completion, ArgumentCompletion::Path);
    assert!(open.documentation.starts_with("Open PATH in the current pane"));
    let mut names: Vec<&str> = all
        .iter()
        .flat_map(|command| command.aliases.iter().copied().chain([command.name]))
        .collect();
    let count = names.len();
    names.sort();
    names.dedup();
    assert_eq!(names.len(), count);
}

#[test]
fn refused_command_lines_say_why_and_are_kept_in_the_history() {
    let mut app = App::from_document(editor(1), (80, 24));
    for (line, reason) in [
        ("q unwanted", "quit takes no arguments"),
        ("open!", "open requires a path and does not accept !"),
        ("open", "open requires a path and does not accept !"),
        ("vsplit! x", "vsplit does not accept !"),
        ("buffer-next!", "buffer-next takes no arguments or !"),
        ("nothing here", "unknown command or unsupported arguments"),
        ("help!", "help does not accept !"),
        ("mouse maybe", "use :mouse [on|off]"),
        ("browse!", "browse does not accept !"),
        ("tutorial!", "tutorial takes no arguments"),
        ("tutorial path.txt", "tutorial takes no arguments"),
    ] {
        let mut out = Vec::new();
        match app.execute(line, &mut out) {
            Err(error) => assert_eq!(error.message(), reason),
            Ok(other) => panic!("{line}: {other:?}"),
        }
        assert_eq!(app.prompt_history.last(':'), Some(line.to_string()));
    }
    for line in ["mouse off", "mouse on", "mouse", "browse", "browse a b", "tutorial"] {
        assert!(app.execute(line, &mut Vec::new()).is_ok(), "{line}");
    }
    app.help("tutorial", None).unwrap();
    assert!(app.message.show().contains(":bc!"));
    assert!(app.help("nothing", None).is_err());
    app.help("write", None).unwrap();
    assert!(app.message.show().starts_with("Write the buffer atomically."));
    app.help("", None).unwrap();
    assert!(app.message.show().starts_with("i/a insert"));
}

#[test]
fn languages_are_set_by_name_and_unknown_ones_are_listed() {
    let mut app = App::from_document(editor(1), (80, 24));
    let names = vec!["rust".to_string(), "shell".to_string()];
    assert!(matches!(app.set_language("", None, None, &names), Ok(None)));
    assert!(matches!(app.set_language("text", Some(1), None, &names), Ok(Some(None))));
    assert!(!app.automatic_language);
    assert_eq!(app.language_of_name(Some(1)), None);
    assert!(matches!(app.set_language("auto", Some(1), None, &names), Ok(Some(Some(1)))));
    assert!(app.automatic_language);
    assert_eq!(app.language_of_name(Some(1)), Some(Some(1)));
    assert!(matches!(app.set_language("rust", Some(1), Some(0), &names), Ok(Some(Some(0)))));
    match app.set_language("klingon", Some(1), None, &names) {
        Err(error) => {
            assert_eq!(error.message(), "supported languages: rust, shell, text, auto");
        }
        Ok(other) => panic!("{other:?}"),
    }
    app.show_language(Some("rust".into()));
    assert_eq!(app.message.show(), "language: rust");
    app.automatic_language = true;
    app.show_language(None);
    assert_eq!(app.message.show(), "language: text (auto)");
}

#[test]
fn hints_group_aliases_and_stay_above_the_command_line() {
    let hint = |keys: &str, description: &str| Hint {
        keys: keys.into(),
        description: description.into(),
    };
    let hints = vec![
        hint("h", "Go left\nand stop there"),
        hint("v", "Split"),
        hint("Left", "Go left\nand stop there"),
    ];
    let groups = group_hints(&hints);
    assert_eq!(groups.len(), 2);
    assert_eq!(groups[0].keys, "h/Left");
    let shown = App::paint_key_hints((100, 24), "Window", &hints).unwrap();
    assert_eq!(shown.area, Rect { x: 22, y: 19, width: 78, height: 4 });
    assert_eq!(shown.title, " Window · Esc cancel ");
    assert_eq!(shown.rows, vec!["h/Left  Go left", "v  Split"]);
    assert!(App::paint_key_hints((3, 24), "Window", &hints).is_none());
    assert!(App::paint_key_hints((80, 3), "Window", &hints).is_none());
    let short = App::paint_key_hints((80, 4), "Window", &hints).unwrap();
    assert_eq!(short.rows.len(), 1);
}

#[test]
fn the_status_line_shows_the_name_what_is_typed_and_what_runs() {
    let mut app = App::from_document(editor(1), (80, 24));
    let names = |path: Option<&str>| Names {
        path: path.map(str::to_string),
        repository: "vex".into(),
    };
    let progress = || Progress {
        count: Some(12),
        keys: vec!["g".into(), "Ctrl-w".into()],
        search: Some("searching...".into()),
    };
    let chrome = app.paint_current_window(names(None), progress()).unwrap();
    assert_eq!(chrome.filename, "[scratch]");
    assert_eq!(chrome.pending, "12gCtrl-w searching...");
    assert!(!chrome.title && !chrome.dirty);
    app.git_write.drafts.push(vex_term::git_write::Draft {
        document: 1,
        root: Arc::new(vec![1]),
        status_key: Arc::new(vec![1]),
        committed: None,
    });
    app.git_write.pending.push(vex_term::git_write::Pending {
        root: Arc::new(vec![1]),
        id: 1,
    });
    let idle = Progress { count: None, keys: vec![], search: None };
    let chrome = app.paint_current_window(names(Some("a.rs")), idle).unwrap();
    assert_eq!(chrome.filename, "Git commit · vex");
    assert_eq!(chrome.pending, " Git busy");
    assert!(chrome.title);
    assert_eq!(app.command_line().text, "i insert  / search  :w write  :q quit  :help");
    assert_eq!(App::body_height(12, 1), 10);
    assert_eq!(App::body_height(1, u16::MAX), 0);
    assert_eq!(ActivePrompt::command().prefix(String::new()), ":");
}

#[test]
fn paths_are_ordered_by_their_parts_and_cut_at_their_root() {
    let path = |text: &str| text.bytes().map(|b| if b == b'/' { 0 } else { b }).collect::<Vec<u8>>();
    assert!(matches!(compare(&path("/a"), &path("/a/b")), Place::Before));
    assert!(matches!(compare(&path("/a/b"), &path("/a.b")), Place::Before));
    assert!(matches!(compare(&path("/b"), &path("/b")), Place::Same));
    assert_eq!(relative(&path("/a/b/c"), &path("/a")), Some(path("b/c")));
    assert_eq!(relative(&path("/ab/c"), &path("/a")), None);
}

#[test]
fn visited_lines_follow_their_text() {
    let lines: Vec<String> = (0..30).map(|i| format!("line {i}\n")).collect();
    assert_eq!(visited_line(10, 30, Some("line 14"), &lines), 14);
    assert_eq!(visited_line(10, 30, Some("gone"), &lines), 10);
    assert_eq!(visited_line(99, 30, None, &lines), 29);
    assert_eq!(visited_line(5, 0, None, &vec![]), 0);
    let twice = vec!["x\r\n".to_string(), "a".into(), "b".into(), "x\n".into()];
    assert_eq!(visited_line(1, 4, Some("x"), &twice), 0);
    assert_eq!(visited_line(2, 4, Some("x"), &twice), 3);
}

#[test]
fn files_that_changed_replace_only_saved_documents() {
    let path = || "a.rs".to_string();
    assert!(matches!(observe(Outcome::Reload, false, path()), Observed::Apply));
    assert!(matches!(
        observe(Outcome::Reload, true, path()),
        Observed::Warn(Message::DiskChanged { .. })
    ));
    assert!(matches!(
        observe(Outcome::Missing, false, path()),
        Observed::Warn(Message::DiskRemoved { .. })
    ));
    assert!(matches!(observe(Outcome::Unchanged, true, path()), Observed::Settle));
    assert!(matches!(observe(Outcome::Retry, true, path()), Observed::Skip));
    let mut app = App::from_document(editor(1), (80, 24));
    assert!(matches!(app.reload_current_file(false), Err(Error::NothingToReload)));
    app.editor.file = Some(3);
    app.editor.dirty = true;
    assert!(matches!(app.reload_current_file(false), Err(Error::UnsavedReload)));
    assert!(app.reload_current_file(true).is_ok());
    // A warning stays when another file was read again too.
    let warning = Message::DiskChanged { path: path() };
    assert!(app.report_file(false, Report::Warned(warning)));
    assert!(app.report_file(true, Report::Reloaded("b.rs".into())));
    assert!(app.error);
    assert!(app.message.show().contains("a.rs"));
    assert!(app.report_file(false, Report::Reloaded("b.rs".into())));
    assert!(!app.error);
}

#[test]
fn files_are_polled_once_at_a_time() {
    let mut app = App::from_document(Editor { file: Some(3), ..editor(1) }, (80, 24));
    assert!(app.take_file_poll(0).is_none());
    app.enable_file_polling(0);
    let due = app.file_poll_deadline().unwrap();
    assert_eq!(due, 2_000_000_000);
    assert!(app.take_file_poll(due - 1).is_none());
    let batch = app.take_file_poll(due).unwrap();
    assert_eq!(batch.probes, vec![Probe { document: 1, revision: 0, file: 3 }]);
    assert_eq!(app.file_poll_deadline(), None);
    assert!(app.take_file_poll(3 * due).is_none());
    assert!(!app.handle_file_poll(batch.request + 1, due));
    assert!(app.handle_file_poll(batch.request, due));
    assert_eq!(app.file_poll_deadline(), Some(2 * due));
    app.editor.file = None;
    assert!(app.take_file_poll(2 * due).is_none());
    assert_eq!(app.file_poll_deadline(), Some(3 * due));
}

#[test]
fn documents_behind_a_repository_are_not_polled() {
    let mut app = App::from_document(Editor { file: Some(3), ..editor(1) }, (80, 24));
    assert_eq!(app.visible_files().len(), 1);
    app.set_git_view(Some(Arc::new(vec![0])));
    assert!(app.visible_files().is_empty());
    app.set_git_view(None);
    let probe = Probe { document: 1, revision: 0, file: 3 };
    assert_eq!(app.visible_files(), vec![probe]);
    assert!(app.accepts_file(probe, false));
    assert!(!app.accepts_file(probe, true));
    assert!(!app.accepts_file(Probe { document: 2, ..probe }, false));
    app.editor.revision = 1;
    assert!(!app.accepts_file(probe, false));
}
