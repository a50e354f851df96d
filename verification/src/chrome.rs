//! The text around a document: its status line and the command line.

use crate::app::App;
use crate::git_write::{find_draft, is_draft, is_pending};
use crate::text::{decimal, number, texts};
use vstd::prelude::*;
use vstd::string::StringExecFns;

verus! {

/// What the keymap and the editor show of themselves.
#[derive(Debug)]
pub struct Progress {
    /// The count typed so far.
    pub count: Option<u64>,
    /// The keys typed so far, as they are shown.
    pub keys: Vec<String>,
    /// How far a search has come.
    pub search: Option<String>,
}

/// What names the active document.
#[derive(Debug)]
pub struct Names {
    /// Its path, as it is shown.
    pub path: Option<String>,
    /// The last part of the path of the repository that it is a commit message
    /// for.
    pub repository: String,
}

/// What the status line of the active window shows.
#[derive(Debug)]
pub struct Chrome {
    pub filename: String,
    /// Whether the name is a title rather than that of a file.
    pub title: bool,
    pub dirty: bool,
    pub pending: String,
}

/// What the command line shows.
#[derive(Debug)]
pub struct CommandLine {
    pub text: String,
    pub error: bool,
}

/// Texts one after the other.
pub open spec fn run_together(parts: Seq<Seq<char>>) -> Seq<char>
    decreases parts.len(),
{
    if parts.len() == 0 {
        Seq::empty()
    } else {
        run_together(parts.drop_last()) + parts.last()
    }
}

impl App {
    /// What names the active document on the status line.
    pub open spec fn shown_name(self, names: Names) -> Seq<char> {
        if is_draft(self.git_write.drafts@, self.editor.document) {
            "Git commit · "@ + names.repository@
        } else {
            match names.path {
                Some(path) => path@,
                None => "[scratch]"@,
            }
        }
    }

    /// Whether the repository of the commit message that is shown has an
    /// unfinished operation.
    pub open spec fn draft_busy(self) -> bool {
        let drafts = self.git_write.drafts@;
        is_draft(drafts, self.editor.document) && is_pending(
            self.git_write.pending@,
            drafts[find_draft(drafts, self.editor.document)].root@,
        )
    }

    /// What is under way, as the status line shows it.
    pub open spec fn pending_text(self, progress: Progress) -> Seq<char> {
        (match progress.count {
            Some(count) => decimal(count as nat),
            None => Seq::empty(),
        }) + run_together(texts(progress.keys@)) + (match progress.search {
            Some(search) => " "@ + search@,
            None => Seq::empty(),
        }) + self.status_text() + if self.draft_busy() { " Git busy"@ } else { Seq::empty() }
    }

    fn show_pending(&self, progress: &Progress) -> (text: String)
        ensures
            text@ == self.pending_text(*progress),
    {
        let mut text = match progress.count {
            Some(count) => number(count),
            None => String::new(),
        };
        let ghost count = text@;
        let ghost parts = texts(progress.keys@);
        let mut i: usize = 0;
        assert(text@ =~= count + run_together(parts.take(0)));
        while i < progress.keys.len()
            invariant
                i <= progress.keys.len(),
                parts == texts(progress.keys@),
                parts.len() == progress.keys@.len(),
                text@ == count + run_together(parts.take(i as int)),
            decreases progress.keys.len() - i,
        {
            let ghost before = text@;
            text.append(progress.keys[i].as_str());
            assert(parts.take(i + 1).drop_last() =~= parts.take(i as int));
            assert(parts.take(i + 1).last() == progress.keys@[i as int]@);
            assert(text@ =~= count + run_together(parts.take(i + 1)));
            i += 1;
        }
        assert(parts.take(i as int) =~= parts);
        let ghost typed = text@;
        match &progress.search {
            Some(search) => {
                text.append(" ");
                text.append(search.as_str());
                assert(text@ =~= typed + (" "@ + search@));
            },
            None => {
                assert(text@ =~= typed + Seq::<char>::empty());
            },
        }
        let status = self.language_status();
        text.append(status.as_str());
        let index = self.draft_place(self.editor.document);
        if index < self.git_write.drafts.len() && self.git_operation_for(
            &self.git_write.drafts[index].root,
        ) {
            text.append(" Git busy");
        } else {
            assert(text@ =~= text@ + Seq::<char>::empty());
        }
        text
    }

    /// The title of a document that is a commit message. `repository` is the
    /// last part of the path of its repository.
    pub fn commit_title(&self, repository: &str) -> (title: Option<String>)
        ensures
            match title {
                Some(title) => is_draft(self.git_write.drafts@, self.editor.document) && title@
                    == "Git commit · "@ + repository@,
                None => !is_draft(self.git_write.drafts@, self.editor.document),
            },
    {
        if !self.is_commit_draft() {
            return None;
        }
        let mut title = "Git commit · ".to_owned();
        title.append(repository);
        Some(title)
    }

    /// What the status line of the active window shows, where the window shows
    /// a document and not a repository.
    pub fn paint_current_window(&self, names: Names, progress: Progress) -> (chrome: Option<Chrome>)
        requires
            self.screen().valid(),
        ensures
            chrome_shown(*self, names, progress, chrome),
    {
        if self.active_git_view().is_some() {
            return None;
        }
        let title = self.is_commit_draft();
        let filename = match self.commit_title(names.repository.as_str()) {
            Some(title) => title,
            None => match names.path {
                Some(path) => path,
                None => "[scratch]".to_owned(),
            },
        };
        let pending = self.show_pending(&progress);
        Some(Chrome { filename, title, dirty: self.editor.dirty, pending })
    }

    /// What the command line shows where no prompt is open: the last message,
    /// or else the problem at the cursor.
    pub fn command_line(&self) -> (line: CommandLine)
        requires
            self.screen().valid(),
        ensures
            command_line_shown(*self, line),
    {
        let message = self.message.show();
        let text = if !message.as_str().is_empty() {
            message
        } else if self.active_git_view().is_some() {
            String::new()
        } else {
            self.diagnostic_message()
        };
        CommandLine { text, error: self.error }
    }

    /// Rows of a window that are left for text, above its status line and the
    /// rows that are reserved below it.
    pub fn body_height(height: u16, reserved: u16) -> (rows: u16)
        ensures
            rows == if height > 1 + reserved { (height - (1 + reserved)) as u16 } else { 0 },
    {
        if reserved < height { height - reserved - 1 } else { 0 }
    }
}

/// Whether this is what the command line shows.
pub open spec fn command_line_shown(before: App, line: CommandLine) -> bool {
    &&& line.error == before.error
    &&& line.text@ == if before.message.text().len() > 0 {
        before.message.text()
    } else if before.screen().git_view() is Some {
        Seq::empty()
    } else {
        before.problem_text()
    }
}

/// Whether this is what the status line of the active window shows.
pub open spec fn chrome_shown(
    before: App,
    names: Names,
    progress: Progress,
    chrome: Option<Chrome>,
) -> bool {
    match chrome {
        None => before.screen().git_view() is Some,
        Some(chrome) => {
            &&& before.screen().git_view() is None
            &&& chrome.filename@ == before.shown_name(names)
            &&& chrome.title == is_draft(before.git_write.drafts@, before.editor.document)
            &&& chrome.dirty == before.editor.dirty
            &&& chrome.pending@ == before.pending_text(progress)
        },
    }
}

} // verus!
