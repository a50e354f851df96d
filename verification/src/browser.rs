//! Directory navigation keeps small checkpoints of the directories left last.

use crate::app::App;
use crate::editor::FileId;
use crate::effect::Effect;
use crate::error::Error;
use crate::find::{first_where, lemma_is_first};
use crate::picker::{Active, Rows, Source, Target};
use crate::picking::Ranked;
use crate::sources::Sort;
use std::collections::VecDeque;
use vstd::prelude::*;

verus! {

/// No more directories than this are remembered.
pub const HISTORY: usize = 64;

/// A directory that was left, with the rows it showed.
#[derive(Clone, Copy, Debug, PartialEq, Eq, Structural)]
pub struct Left {
    pub directory: FileId,
    /// Identity of the remembered rows.
    pub bookmark: u64,
}

/// The directory that is browsed and those before it.
#[derive(Debug)]
pub struct Browser {
    pub directory: FileId,
    pub history: VecDeque<Left>,
}

/// How the rows of a directory begin.
#[derive(Clone, Copy, Debug, PartialEq, Eq, Structural)]
pub enum Start {
    /// At the top.
    Top,
    /// As they were when the directory was left.
    Restore(u64),
    /// At the directory that was come from.
    Select(FileId),
}

/// Where a directory is among those that were left.
pub open spec fn find_left(history: Seq<Left>, directory: FileId) -> int {
    first_where(history, |left: Left| left.directory == directory)
}

impl Browser {
    /// The history without a directory.
    pub open spec fn forgotten(self, directory: FileId) -> Seq<Left> {
        let at = find_left(self.history@, directory);
        if at < self.history@.len() { self.history@.remove(at) } else { self.history@ }
    }

    /// The history once the present directory was left for another: at most
    /// the newest of them, the present one last.
    pub open spec fn left_for(self, directory: FileId, bookmark: u64) -> Seq<Left> {
        let rest = self.forgotten(directory);
        let rest = if rest.len() == HISTORY { rest.drop_first() } else { rest };
        rest.push(Left { directory: self.directory, bookmark })
    }

    /// How the rows of another directory begin; `parent` is the directory that
    /// holds the present one.
    pub open spec fn starts(self, directory: FileId, parent: Option<FileId>) -> Start {
        let at = find_left(self.history@, directory);
        if at < self.history@.len() {
            Start::Restore(self.history@[at].bookmark)
        } else if parent == Some(directory) {
            Start::Select(self.directory)
        } else {
            Start::Top
        }
    }

    /// Begins to browse.
    pub fn new(directory: FileId) -> (browser: Browser)
        ensures
            browser.directory == directory,
            browser.history@.len() == 0,
    {
        Browser { directory, history: VecDeque::new() }
    }

    /// Goes to another directory; `bookmark` is what the present one shows.
    /// Returns how the rows begin, unless that is where it is already.
    pub fn browse_directory(
        &mut self,
        directory: FileId,
        parent: Option<FileId>,
        bookmark: u64,
    ) -> (start: Option<Start>)
        requires
            old(self).history@.len() <= HISTORY,
        ensures
            if directory == old(self).directory {
                start is None && *final(self) == *old(self)
            } else {
                &&& start == Some(old(self).starts(directory, parent))
                &&& final(self).directory == directory
                &&& final(self).history@ == old(self).left_for(directory, bookmark)
            },
            final(self).history@.len() <= HISTORY,
    {
        if directory == self.directory {
            return None;
        }
        let mut i: usize = 0;
        while i < self.history.len() && self.history[i].directory != directory
            invariant
                i <= self.history.len(),
                forall|j: int|
                    0 <= j < i ==> (#[trigger] self.history@[j]).directory != directory,
            decreases self.history.len() - i,
        {
            i += 1;
        }
        proof {
            lemma_is_first(
                self.history@,
                |left: Left| left.directory == directory,
                i as int,
            );
        }
        let mut start = Start::Top;
        if i < self.history.len() {
            match self.history.remove(i) {
                Some(left) => {
                    start = Start::Restore(left.bookmark);
                },
                None => {},
            }
        } else {
            match parent {
                Some(parent) => {
                    if parent == directory {
                        start = Start::Select(self.directory);
                    }
                },
                None => {},
            }
        }
        let ghost rest = self.history@;
        assert(rest == old(self).forgotten(directory));
        if self.history.len() == HISTORY {
            self.history.pop_front();
            assert(self.history@ =~= rest.drop_first());
        }
        self.history.push_back(Left { directory: self.directory, bookmark });
        self.directory = directory;
        Some(start)
    }
}

impl App {
    /// What the open picker browses, where it browses.
    pub open spec fn browsing(self) -> Option<Browser> {
        match self.picker.active {
            Some(active) => match active.source {
                Source::Browser(browser) => Some(browser),
                _ => None,
            },
            None => None,
        }
    }

    /// Opens a picker of the entries of a directory. `named` says whether the
    /// directory was asked for by name rather than as that of the active file.
    /// Returns the file to select, where there is one.
    pub fn open_browser(
        &mut self,
        view: Rows,
        directory: Result<FileId, Error>,
        named: bool,
        out: &mut Vec<Effect>,
    ) -> (selected: Result<Option<FileId>, Error>)
        requires
            old(self).picker.next_session < u64::MAX,
        ensures
            match (directory, selected) {
                (Ok(directory), Ok(file)) => {
                    &&& file == if named { None } else { old(self).editor.file }
                    &&& final(self).browsing() matches Some(browser) && {
                        let begun = old(self).picker_prepared().picker_begun(
                            view,
                            Source::Browser(browser),
                        );
                        &&& browser.directory == directory
                        &&& browser.history@.len() == 0
                        &&& *final(self) == begun.ranking_submitted().cleared()
                        &&& final(out)@ == old(out)@ + old(self).prepare_effects()
                            + begun.picker.active->0.cancel_effects()
                    }
                },
                (Err(error), Err(refused)) => {
                    refused == error && *final(self) == *old(self) && final(out)@ == old(out)@
                },
                _ => false,
            },
    {
        let directory = match directory {
            Ok(directory) => directory,
            Err(error) => {
                return Err(error);
            },
        };
        self.prepare_picker(out);
        self.begin_picker(view, Source::Browser(Browser::new(directory)));
        self.submit_ranking(out);
        self.clear_message();
        Ok(if named { None } else { self.editor.file })
    }

    /// Goes to another directory, where the picker browses; `view` shows it.
    /// Returns how its rows begin, unless that is where it is already.
    pub fn browse_directory(
        &mut self,
        directory: FileId,
        parent: Option<FileId>,
        bookmark: u64,
        view: Rows,
        out: &mut Vec<Effect>,
    ) -> (start: Option<Start>)
        requires
            old(self).browsing() matches Some(browser) ==> browser.history@.len() <= HISTORY,
            old(self).picker.active is Some ==> old(self).picker.active->0.revision < u64::MAX,
        ensures
            directory_browsed(
                *old(self),
                directory,
                parent,
                bookmark,
                view,
                *final(self),
                old(out)@,
                final(out)@,
                start,
            ),
            final(self).browsing() matches Some(browser) ==> browser.history@.len() <= HISTORY,
    {
        let start = match &mut self.picker.active {
            Some(active) => match &mut active.source {
                Source::Browser(browser) => {
                    let start = browser.browse_directory(directory, parent, bookmark);
                    if start.is_some() {
                        active.view = view;
                    }
                    start
                },
                _ => None,
            },
            None => None,
        };
        if start.is_some() {
            self.submit_ranking(out);
        }
        start
    }

    /// Goes to the directory that holds the present one, where there is one.
    pub fn browser_parent(
        &mut self,
        parent: Option<FileId>,
        bookmark: u64,
        view: Rows,
        out: &mut Vec<Effect>,
    ) -> (start: Option<Start>)
        requires
            old(self).browsing() matches Some(browser) ==> browser.history@.len() <= HISTORY,
            old(self).picker.active is Some ==> old(self).picker.active->0.revision < u64::MAX,
        ensures
            match parent {
                Some(directory) => directory_browsed(
                    *old(self),
                    directory,
                    parent,
                    bookmark,
                    view,
                    *final(self),
                    old(out)@,
                    final(out)@,
                    start,
                ),
                None => start is None && *final(self) == *old(self) && final(out)@ == old(out)@,
            },
            final(self).browsing() matches Some(browser) ==> browser.history@.len() <= HISTORY,
    {
        match parent {
            Some(directory) => self.browse_directory(directory, parent, bookmark, view, out),
            None => None,
        }
    }

    /// The application that browses what a worker found the directory to be.
    pub open spec fn resolved_to(self, directory: Option<FileId>) -> App {
        match (self.browsing(), directory) {
            (Some(browser), Some(directory)) => self.with_picker(
                Active {
                    source: Source::Browser(Browser { directory, ..browser }),
                    ..self.picker.active->0
                },
            ),
            _ => self,
        }
    }

    /// Takes the ranked entries of a directory, and where it really is. Those of
    /// an older query change nothing. Returns whether to redraw, and the entry
    /// to open where acceptance waited for the entries.
    pub fn handle_browser_result(
        &mut self,
        directory: Option<FileId>,
        rows: Ranked,
        room: bool,
        out: &mut Vec<Effect>,
    ) -> (taken: (bool, Option<Target>))
        requires
            old(self).screen().valid(),
            old(self).navigation.next < u64::MAX,
            old(self).picker.active is Some ==> old(self).picker.active->0.preview_request
                < u64::MAX,
        ensures
            if old(self).takes_rows(Sort::Browser, rows.session, rows.revision) {
                let accept = old(self).picker.active->0.accept_pending && rows.items > 0;
                let shown = old(self).resolved_to(directory).rows_shown(Sort::Browser, rows, false);
                &&& taken.0
                &&& taken.1 == if accept { shown.picked() } else { None }
                &&& final(self).is(shown.screen().settled(accept, room))
                &&& final(out)@ == old(out)@ + shown.settle_effects(accept, room)
            } else {
                &&& taken == (false, None::<Target>)
                &&& *final(self) == *old(self)
                &&& final(out)@ == old(out)@
            },
    {
        match &mut self.picker.active {
            Some(active) => {
                let current = active.awaiting(&rows);
                match &mut active.source {
                    Source::Browser(browser) => {
                        if !current {
                            return (false, None);
                        }
                        match directory {
                            Some(directory) => {
                                browser.directory = directory;
                            },
                            None => {},
                        }
                    },
                    _ => {
                        return (false, None);
                    },
                }
            },
            None => {
                return (false, None);
            },
        }
        assert(*self == old(self).resolved_to(directory));
        self.receive_rows(Sort::Browser, rows, false, room, out)
    }
}

/// Whether the picker went to another directory as it should.
pub open spec fn directory_browsed(
    before: App,
    directory: FileId,
    parent: Option<FileId>,
    bookmark: u64,
    view: Rows,
    after: App,
    asked: Seq<Effect>,
    asks: Seq<Effect>,
    start: Option<Start>,
) -> bool {
    match before.browsing() {
        Some(browser) if directory != browser.directory => {
            let active = before.picker.active->0;
            &&& start == Some(browser.starts(directory, parent))
            &&& asks == asked + active.cancel_effects()
            &&& after.browsing() matches Some(next) && {
                &&& next.directory == directory
                &&& next.history@ == browser.left_for(directory, bookmark)
                &&& after == before.with_picker(
                    Active { view, source: Source::Browser(next), ..active },
                ).ranking_submitted()
            }
        },
        _ => start is None && after == before && asks == asked,
    }
}

/// Going to a directory and back restores the rows that it showed.
pub proof fn law_going_back_restores_the_rows(
    browser: Browser,
    directory: FileId,
    bookmark: u64,
    after: Browser,
    parent: Option<FileId>,
)
    requires
        directory != browser.directory,
        after.directory == directory,
        after.history@ == browser.left_for(directory, bookmark),
        forall|i: int|
            0 <= i < browser.history@.len() ==> (#[trigger] browser.history@[i]).directory
                != browser.directory,
    ensures
        after.starts(browser.directory, parent) == Start::Restore(bookmark),
{
    let home = browser.directory;
    let rest = browser.forgotten(directory);
    let kept = if rest.len() == HISTORY { rest.drop_first() } else { rest };
    assert(after.history@ == kept.push(Left { directory: home, bookmark }));
    crate::find::lemma_first_where(browser.history@, |left: Left| left.directory == directory);
    assert forall|i: int| 0 <= i < rest.len() implies (#[trigger] rest[i]).directory != home by {
        let at = find_left(browser.history@, directory);
        if at < browser.history@.len() {
            assert(rest[i] == browser.history@[if i < at { i } else { i + 1 }]);
        }
    }
    assert forall|i: int| 0 <= i < kept.len() implies (#[trigger] after.history@[i]).directory
        != home by {
        assert(after.history@[i] == kept[i]);
        assert(kept[i] == rest[if rest.len() == HISTORY { i + 1 } else { i }]);
    }
    lemma_is_first(
        after.history@,
        |left: Left| left.directory == home,
        kept.len() as int,
    );
}

} // verus!
