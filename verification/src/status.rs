//! Repository view lifecycle. Only read queries use this replaceable mailbox;
//! mutations use the separate ordered Git write worker.

use crate::app::App;
use crate::editor::Time;
use crate::effect::{Effect, Job};
use crate::error::Error;
use crate::find::{first_where, lemma_first_where, lemma_is_first};
use crate::git_write;
use crate::roots::{
    before, below, compare, contains_root, copy_roots, in_order, lemma_same_names, lists,
    names_shown, paths, relative, same_root, same_roots, shown, shown_roots, Place,
};
use crate::shared::share;
use crate::windows::{
    find_pane, has_pane, lemma_find_pane, lemma_focused_pane, pane_of, views, Pane, Root, Screen,
};
use vstd::prelude::*;

verus! {

/// Nanoseconds between two looks at the repositories on the screen.
pub const REFRESH: u64 = 2_000_000_000;

/// No more repository views than this are kept.
pub const MAX_VIEWS: usize = 16;

/// A repository view.
#[derive(Debug)]
pub struct RepoView {
    /// Where it was opened from.
    pub key: Root,
    /// The repository, once it was read.
    pub root: Option<Root>,
    pub refreshing: bool,
    pub help: bool,
    /// Whether a section is expanded.
    pub expanded: bool,
    /// Whether the selection stays where it is when the rows change.
    pub keep_position: bool,
    /// Whether a Git operation runs for the repository.
    pub running: bool,
    /// Whether the last operation failed, where its output is shown.
    pub failed: Option<bool>,
}

#[derive(Debug)]
pub struct State {
    /// The views, in the order of their keys.
    pub views: Vec<RepoView>,
    pub visible: Vec<Root>,
    pub due: Option<Time>,
    pub request: u64,
    /// Whether the last look was given up.
    pub cancelled: bool,
}

/// Where a view is.
pub open spec fn find_view(views: Seq<RepoView>, key: Seq<u8>) -> int {
    first_where(views, |view: RepoView| view.key@ == key)
}

/// The first view with a key is the one that is found.
pub proof fn lemma_find_view(views: Seq<RepoView>, key: Root, at: int)
    requires
        0 <= at < views.len(),
        views[at].key@ == key@,
        forall|i: int| 0 <= i < at ==> (#[trigger] views[i]).key@ != key@,
    ensures
        find_view(views, key@) == at,
{
    lemma_is_first(views, |view: RepoView| view.key@ == key@, at);
}

/// Where another view of a repository is found.
pub proof fn lemma_find_twin(views: Seq<RepoView>, origin: Root, root: Root)
    ensures
        ({
            let at = find_twin(views, origin@, root@);
            &&& 0 <= at <= views.len()
            &&& at < views.len() ==> is_twin(views[at], origin@, root@)
            &&& forall|i: int|
                0 <= i < at ==> !is_twin(#[trigger] views[i], origin@, root@)
        }),
{
    let test = |view: RepoView| is_twin(view, origin@, root@);
    lemma_first_where(views, test);
    let at = find_twin(views, origin@, root@);
    assert forall|i: int| 0 <= i < at implies !is_twin(#[trigger] views[i], origin@, root@) by {
        assert(!test(views[i]));
    }
}

/// Whether there is a view.
pub open spec fn has_view(views: Seq<RepoView>, key: Seq<u8>) -> bool {
    find_view(views, key) < views.len()
}

/// Whether views are in the order of their keys, each once.
pub open spec fn views_in_order(views: Seq<RepoView>) -> bool {
    forall|i: int, j: int|
        0 <= i < j < views.len() ==> before((#[trigger] views[i]).key@, (#[trigger] views[j]).key@)
}

/// A new view.
pub open spec fn blank(key: Root) -> RepoView {
    RepoView {
        key,
        root: None,
        refreshing: false,
        help: false,
        expanded: false,
        keep_position: false,
        running: false,
        failed: None,
    }
}

/// Where a key belongs among the views: behind all that come before it.
pub open spec fn view_slot(views: Seq<RepoView>, key: Seq<u8>) -> int {
    first_where(views, |view: RepoView| !before(view.key@, key))
}

/// Whether a view may be dropped to make room: no window shows it, no commit
/// draft returns to it, and no Git operation runs for its repository.
pub open spec fn droppable(
    view: RepoView,
    panes: Seq<Pane>,
    writes: git_write::State,
) -> bool {
    &&& !shown(panes, view.key@)
    &&& !git_write::has_draft_for(writes.drafts@, view.key@)
    &&& !(view.root matches Some(root) && git_write::is_pending(writes.pending@, root@))
}

/// Where the first view that may be dropped is.
pub open spec fn first_droppable(
    views: Seq<RepoView>,
    panes: Seq<Pane>,
    writes: git_write::State,
) -> int {
    first_where(views, |view: RepoView| droppable(view, panes, writes))
}

/// The views with a new one, or none where there is no room for it: a view
/// that may be dropped makes room.
pub open spec fn with_view(
    views: Seq<RepoView>,
    key: Root,
    panes: Seq<Pane>,
    writes: git_write::State,
) -> Option<Seq<RepoView>> {
    if has_view(views, key@) {
        Some(views)
    } else if views.len() < MAX_VIEWS {
        Some(views.insert(view_slot(views, key@), blank(key)))
    } else if first_droppable(views, panes, writes) < views.len() {
        let rest = views.remove(first_droppable(views, panes, writes));
        Some(rest.insert(view_slot(rest, key@), blank(key)))
    } else {
        None
    }
}

/// The views of which those that windows show are being read again.
pub open spec fn refreshing(views: Seq<RepoView>, panes: Seq<Pane>) -> Seq<RepoView> {
    views.map_values(
        |view: RepoView|
            if shown(panes, view.key@) {
                RepoView { refreshing: true, ..view }
            } else {
                view
            },
    )
}

pub(crate) fn view_index(views: &Vec<RepoView>, key: &Root) -> (index: usize)
    ensures
        index == find_view(views@, key@),
        index <= views@.len(),
{
    let mut i: usize = 0;
    while i < views.len() && !same_root(&views[i].key, key)
        invariant
            i <= views.len(),
            forall|j: int| 0 <= j < i ==> (#[trigger] views@[j]).key@ != key@,
        decreases views.len() - i,
    {
        i += 1;
    }
    proof {
        lemma_is_first(views@, |view: RepoView| view.key@ == key@, i as int);
    }
    i
}

fn slot_index(views: &Vec<RepoView>, key: &Root) -> (index: usize)
    ensures
        index == view_slot(views@, key@),
        index <= views@.len(),
{
    let mut i: usize = 0;
    while i < views.len() && compare(&views[i].key, key) == Place::Before
        invariant
            i <= views.len(),
            forall|j: int| 0 <= j < i ==> before((#[trigger] views@[j]).key@, key@),
        decreases views.len() - i,
    {
        i += 1;
    }
    proof {
        crate::roots::lemma_order(key@, key@);
        lemma_is_first(views@, |view: RepoView| !before(view.key@, key@), i as int);
    }
    i
}

/// Putting a view where its key belongs keeps the views in order.
proof fn lemma_slot_in_order(views: Seq<RepoView>, key: Root)
    requires
        views_in_order(views),
        !has_view(views, key@),
    ensures
        views_in_order(views.insert(view_slot(views, key@), blank(key))),
{
    let at = view_slot(views, key@);
    let after = views.insert(at, blank(key));
    lemma_first_where(views, |view: RepoView| !before(view.key@, key@));
    lemma_first_where(views, |view: RepoView| view.key@ == key@);
    assert forall|i: int, j: int| 0 <= i < j < after.len() implies before(
        (#[trigger] after[i]).key@,
        (#[trigger] after[j]).key@,
    ) by {
        let a = if i < at { i } else { i - 1 };
        let b = if j < at { j } else { j - 1 };
        if i != at && j != at {
            assert(before(views[a].key@, views[b].key@));
        } else if j == at {
            let test = |view: RepoView| !before(view.key@, key@);
            assert(!test(views[i]));
        } else {
            let test = |view: RepoView| view.key@ == key@;
            assert(!test(views[b]));
            assert(!test(views[at]));
            crate::roots::lemma_order(views[at].key@, key@);
            if b > at {
                assert(before(views[at].key@, views[b].key@));
                crate::roots::lemma_order_transitive(key@, views[at].key@, views[b].key@);
            }
        }
    }
}

proof fn lemma_remove_in_order(views: Seq<RepoView>, at: int)
    requires
        views_in_order(views),
        0 <= at < views.len(),
    ensures
        views_in_order(views.remove(at)),
        forall|key: Seq<u8>|
            !has_view(views, key) ==> !#[trigger] has_view(views.remove(at), key),
{
    let after = views.remove(at);
    assert forall|i: int, j: int| 0 <= i < j < after.len() implies before(
        (#[trigger] after[i]).key@,
        (#[trigger] after[j]).key@,
    ) by {
        let a = if i < at { i } else { i + 1 };
        let b = if j < at { j } else { j + 1 };
        assert(before(views[a].key@, views[b].key@));
    }
    assert forall|key: Seq<u8>| !has_view(views, key) implies !#[trigger] has_view(after, key) by {
        let test = |view: RepoView| view.key@ == key;
        lemma_first_where(views, test);
        lemma_first_where(after, test);
        let found = find_view(after, key);
        if found < after.len() {
            assert(!test(views[if found < at { found } else { found + 1 }]));
        }
    }
}

impl Screen {
    /// The repository that the active window shows.
    pub open spec fn git_view(self) -> Option<Root> {
        pane_of(self.panes, self.app.window()).git
    }

    /// The screen whose active window shows a repository, or its document.
    pub open spec fn with_git(self, git: Option<Root>) -> Screen {
        let at = find_pane(self.panes, self.app.window());
        Screen { panes: self.panes.update(at, Pane { git, ..self.panes[at] }), ..self }
    }
}

/// Showing a repository in front of a document changes no window and no
/// document.
pub proof fn lemma_with_git(screen: Screen, git: Option<Root>)
    requires
        screen.valid(),
    ensures
        screen.with_git(git).valid(),
{
    lemma_focused_pane(screen);
    let after = screen.with_git(git);
    let at = find_pane(screen.panes, screen.app.window());
    assert forall|i: int| 0 <= i < screen.panes.len() implies (#[trigger] after.panes[i]).id
        == screen.panes[i].id && after.panes[i].document == screen.panes[i].document by {}
    assert forall|id: u64| #[trigger] has_pane(after.panes, id) <==> has_pane(screen.panes, id) by {
        if has_pane(screen.panes, id) {
            let i = choose|i: int| 0 <= i < screen.panes.len() && (#[trigger] screen.panes[i]).id == id;
            assert(after.panes[i].id == id);
        }
        if has_pane(after.panes, id) {
            let i = choose|i: int| 0 <= i < after.panes.len() && (#[trigger] after.panes[i]).id == id;
            assert(screen.panes[i].id == id);
        }
    }
    assert forall|id: u64| #[trigger]
        after.app.windows.layout.root.leaves().contains(id) <==> has_pane(after.panes, id) by {
        assert(screen.app.windows.layout.root.leaves().contains(id) <==> has_pane(
            screen.panes,
            id,
        ));
    }
    assert forall|i: int, j: int| 0 <= i < j < after.panes.len() implies (
    #[trigger] after.panes[i]).id != (#[trigger] after.panes[j]).id by {
        assert(screen.panes[i].id != screen.panes[j].id);
    }
    assert(after.panes[at].id == screen.app.window());
    lemma_find_pane(after.panes, at);
    assert forall|i: int| 0 <= i < after.panes.len() implies (
    #[trigger] after.panes[i]).document == after.app.editor.document || crate::windows::has_buffer(
        after.buffers,
        after.panes[i].document,
    ) by {
        assert(screen.panes[i].document == after.panes[i].document);
    }
    assert forall|id: u64| #[trigger] has_pane(after.panes, id) implies crate::jumps::has_trail(
        after.trails,
        id,
    ) by {
        assert(has_pane(screen.panes, id));
    }
}

impl App {
    /// The repository that the active window shows.
    pub fn active_git_view(&self) -> (root: Option<Root>)
        requires
            self.screen().valid(),
        ensures
            root == self.screen().git_view(),
    {
        proof {
            lemma_focused_pane(self.screen());
        }
        let index = self.pane_index(self.windows.layout.active);
        match &self.windows.panes[index].git {
            Some(root) => Some(share(root)),
            None => None,
        }
    }

    /// Shows a repository in the active window, or its document again.
    pub fn set_git_view(&mut self, git: Option<Root>)
        requires
            old(self).screen().valid(),
        ensures
            final(self).is(old(self).screen().with_git(git)),
            *final(self) == (App {
                windows: crate::windows::State {
                    panes: final(self).windows.panes,
                    ..old(self).windows
                },
                ..*old(self)
            }),
            final(self).screen().valid(),
    {
        proof {
            lemma_focused_pane(self.screen());
            lemma_with_git(self.screen(), git);
        }
        let index = self.pane_index(self.windows.layout.active);
        let pane = &mut self.windows.panes[index];
        pane.git = git;
    }

    /// The repositories that windows show, in order, each once.
    pub fn git_view_keys(&self) -> (roots: Vec<Root>)
        ensures
            in_order(roots@),
            forall|path: Seq<u8>| #[trigger]
                lists(roots@, path) <==> shown(self.windows.panes@, path),
    {
        shown_roots(&self.windows.panes)
    }

    /// Reads the repositories on the screen again.
    pub fn refresh_status(&mut self, now: Time, out: &mut Vec<Effect>)
        ensures
            status_refreshed(*old(self), now, *final(self), old(out)@, final(out)@),
            views_in_order(old(self).status.views@) ==> views_in_order(final(self).status.views@),
    {
        let keys = self.git_view_keys();
        let ghost panes = self.windows.panes@;
        if keys.len() == 0 {
            assert forall|path: Seq<u8>| !#[trigger] shown(panes, path) by {
                assert(lists(keys@, path) <==> shown(panes, path));
            }
            return;
        }
        assert(lists(keys@, keys@[0]@));
        assert(shown(panes, keys@[0]@));
        out.push(Effect::Cancel(Job::Status(self.status.request)));
        self.status.cancelled = true;
        self.status.due = Some(now);
        let ghost start = self.status.views@;
        let mut i: usize = 0;
        while i < self.status.views.len()
            invariant
                i <= self.status.views.len(),
                self.status.views.len() == start.len(),
                panes == old(self).windows.panes@,
                forall|path: Seq<u8>| #[trigger] lists(keys@, path) <==> shown(panes, path),
                forall|j: int|
                    0 <= j < i ==> #[trigger] self.status.views@[j] == refreshing(
                        start,
                        panes,
                    )[j],
                forall|j: int| i <= j < start.len() ==> #[trigger] self.status.views@[j] == start[j],
                self.status == (State { views: self.status.views, ..self.status }),
                *self == (App {
                    status: State {
                        views: self.status.views,
                        due: Some(now),
                        cancelled: true,
                        ..old(self).status
                    },
                    ..*old(self)
                }),
            decreases self.status.views.len() - i,
        {
            let listed = contains_root(&keys, &self.status.views[i].key);
            assert(self.status.views@[i as int] == start[i as int]);
            if listed {
                let view = &mut self.status.views[i];
                view.refreshing = true;
            }
            i += 1;
        }
        assert(self.status.views@ =~= refreshing(start, panes));
        proof {
            if views_in_order(start) {
                assert forall|a: int, b: int| 0 <= a < b < start.len() implies before(
                    (#[trigger] self.status.views@[a]).key@,
                    (#[trigger] self.status.views@[b]).key@,
                ) by {
                    assert(before(start[a].key@, start[b].key@));
                }
            }
        }
    }

    pub fn status_deadline(&self) -> (due: Option<Time>)
        ensures
            due == self.status.due,
    {
        self.status.due
    }

    /// Finds room for the view of a repository.
    fn make_view(&mut self, origin: &Root) -> (result: Result<(), Error>)
        requires
            views_in_order(old(self).status.views@),
            old(self).status.views@.len() <= MAX_VIEWS,
        ensures
            match with_view(
                old(self).status.views@,
                *origin,
                old(self).windows.panes@,
                old(self).git_write,
            ) {
                Some(views) => {
                    &&& result is Ok
                    &&& final(self).status.views@ == views
                    &&& *final(self) == (App {
                        status: State {
                            views: final(self).status.views,
                            ..old(self).status
                        },
                        ..*old(self)
                    })
                },
                None => {
                    &&& result == Err::<(), Error>(Error::TooManyGitViews)
                    &&& *final(self) == *old(self)
                },
            },
            views_in_order(final(self).status.views@),
            final(self).status.views@.len() <= MAX_VIEWS,
    {
        if view_index(&self.status.views, origin) < self.status.views.len() {
            return Ok(());
        }
        let ghost before_views = self.status.views@;
        if self.status.views.len() >= MAX_VIEWS {
            let at = self.droppable_index();
            if at == self.status.views.len() {
                return Err(Error::TooManyGitViews);
            }
            proof {
                lemma_remove_in_order(before_views, at as int);
            }
            self.status.views.remove(at);
        }
        let ghost rest = self.status.views@;
        proof {
            lemma_slot_in_order(rest, *origin);
        }
        let slot = slot_index(&self.status.views, origin);
        self.status.views.insert(
            slot,
            RepoView {
                key: share(origin),
                root: None,
                refreshing: false,
                help: false,
                expanded: false,
                keep_position: false,
                running: false,
                failed: None,
            },
        );
        Ok(())
    }

    fn droppable_index(&self) -> (index: usize)
        ensures
            index == first_droppable(self.status.views@, self.windows.panes@, self.git_write),
            index <= self.status.views@.len(),
    {
        let keys = self.git_view_keys();
        let mut i: usize = 0;
        while i < self.status.views.len()
            invariant
                i <= self.status.views.len(),
                forall|path: Seq<u8>| #[trigger]
                    lists(keys@, path) <==> shown(self.windows.panes@, path),
                forall|j: int|
                    0 <= j < i ==> !droppable(
                        #[trigger] self.status.views@[j],
                        self.windows.panes@,
                        self.git_write,
                    ),
            ensures
                i <= self.status.views.len(),
                forall|j: int|
                    0 <= j < i ==> !droppable(
                        #[trigger] self.status.views@[j],
                        self.windows.panes@,
                        self.git_write,
                    ),
                i < self.status.views.len() ==> droppable(
                    self.status.views@[i as int],
                    self.windows.panes@,
                    self.git_write,
                ),
            decreases self.status.views.len() - i,
        {
            let view = &self.status.views[i];
            let visible = contains_root(&keys, &view.key);
            let drafted = git_write::drafts_return_to(&self.git_write.drafts, &view.key);
            let busy = match &view.root {
                Some(root) => self.git_operation_for(root),
                None => false,
            };
            if !visible && !drafted && !busy {
                break;
            }
            i += 1;
        }
        proof {
            lemma_is_first(
                self.status.views@,
                |view: RepoView| droppable(view, self.windows.panes@, self.git_write),
                i as int,
            );
        }
        i
    }

    /// What opening a repository view asks for, before it is read.
    pub open spec fn open_status_effects(self) -> Seq<Effect> {
        self.language.cancel_effects() + seq![
            Effect::FinishUndoGroup,
            Effect::CancelSearch,
            Effect::CancelKeys,
        ]
    }

    /// Shows the repository of the active document in the active window, or
    /// reads it again where it is shown. `origin` is where to look for it.
    pub fn open_git_status(
        &mut self,
        origin: Result<Root, Error>,
        now: Time,
        out: &mut Vec<Effect>,
    ) -> (result: Result<(), Error>)
        requires
            old(self).screen().valid(),
            views_in_order(old(self).status.views@),
            old(self).status.views@.len() <= MAX_VIEWS,
        ensures
            status_opened(
                *old(self),
                origin,
                now,
                *final(self),
                old(out)@,
                final(out)@,
                result,
            ),
            final(self).screen().valid(),
            views_in_order(final(self).status.views@),
            final(self).status.views@.len() <= MAX_VIEWS,
    {
        match self.active_git_view() {
            Some(root) => {
                proof {
                    lemma_focused_pane(self.screen());
                    let at = find_pane(self.windows.panes@, self.window());
                    assert(self.windows.panes@[at].git == Some(root));
                    assert(shown(self.windows.panes@, root@));
                }
                self.refresh_status(now, out);
                return Ok(());
            },
            None => {},
        }
        let origin = match origin {
            Ok(origin) => origin,
            Err(error) => {
                return Err(error);
            },
        };
        match self.make_view(&origin) {
            Ok(()) => {},
            Err(error) => {
                return Err(error);
            },
        }
        let ghost made = *self;
        self.dismiss_language_help(out);
        out.push(Effect::FinishUndoGroup);
        out.push(Effect::CancelSearch);
        out.push(Effect::CancelKeys);
        self.git_write.status_prefix = None;
        self.prompt = None;
        self.clear_message();
        let ghost opening = *self;
        self.set_git_view(Some(share(&origin)));
        let ghost showing = *self;
        proof {
            lemma_focused_pane(opening.screen());
            let at = find_pane(opening.windows.panes@, opening.window());
            assert(showing.windows.panes@[at].git == Some(origin));
            assert(shown(showing.windows.panes@, origin@));
        }
        self.refresh_status(now, out);
        assert(out@ =~= (old(out)@ + old(self).open_status_effects()).push(
            Effect::Cancel(Job::Status(old(self).status.request)),
        ));
        Ok(())
    }

    /// Shows the document again in front of which a repository was shown.
    pub fn close_git_status(&mut self, out: &mut Vec<Effect>)
        requires
            old(self).screen().valid(),
        ensures
            status_closed(*old(self), *final(self), old(out)@, final(out)@),
            final(self).screen().valid(),
    {
        self.git_write.status_prefix = None;
        match self.active_git_view() {
            Some(key) => {
                self.close_help(&key);
            },
            None => {},
        }
        self.set_git_view(None);
        out.push(Effect::CancelKeys);
        self.prompt = None;
        self.clear_message();
    }

    pub(crate) fn close_help(&mut self, key: &Root)
        ensures
            final(self).status.views@ == without_help(old(self).status.views@, Some(*key)),
            *final(self) == (App {
                status: State { views: final(self).status.views, ..old(self).status },
                ..*old(self)
            }),
    {
        let at = view_index(&self.status.views, key);
        if at < self.status.views.len() {
            let view = &mut self.status.views[at];
            view.help = false;
        }
    }

    /// Shows or hides the keys of a repository view.
    pub fn toggle_help(&mut self, key: &Root)
        ensures
            ({
                let views = old(self).status.views@;
                let at = find_view(views, key@);
                final(self).status.views@ == if at < views.len() {
                    views.update(at, RepoView { help: !views[at].help, ..views[at] })
                } else {
                    views
                }
            }),
            *final(self) == (App {
                status: State { views: final(self).status.views, ..old(self).status },
                ..*old(self)
            }),
    {
        let at = view_index(&self.status.views, key);
        if at < self.status.views.len() {
            let view = &mut self.status.views[at];
            view.help = !view.help;
        }
    }
}

/// Whether the repositories on the screen are being read again, where there
/// are any.
pub open spec fn status_refreshed(
    before: App,
    now: Time,
    after: App,
    asked: Seq<Effect>,
    asks: Seq<Effect>,
) -> bool {
    let panes = before.windows.panes@;
    if exists|path: Seq<u8>| #[trigger] shown(panes, path) {
        &&& after.status.views@ == refreshing(before.status.views@, panes)
        &&& after.status == (State {
            views: after.status.views,
            due: Some(now),
            cancelled: true,
            ..before.status
        })
        &&& after == (App { status: after.status, ..before })
        &&& asks == asked.push(Effect::Cancel(Job::Status(before.status.request)))
    } else {
        after == before && asks == asked
    }
}

/// Whether the document is shown again in front of which a repository was.
pub open spec fn status_closed(
    before: App,
    after: App,
    asked: Seq<Effect>,
    asks: Seq<Effect>,
) -> bool {
    &&& after.status.views@ == without_help(before.status.views@, before.screen().git_view())
    &&& after.windows.panes@ == before.screen().with_git(None).panes
    &&& after.windows == (crate::windows::State { panes: after.windows.panes, ..before.windows })
    &&& after == (App {
        status: State { views: after.status.views, ..before.status },
        windows: after.windows,
        git_write: git_write::State { status_prefix: None, ..before.git_write },
        prompt: None,
        ..before.cleared()
    })
    &&& asks == asked.push(Effect::CancelKeys)
}

/// The views of which one no longer shows its keys.
pub open spec fn without_help(views: Seq<RepoView>, key: Option<Root>) -> Seq<RepoView> {
    match key {
        Some(key) => {
            let at = find_view(views, key@);
            if at < views.len() {
                views.update(at, RepoView { help: false, ..views[at] })
            } else {
                views
            }
        },
        None => views,
    }
}

/// Whether a repository view was opened as it should be.
pub open spec fn status_opened(
    before: App,
    origin: Result<Root, Error>,
    now: Time,
    after: App,
    asked: Seq<Effect>,
    asks: Seq<Effect>,
    result: Result<(), Error>,
) -> bool {
    let panes = before.windows.panes@;
    if before.screen().git_view() is Some {
        &&& result is Ok
        &&& after.status.views@ == refreshing(before.status.views@, panes)
        &&& after.status == (State {
            views: after.status.views,
            due: Some(now),
            cancelled: true,
            ..before.status
        })
        &&& after == (App { status: after.status, ..before })
        &&& asks == asked.push(Effect::Cancel(Job::Status(before.status.request)))
    } else {
        match origin {
            Err(error) => {
                &&& result == Err::<(), Error>(error)
                &&& after == before
                &&& asks == asked
            },
            Ok(origin) => match with_view(
                before.status.views@,
                origin,
                panes,
                before.git_write,
            ) {
                None => {
                    &&& result == Err::<(), Error>(Error::TooManyGitViews)
                    &&& after == before
                    &&& asks == asked
                },
                Some(views) => {
                    let app = before.dismissed().cleared();
                    &&& result is Ok
                    &&& after.windows.panes@ == before.screen().with_git(Some(origin)).panes
                    &&& after.status.views@ == refreshing(views, after.windows.panes@)
                    &&& after.status == (State {
                        views: after.status.views,
                        due: Some(now),
                        cancelled: true,
                        ..before.status
                    })
                    &&& after == (App {
                        status: after.status,
                        windows: after.windows,
                        git_write: git_write::State { status_prefix: None, ..before.git_write },
                        prompt: None,
                        ..app
                    })
                    &&& after.windows == (crate::windows::State {
                        panes: after.windows.panes,
                        ..before.windows
                    })
                    &&& asks == (asked + before.open_status_effects()).push(
                        Effect::Cancel(Job::Status(before.status.request)),
                    )
                },
            },
        }
    }
}

/// Repositories to read.
#[derive(Debug)]
pub struct Batch {
    pub request: u64,
    pub views: Vec<Root>,
}

/// A repository that was read: where it was looked for, and its root.
#[derive(Debug)]
pub struct Reading {
    pub origin: Root,
    pub root: Option<Root>,
}

/// Where another view of the same repository is.
pub open spec fn find_twin(views: Seq<RepoView>, origin: Seq<u8>, root: Seq<u8>) -> int {
    first_where(views, |view: RepoView| is_twin(view, origin, root))
}

/// Whether a view is another one of the same repository.
pub open spec fn is_twin(view: RepoView, origin: Seq<u8>, root: Seq<u8>) -> bool {
    view.key@ != origin && (view.root matches Some(known) && known@ == root)
}

/// The panes of which those that show one repository show another.
pub open spec fn remapped(panes: Seq<Pane>, from: Seq<u8>, to: Root) -> Seq<Pane> {
    panes.map_values(
        |pane: Pane|
            match pane.git {
                Some(root) => if root@ == from { Pane { git: Some(to), ..pane } } else { pane },
                None => pane,
            },
    )
}

/// The views without one.
pub open spec fn without_view(views: Seq<RepoView>, key: Seq<u8>) -> Seq<RepoView> {
    let at = find_view(views, key);
    if at < views.len() { views.remove(at) } else { views }
}

/// The views of which one was read.
pub open spec fn with_reading(views: Seq<RepoView>, key: Seq<u8>, root: Option<Root>) -> Seq<
    RepoView,
> {
    let at = find_view(views, key);
    if at < views.len() {
        views.update(
            at,
            RepoView {
                root: match root {
                    Some(root) => Some(root),
                    None => views[at].root,
                },
                refreshing: false,
                ..views[at]
            },
        )
    } else {
        views
    }
}

/// The views and panes after a repository was read, and whether its rows are
/// to be read again. A repository that another view shows already is shown by
/// that one: nested repositories and submodules retain their own identities,
/// since only the root that was found decides.
pub open spec fn read_one(
    views: Seq<RepoView>,
    panes: Seq<Pane>,
    reading: Reading,
) -> (Seq<RepoView>, Seq<Pane>, bool) {
    let origin = reading.origin@;
    let twin = match reading.root {
        Some(root) => find_twin(views, origin, root@),
        None => views.len() as int,
    };
    if twin < views.len() {
        let key = views[twin].key;
        let rest = without_view(views, origin);
        (
            with_reading(rest, key@, reading.root),
            remapped(panes, origin, key),
            views[twin].expanded,
        )
    } else {
        (with_reading(views, origin, reading.root), panes, false)
    }
}

/// The views and panes after the first of some repositories were read.
pub open spec fn read_all(
    views: Seq<RepoView>,
    panes: Seq<Pane>,
    readings: Seq<Reading>,
) -> (Seq<RepoView>, Seq<Pane>, bool)
    decreases readings.len(),
{
    if readings.len() == 0 {
        (views, panes, false)
    } else {
        let before = read_all(views, panes, readings.drop_last());
        let after = read_one(before.0, before.1, readings.last());
        (after.0, after.1, before.2 || after.2)
    }
}

fn twin_index(views: &Vec<RepoView>, origin: &Root, root: &Root) -> (index: usize)
    ensures
        index == find_twin(views@, origin@, root@),
        index <= views@.len(),
{
    let mut i: usize = 0;
    while i < views.len()
        invariant
            i <= views.len(),
            forall|j: int| 0 <= j < i ==> !is_twin(#[trigger] views@[j], origin@, root@),
        ensures
            i <= views.len(),
            forall|j: int| 0 <= j < i ==> !is_twin(#[trigger] views@[j], origin@, root@),
            i < views.len() ==> is_twin(views@[i as int], origin@, root@),
        decreases views.len() - i,
    {
        let other = !same_root(&views[i].key, origin);
        let known = match &views[i].root {
            Some(known) => same_root(known, root),
            None => false,
        };
        if other && known {
            break;
        }
        i += 1;
    }
    proof {
        lemma_is_first(views@, |view: RepoView| is_twin(view, origin@, root@), i as int);
    }
    i
}

impl App {
    /// Shows another repository wherever one is shown.
    pub fn remap_git_view(&mut self, from: &Root, to: &Root)
        ensures
            final(self).windows.panes@ == remapped(old(self).windows.panes@, from@, *to),
            *final(self) == (App {
                windows: crate::windows::State {
                    panes: final(self).windows.panes,
                    ..old(self).windows
                },
                ..*old(self)
            }),
    {
        let ghost start = self.windows.panes@;
        let mut i: usize = 0;
        while i < self.windows.panes.len()
            invariant
                i <= self.windows.panes.len(),
                self.windows.panes.len() == start.len(),
                start == old(self).windows.panes@,
                forall|j: int|
                    0 <= j < i ==> #[trigger] self.windows.panes@[j] == remapped(
                        start,
                        from@,
                        *to,
                    )[j],
                forall|j: int|
                    i <= j < start.len() ==> #[trigger] self.windows.panes@[j] == start[j],
                *self == (App {
                    windows: crate::windows::State {
                        panes: self.windows.panes,
                        ..old(self).windows
                    },
                    ..*old(self)
                }),
            decreases self.windows.panes.len() - i,
        {
            let shows = match &self.windows.panes[i].git {
                Some(root) => same_root(root, from),
                None => false,
            };
            assert(self.windows.panes@[i as int] == start[i as int]);
            if shows {
                let pane = &mut self.windows.panes[i];
                pane.git = Some(share(to));
            }
            i += 1;
        }
        assert(self.windows.panes@ =~= remapped(start, from@, *to));
    }

    fn read_view(&mut self, reading: &Reading) -> (reload: bool)
        ensures
            ({
                let after = read_one(
                    old(self).status.views@,
                    old(self).windows.panes@,
                    *reading,
                );
                &&& final(self).status.views@ == after.0
                &&& final(self).windows.panes@ == after.1
                &&& reload == after.2
            }),
            *final(self) == (App {
                windows: crate::windows::State {
                    panes: final(self).windows.panes,
                    ..old(self).windows
                },
                status: State { views: final(self).status.views, ..old(self).status },
                ..*old(self)
            }),
    {
        let twin = match &reading.root {
            Some(root) => twin_index(&self.status.views, &reading.origin, root),
            None => self.status.views.len(),
        };
        if twin < self.status.views.len() {
            let key = share(&self.status.views[twin].key);
            let expanded = self.status.views[twin].expanded;
            self.remap_git_view(&reading.origin, &key);
            let at = view_index(&self.status.views, &reading.origin);
            if at < self.status.views.len() {
                self.status.views.remove(at);
            }
            self.note_reading(&key, &reading.root);
            expanded
        } else {
            self.note_reading(&reading.origin, &reading.root);
            false
        }
    }

    fn note_reading(&mut self, key: &Root, root: &Option<Root>)
        ensures
            final(self).status.views@ == with_reading(old(self).status.views@, key@, *root),
            *final(self) == (App {
                status: State { views: final(self).status.views, ..old(self).status },
                ..*old(self)
            }),
    {
        let at = view_index(&self.status.views, key);
        if at < self.status.views.len() {
            let view = &mut self.status.views[at];
            match root {
                Some(root) => {
                    view.root = Some(share(root));
                },
                None => {},
            }
            view.refreshing = false;
        }
    }

    /// Takes the repositories of a batch that were read. Those of another batch
    /// change nothing. The next look is after the interval, or at once where
    /// rows of another view are to be shown.
    pub fn handle_status_result(
        &mut self,
        request: u64,
        readings: &Vec<Reading>,
        now: Time,
    ) -> (redraw: bool)
        requires
            now + REFRESH <= u64::MAX,
        ensures
            readings_taken(*old(self), request, readings@, now, *final(self), redraw),
    {
        if request != self.status.request || self.status.cancelled {
            return false;
        }
        let ghost views = self.status.views@;
        let ghost panes = self.windows.panes@;
        let mut reload = false;
        let mut i: usize = 0;
        assert(readings@.take(0) =~= seq![]);
        while i < readings.len()
            invariant
                i <= readings.len(),
                views == old(self).status.views@,
                panes == old(self).windows.panes@,
                (self.status.views@, self.windows.panes@, reload) == read_all(
                    views,
                    panes,
                    readings@.take(i as int),
                ),
                *self == (App {
                    windows: crate::windows::State {
                        panes: self.windows.panes,
                        ..old(self).windows
                    },
                    status: State { views: self.status.views, ..old(self).status },
                    ..*old(self)
                }),
            decreases readings.len() - i,
        {
            assert(readings@.take(i + 1).drop_last() =~= readings@.take(i as int));
            assert(readings@.take(i + 1).last() == readings@[i as int]);
            let again = self.read_view(&readings[i]);
            reload = reload || again;
            i += 1;
        }
        assert(readings@.take(i as int) =~= readings@);
        self.status.visible = self.git_view_keys();
        self.status.due = if self.status.visible.len() == 0 {
            None
        } else if reload {
            Some(now)
        } else {
            Some(now + REFRESH)
        };
        true
    }

    /// The state of the looks at repositories, once windows show others.
    pub open spec fn status_due(self, now: Time) -> Option<Time> {
        if names_shown(self.status.visible@, self.windows.panes@) {
            self.status.due
        } else if exists|path: Seq<u8>| #[trigger] shown(self.windows.panes@, path) {
            Some(now)
        } else {
            None
        }
    }

    /// Whether the repositories on the screen are to be read now.
    pub open spec fn status_ready(self, now: Time) -> bool {
        &&& exists|path: Seq<u8>| #[trigger] shown(self.windows.panes@, path)
        &&& self.status_due(now) matches Some(due) && due <= now
    }

    /// Hands out the repositories on the screen to be read, once that is due.
    pub fn take_status_batch(&mut self, now: Time, out: &mut Vec<Effect>) -> (batch: Option<Batch>)
        requires
            old(self).status.request < u64::MAX,
        ensures
            status_batch_taken(*old(self), now, *final(self), old(out)@, final(out)@, batch),
    {
        let ghost panes = self.windows.panes@;
        let keys = self.git_view_keys();
        assert(names_shown(keys@, panes));
        proof {
            lemma_same_names(keys@, self.status.visible@, panes);
            if keys@.len() > 0 {
                assert(lists(keys@, keys@[0]@));
                assert(shown(panes, keys@[0]@));
            } else {
                assert forall|path: Seq<u8>| !#[trigger] shown(panes, path) by {
                    assert(lists(keys@, path) <==> shown(panes, path));
                }
            }
        }
        let moved = !same_roots(&keys, &self.status.visible);
        if moved {
            self.status.cancelled = true;
            self.status.visible = copy_roots(&keys);
            self.status.due = if keys.len() > 0 { Some(now) } else { None };
        }
        let due = match self.status.due {
            Some(due) => due <= now,
            None => false,
        };
        let request = self.status.request;
        if keys.len() == 0 || !due {
            if moved {
                out.push(Effect::Cancel(Job::Status(request)));
            }
            return None;
        }
        self.refresh_status(now, out);
        self.status.cancelled = false;
        self.status.request = request + 1;
        self.status.due = None;
        Some(Batch { request: self.status.request, views: keys })
    }

    /// The unsaved files of a repository, relative to its root. `dirty` are the
    /// paths of the open documents with unsaved changes.
    pub fn unsaved_paths(root: &Root, dirty: &Vec<Root>) -> (unsaved: Vec<Vec<u8>>)
        ensures
            unsaved@.map_values(|path: Vec<u8>| path@) == unsaved_below(root@, paths(dirty@)),
    {
        let mut unsaved: Vec<Vec<u8>> = Vec::new();
        let mut i: usize = 0;
        assert(paths(dirty@).take(0) =~= seq![]);
        assert(unsaved@.map_values(|path: Vec<u8>| path@) =~= seq![]);
        while i < dirty.len()
            invariant
                i <= dirty.len(),
                paths(dirty@).len() == dirty@.len(),
                unsaved@.map_values(|path: Vec<u8>| path@) == unsaved_below(
                    root@,
                    paths(dirty@).take(i as int),
                ),
            decreases dirty.len() - i,
        {
            assert(paths(dirty@).take(i + 1).drop_last() =~= paths(dirty@).take(i as int));
            assert(paths(dirty@).take(i + 1).last() == dirty@[i as int]@);
            let ghost had = unsaved@.map_values(|path: Vec<u8>| path@);
            match relative(&dirty[i], root) {
                Some(path) => {
                    unsaved.push(path);
                    assert(unsaved@.map_values(|path: Vec<u8>| path@) =~= had.push(path@));
                },
                None => {},
            }
            i += 1;
        }
        assert(paths(dirty@).take(i as int) =~= paths(dirty@));
        unsaved
    }
}

/// The paths below a root, relative to it.
pub open spec fn unsaved_below(root: Seq<u8>, dirty: Seq<Seq<u8>>) -> Seq<Seq<u8>>
    decreases dirty.len(),
{
    if dirty.len() == 0 {
        seq![]
    } else {
        let rest = unsaved_below(root, dirty.drop_last());
        match below(dirty.last(), root) {
            Some(path) => rest.push(path),
            None => rest,
        }
    }
}

/// Views on the screen are never dropped to make room.
pub proof fn law_views_on_the_screen_are_kept(
    views: Seq<RepoView>,
    key: Root,
    panes: Seq<Pane>,
    writes: git_write::State,
    i: int,
)
    requires
        0 <= i < views.len(),
        shown(panes, views[i].key@),
        with_view(views, key, panes, writes) is Some,
    ensures
        exists|j: int|
            0 <= j < with_view(views, key, panes, writes)->0.len() && #[trigger] with_view(
                views,
                key,
                panes,
                writes,
            )->0[j] == views[i],
{
    let after = with_view(views, key, panes, writes)->0;
    if has_view(views, key@) {
        assert(after[i] == views[i]);
    } else if views.len() < MAX_VIEWS {
        let slot = view_slot(views, key@);
        lemma_first_where(views, |view: RepoView| !before(view.key@, key@));
        assert(after[if i < slot { i } else { i + 1 }] == views[i]);
    } else {
        let gone = first_droppable(views, panes, writes);
        lemma_first_where(views, |view: RepoView| droppable(view, panes, writes));
        let rest = views.remove(gone);
        let slot = view_slot(rest, key@);
        lemma_first_where(rest, |view: RepoView| !before(view.key@, key@));
        let k = if i < gone { i } else { i - 1 };
        assert(rest[k] == views[i]);
        assert(after[if k < slot { k } else { k + 1 }] == rest[k]);
    }
}

/// Whether repositories that were read were taken as they should be.
pub open spec fn readings_taken(
    before: App,
    request: u64,
    readings: Seq<Reading>,
    time: Time,
    now: App,
    redraw: bool,
) -> bool {
    if request != before.status.request || before.status.cancelled {
        !redraw && now == before
    } else {
        let after = read_all(
            before.status.views@,
            before.windows.panes@,
            readings,
        );
        &&& redraw
        &&& now.status.views@ == after.0
        &&& now.windows.panes@ == after.1
        &&& names_shown(now.status.visible@, after.1)
        &&& now.status.due == if now.status.visible@.len() == 0 {
            None
        } else if after.2 {
            Some(time)
        } else {
            Some((time + REFRESH) as u64)
        }
        &&& now == (App {
            windows: crate::windows::State {
                panes: now.windows.panes,
                ..before.windows
            },
            status: State {
                views: now.status.views,
                visible: now.status.visible,
                due: now.status.due,
                ..before.status
            },
            ..before
        })
    }
}

/// Whether repositories were handed out to be read as they should be.
pub open spec fn status_batch_taken(
    before: App,
    time: Time,
    now: App,
    asked: Seq<Effect>,
    asks: Seq<Effect>,
    batch: Option<Batch>,
) -> bool {
    &&& {
        let panes = before.windows.panes@;
        let moved = !names_shown(before.status.visible@, panes);
        let cancel = Effect::Cancel(Job::Status(before.status.request));
        if before.status_ready(time) {
            &&& batch matches Some(batch) && names_shown(batch.views@, panes)
                && batch.request == before.status.request + 1
            &&& now.status.views@ == refreshing(before.status.views@, panes)
            &&& now.status == (State {
                views: now.status.views,
                visible: now.status.visible,
                due: None,
                request: (before.status.request + 1) as u64,
                cancelled: false,
            })
            &&& asks == asked.push(cancel)
        } else {
            &&& batch is None
            &&& now.status == (State {
                visible: now.status.visible,
                due: before.status_due(time),
                cancelled: before.status.cancelled || moved,
                ..before.status
            })
            &&& asks == if moved { asked.push(cancel) } else { asked }
        }
    }
    &&& names_shown(now.status.visible@, before.windows.panes@)
    &&& now == (App { status: now.status, ..before })
}

} // verus!
