//! Git by the keys of a repository view and of a commit message.

use crate::app::{App, PromptKind};
use crate::editor::Time;
use crate::effect::Effect;
use crate::error::Error;
use crate::event::Key;
use crate::find::lemma_first_where;
use crate::git_write::{
    commit_event_taken, commit_submitted, index_changed, write_finished, write_handed_out,
    CommitStep, Draft, Group, Job, Operation, SelectedFile,
};
use crate::laws::completing::press;
use crate::laws::steering::drawn;
use crate::selection::Revision;
use crate::status_keys::{status_event_taken, StatusChoice, StatusStep};
use crate::windows::{pane_of, Root};
use std::sync::Arc;
use vstd::prelude::*;

verus! {

/// Whether the active window shows a repository and no key is awaited.
pub open spec fn repository_listens(app: App) -> bool {
    &&& pane_of(app.windows.panes@, app.windows.layout.active).git is Some
    &&& app.prompt is None
    &&& app.git_write.status_prefix is None
    &&& !app.editor.keys_pending
}

/// In a repository view `s` stages and `u` unstages, Enter visits and Tab opens or
/// closes what is selected, `j` and Down go down and `k` and Up go up, Home and
/// End go to the ends, and `n` and `p` to the next and the previous section. What
/// is left to do is that and nothing else, and the document is not touched.
pub proof fn law_repository_keys_do_what_they_name(
    before: App,
    key: Key,
    space: bool,
    now: Time,
    after: App,
    asked: Seq<Effect>,
    asks: Seq<Effect>,
    step: Option<StatusStep>,
)
    requires
        repository_listens(before),
        status_event_taken(before, press(key), space, now, after, asked, asks, step),
    ensures
        (key == Key::Char('s')) <==> step == Some(StatusStep::Next(StatusChoice::Stage)),
        (key == Key::Char('u')) <==> step == Some(StatusStep::Next(StatusChoice::Unstage)),
        (key == Key::Enter) <==> step == Some(StatusStep::Next(StatusChoice::Visit)),
        (key == Key::Tab) <==> step == Some(StatusStep::Next(StatusChoice::Toggle)),
        (key == Key::Home) <==> step == Some(StatusStep::Next(StatusChoice::First)),
        (key == Key::End) <==> step == Some(StatusStep::Next(StatusChoice::Last)),
        (key == Key::Char('n')) <==> step == Some(
            StatusStep::Next(StatusChoice::Section { next: true }),
        ),
        (key == Key::Char('p')) <==> step == Some(
            StatusStep::Next(StatusChoice::Section { next: false }),
        ),
        key == Key::Char('j') || key == Key::Down ==> step == Some(
            StatusStep::Next(StatusChoice::Move { down: true, count: 1 }),
        ),
        key == Key::Char('k') || key == Key::Up ==> step == Some(
            StatusStep::Next(StatusChoice::Move { down: false, count: 1 }),
        ),
        step matches Some(StatusStep::Next(_)) ==> after.editor == before.editor && asks == asked
            && after.windows == before.windows && after.git_write.jobs
            == before.git_write.jobs,
{
}

/// PageDown and PageUp move by as many rows as the window has, its status line
/// apart, and Ctrl-d and Ctrl-u by half of that, one row at least.
pub proof fn law_repository_pages_follow_the_window(
    before: App,
    key: Key,
    space: bool,
    now: Time,
    after: App,
    asked: Seq<Effect>,
    asks: Seq<Effect>,
    step: Option<StatusStep>,
    at: int,
)
    requires
        before.screen().valid(),
        repository_listens(before),
        status_event_taken(before, press(key), space, now, after, asked, asks, step),
        0 <= at < drawn(before.screen()).len(),
        drawn(before.screen())[at].0 == before.windows.layout.active,
    ensures
        ({
            let height = drawn(before.screen())[at].1.height;
            let page = if height <= 2 { 1int } else { height - 1 };
            let down = key == Key::PageDown || key == Key::Ctrl('d');
            let whole = key == Key::PageDown || key == Key::PageUp;
            whole || key == Key::Ctrl('d') || key == Key::Ctrl('u') ==> {
                &&& step matches Some(StatusStep::Next(StatusChoice::Move { down: goes, count }))
                    && goes == down && count >= 1 && if whole {
                    count == page
                } else {
                    count == 1 || page <= 2 * count + 1 && 2 * count <= page
                }
            }
        }),
{
    let here = crate::laws::steering::lemma_drawn(before.screen());
    if here < at {
        assert(drawn(before.screen())[here].0 != drawn(before.screen())[at].0);
    } else if at < here {
        assert(drawn(before.screen())[at].0 != drawn(before.screen())[here].0);
    }
}

/// Leaving a repository view shows the document again: `q`, Escape, Ctrl-c and
/// Ctrl-q close the list of keys where that is open, and otherwise the view. `?`
/// opens and closes the list of keys, and a colon opens the command line.
pub proof fn law_repository_views_are_left(
    before: App,
    key: Key,
    space: bool,
    now: Time,
    after: App,
    asked: Seq<Effect>,
    asks: Seq<Effect>,
    step: Option<StatusStep>,
    view: Root,
    at: int,
)
    requires
        before.screen().valid(),
        repository_listens(before),
        pane_of(before.windows.panes@, before.windows.layout.active).git == Some(view),
        0 <= at < before.status.views@.len(),
        before.status.views@[at].key@ == view@,
        forall|i: int|
            0 <= i < before.status.views@.len() && i != at ==> (
            #[trigger] before.status.views@[i]).key@ != view@,
        status_event_taken(before, press(key), space, now, after, asked, asks, step),
    ensures
        key == Key::Char('q') || key == Key::Escape || key == Key::Ctrl('c') || key == Key::Ctrl(
            'q',
        ) ==> {
            &&& step == Some(StatusStep::Done)
            &&& !after.status.views@[at].help
            &&& after.editor == before.editor
            &&& if before.status.views@[at].help {
                pane_of(after.windows.panes@, after.windows.layout.active).git == Some(view)
            } else {
                pane_of(after.windows.panes@, after.windows.layout.active).git is None
            }
        },
        key == Key::Char('?') ==> step == Some(StatusStep::Done) && after.status.views@[at].help
            == !before.status.views@[at].help && after.windows == before.windows,
        key == Key::Char(':') ==> {
            &&& step == Some(StatusStep::Done)
            &&& after.prompt matches Some(prompt) && prompt.kind == PromptKind::Command
                && prompt.input.text@.len() == 0
        },
{
    let views = before.status.views@;
    let test = |any: crate::status::RepoView| any.key@ == view@;
    lemma_first_where(views, test);
    let found = crate::status::find_view(views, view@);
    if found > at {
        assert(!test(views[at]));
    }
    assert(test(views[found]));
    assert(found == at);
    let screen = before.screen();
    crate::windows::lemma_focused_pane(screen);
    crate::windows::lemma_has_pane(screen.panes, screen.app.window());
    let spot = crate::windows::find_pane(screen.panes, screen.app.window());
    let closed = screen.with_git(None);
    crate::status::lemma_with_git(screen, None);
    crate::windows::lemma_focused_pane(closed);
    crate::windows::lemma_has_pane(closed.panes, screen.app.window());
    let again = crate::windows::find_pane(closed.panes, screen.app.window());
    if again < spot {
        assert(closed.panes[again].id != closed.panes[spot].id);
    } else if spot < again {
        assert(closed.panes[spot].id != closed.panes[again].id);
    }
    assert(crate::status_keys::listened(before).screen().with_git(None).panes == closed.panes);
}

/// The two keys `c` `c` begin a commit: the first is awaited, the second opens the
/// message, and any other key in its place does nothing at all.
pub proof fn law_two_keys_begin_a_commit(
    before: App,
    second: Key,
    space: bool,
    now: Time,
    between: App,
    after: App,
    asked: Seq<Effect>,
    halfway: Seq<Effect>,
    asks: Seq<Effect>,
    first: Option<StatusStep>,
    step: Option<StatusStep>,
)
    requires
        repository_listens(before),
        status_event_taken(
            before,
            press(Key::Char('c')),
            space,
            now,
            between,
            asked,
            halfway,
            first,
        ),
        status_event_taken(between, press(second), space, now, after, halfway, asks, step),
    ensures
        first == Some(StatusStep::Done),
        halfway == asked,
        asks == asked,
        after.git_write.status_prefix is None,
        second == Key::Char('c') ==> step == Some(StatusStep::Next(StatusChoice::BeginCommit)),
        second != Key::Char('c') ==> step == Some(StatusStep::Done),
        after.windows == before.windows,
        after.editor == before.editor,
{
}

/// Staging the selected file queues that file, for the repository that is shown,
/// behind what is queued already; unstaging takes it out. A file is staged only
/// where it is not staged yet, unstaged only where it is, and neither where it has
/// unsaved changes: then nothing is queued.
pub proof fn law_staging_concerns_the_selected_file(
    before: App,
    stage: bool,
    file: SelectedFile,
    name: String,
    after: App,
    result: Result<(), Error>,
)
    requires
        index_changed(before, stage, Some(file), name, after, result),
    ensures
        result is Ok ==> {
            &&& stage <==> file.group != Group::Staged
            &&& file.group != Group::Unsaved
            &&& after.git_write.jobs@.len() == before.git_write.jobs@.len() + 1
            &&& after.git_write.jobs@.drop_last() == before.git_write.jobs@
            &&& after.git_write.jobs@.last().operation == if stage {
                Operation::Stage(file.entry)
            } else {
                Operation::Unstage(file.entry)
            }
            &&& after.git_write.pending@.last().id == after.git_write.jobs@.last().id
            &&& after.git_write.pending@.last().root == after.git_write.jobs@.last().root
            &&& after.editor == before.editor
        },
        result is Err ==> after == before,
        file.group == Group::Unsaved || stage && file.group == Group::Staged || !stage
            && file.group != Group::Staged ==> result is Err,
        ({
            let pane = pane_of(before.windows.panes@, before.windows.layout.active);
            let root = before.view_root(pane.git);
            &&& result is Ok ==> root == Some(after.git_write.jobs@.last().root)
            &&& root is Some && pane.git is Some && file.group != Group::Unsaved && stage == (
            file.group != Group::Staged) && before.git_write.pending@.len() < 16
                && (forall|i: int|
                0 <= i < before.git_write.pending@.len() ==> (
                #[trigger] before.git_write.pending@[i]).root@ != root->0@) ==> result is Ok
        }),
{
    let pane = pane_of(before.windows.panes@, before.windows.layout.active);
    let root = before.view_root(pane.git);
    if root is Some {
        let test = crate::git_write::of_repository(root->0@);
        lemma_first_where(before.git_write.pending@, test);
        let at = crate::git_write::find_pending(before.git_write.pending@, root->0@);
        if at < before.git_write.pending@.len() {
            assert(test(before.git_write.pending@[at]));
        }
    }
    if result is Ok {
        assert(after.git_write.jobs@.drop_last() =~= before.git_write.jobs@);
    }
}

/// Git operations are handed out in the order in which they were asked for, each
/// once: what was asked for last comes when all before it have gone.
pub proof fn law_operations_keep_their_order(
    before: App,
    after: App,
    job: Option<Job>,
)
    requires
        write_handed_out(before, after, job),
    ensures
        before.git_write.jobs@.len() == 0 ==> job is None && after == before,
        before.git_write.jobs@.len() > 0 ==> {
            &&& job is Some
            &&& seq![job->0] + after.git_write.jobs@ == before.git_write.jobs@
            &&& after.git_write.pending == before.git_write.pending
        },
{
    if before.git_write.jobs@.len() > 0 {
        assert(seq![job->0] + after.git_write.jobs@ =~= before.git_write.jobs@);
    }
}

/// The end of an operation is shown in the views of its repository and in no
/// others: it runs no more, and it failed or not. The repository may then begin
/// another, and an end that nobody waits for changes nothing.
pub proof fn law_ended_operations_show_in_their_repository(
    before: App,
    root: Seq<u8>,
    id: u64,
    success: bool,
    committed: Option<Revision>,
    now: Time,
    after: App,
    asked: Seq<Effect>,
    asks: Seq<Effect>,
    redraw: bool,
    i: int,
)
    requires
        write_finished(
            before,
            root,
            id,
            success,
            committed,
            now,
            after,
            asked,
            asks,
            redraw,
        ),
        0 <= i < before.status.views@.len(),
    ensures
        !redraw ==> after == before && asks == asked,
        redraw ==> {
            let (old, new) = (before.status.views@[i], after.status.views@[i]);
            let own = old.root matches Some(known) && known@ == root;
            &&& after.status.views@.len() == before.status.views@.len()
            &&& new.key == old.key && new.root == old.root && new.help == old.help
            &&& own ==> !new.running && new.failed == Some(!success)
            &&& !own ==> new.running == old.running && new.failed == old.failed
            &&& after.git_write.pending@.len() == before.git_write.pending@.len() - 1
        },
        (exists|k: int|
            0 <= k < before.git_write.pending@.len() && (
            #[trigger] before.git_write.pending@[k]).root@ == root
                && before.git_write.pending@[k].id == id) && (forall|j: int, k: int|
            0 <= j < k < before.git_write.pending@.len() ==> (
            #[trigger] before.git_write.pending@[j]).root@ != (
            #[trigger] before.git_write.pending@[k]).root@) ==> redraw,
        (forall|k: int|
            0 <= k < before.git_write.pending@.len() ==> (
            #[trigger] before.git_write.pending@[k]).id != id) ==> !redraw,
{
    let pending = before.git_write.pending@;
    let test = crate::git_write::of_repository(root);
    lemma_first_where(pending, test);
    let at = crate::git_write::find_pending(pending, root);
    if at < pending.len() {
        assert(test(pending[at]));
        assert(pending[at].root@ == root);
    }
    if exists|k: int|
        0 <= k < pending.len() && (#[trigger] pending[k]).root@ == root && pending[k].id == id {
        let k = choose|k: int|
            0 <= k < pending.len() && (#[trigger] pending[k]).root@ == root && pending[k].id == id;
        assert(test(pending[k]));
        if at < k {
            assert(at < pending.len());
            if forall|j: int, k: int|
                0 <= j < k < pending.len() ==> (#[trigger] pending[j]).root@ != (
                #[trigger] pending[k]).root@ {
                assert(pending[at].root@ != pending[k].root@);
            }
        }
    }
}

/// In a commit message Ctrl-c Ctrl-c commits and Ctrl-c Ctrl-k returns to the
/// repository; any other second key does nothing, and other keys are text.
pub proof fn law_two_keys_commit_or_return(
    before: App,
    second: Key,
    between: App,
    after: App,
    asked: Seq<Effect>,
    halfway: Seq<Effect>,
    asks: Seq<Effect>,
    first: CommitStep,
    step: CommitStep,
    draft: int,
)
    requires
        pane_of(before.windows.panes@, before.windows.layout.active).git is None,
        before.prompt is None,
        !before.editor.keys_pending,
        before.git_write.prefix is None,
        0 <= draft < before.git_write.drafts@.len(),
        before.git_write.drafts@[draft].document == before.editor.document,
        commit_event_taken(
            before,
            press(Key::Ctrl('c')),
            false,
            between,
            asked,
            halfway,
            first,
        ),
        commit_event_taken(between, press(second), false, after, halfway, asks, step),
    ensures
        first == CommitStep::Done,
        (second == Key::Ctrl('c')) <==> step == CommitStep::Submit,
        (second == Key::Ctrl('k')) <==> step == CommitStep::Return,
        second != Key::Ctrl('c') && second != Key::Ctrl('k') ==> step == CommitStep::Done,
        after.git_write.prefix is None,
        after.editor == before.editor,
{
    let test = |any: Draft| any.document == before.editor.document;
    lemma_first_where(before.git_write.drafts@, test);
    assert(test(before.git_write.drafts@[draft]));
    assert(before.commit_listens(false));
    assert(between.commit_listens(false));
}

/// A key that is typed into a commit message goes to the text unless it begins one
/// of its commands.
pub proof fn law_other_keys_are_text(
    before: App,
    key: Key,
    counted: bool,
    after: App,
    asked: Seq<Effect>,
    asks: Seq<Effect>,
    step: CommitStep,
)
    requires
        before.git_write.prefix is None,
        key != Key::Ctrl('c'),
        commit_event_taken(before, press(key), counted, after, asked, asks, step),
    ensures
        step == CommitStep::Pass,
        asks == asked,
        after == before,
{
}

/// A commit takes the text of the message, for the repository that the message
/// belongs to. A blank message is refused, and so is a document that is no commit
/// message: then nothing is queued.
pub proof fn law_commits_take_the_message(
    before: App,
    text: Arc<String>,
    name: String,
    after: App,
    asked: Seq<Effect>,
    asks: Seq<Effect>,
    result: Result<(), Error>,
)
    requires
        commit_submitted(before, text, name, after, asked, asks, result),
    ensures
        result is Err ==> after == before,
        result is Ok ==> {
            &&& after.git_write.jobs@.len() == before.git_write.jobs@.len() + 1
            &&& after.git_write.jobs@.last().operation == Operation::Commit(text)
            &&& exists|i: int|
                0 <= i < before.git_write.drafts@.len() && (
                #[trigger] before.git_write.drafts@[i]).document == before.editor.document
                    && before.git_write.drafts@[i].root == after.git_write.jobs@.last().root
            &&& exists|i: int| 0 <= i < text@.len() && !crate::text::white_space(#[trigger] text@[i])
        },
{
    if result is Ok {
        let drafts = before.git_write.drafts@;
        let test = |any: Draft| any.document == before.editor.document;
        lemma_first_where(drafts, test);
        let at = crate::git_write::find_draft(drafts, before.editor.document);
        assert(test(drafts[at]));
        if forall|i: int| 0 <= i < text@.len() ==> crate::text::white_space(#[trigger] text@[i]) {
            lemma_blank(text@);
        }
    }
}

/// Nothing is left of a blank text once its ends are cut.
proof fn lemma_blank(text: Seq<char>)
    requires
        forall|i: int| 0 <= i < text.len() ==> crate::text::white_space(#[trigger] text[i]),
    ensures
        crate::text::trimmed(text, crate::text::Trim::White).len() == 0,
    decreases text.len(),
{
    if text.len() > 0 {
        assert(crate::text::white_space(text[0]));
        assert forall|i: int| 0 <= i < text.drop_first().len() implies crate::text::white_space(
            #[trigger] text.drop_first()[i],
        ) by {
            assert(text.drop_first()[i] == text[i + 1]);
        }
        lemma_blank(text.drop_first());
    }
}

} // verus!
