//! The problems that the server found in the active document.

use crate::app::App;
use crate::effect::Effect;
use crate::find::{count_where, first_where, lemma_is_first};
use crate::language::{Diagnostic, State, Status};
use crate::selection::Selection;
use crate::shared::share;
use crate::text::{decimal, number};
use vstd::prelude::*;
use vstd::string::StringExecFns;

verus! {

/// What problems are ordered by: where they begin, then how severe they are.
pub open spec fn order(diagnostic: Diagnostic) -> (usize, u8) {
    (diagnostic.start, diagnostic.severity)
}

/// Whether one place in the order comes before another.
pub open spec fn precedes(a: (usize, u8), b: (usize, u8)) -> bool {
    a.0 < b.0 || a.0 == b.0 && a.1 < b.1
}

/// Whether problems stand in order.
pub open spec fn ordered(list: Seq<Diagnostic>) -> bool {
    forall|i: int, j: int|
        0 <= i < j < list.len() ==> !precedes(order(#[trigger] list[j]), order(#[trigger] list[i]))
}

/// The problems at one place in the order, in the order of the list.
pub open spec fn at_place(list: Seq<Diagnostic>, place: (usize, u8)) -> Seq<Diagnostic>
    decreases list.len(),
{
    if list.len() == 0 {
        seq![]
    } else if order(list.last()) == place {
        at_place(list.drop_last(), place).push(list.last())
    } else {
        at_place(list.drop_last(), place)
    }
}

/// Whether a list holds the same problems as another, those at one place in
/// the same order.
pub open spec fn rearranged(list: Seq<Diagnostic>, other: Seq<Diagnostic>) -> bool {
    forall|place: (usize, u8)| #[trigger] at_place(list, place) == at_place(other, place)
}

proof fn lemma_at_place_add(a: Seq<Diagnostic>, b: Seq<Diagnostic>, place: (usize, u8))
    ensures
        at_place(a + b, place) == at_place(a, place) + at_place(b, place),
    decreases b.len(),
{
    if b.len() == 0 {
        assert(a + b =~= a);
        assert(at_place(a, place) + at_place(b, place) =~= at_place(a, place));
    } else {
        lemma_at_place_add(a, b.drop_last(), place);
        assert((a + b).drop_last() =~= a + b.drop_last());
        assert(at_place(a + b, place) =~= at_place(a, place) + at_place(b, place));
    }
}

proof fn lemma_none_at_place(list: Seq<Diagnostic>, place: (usize, u8))
    requires
        forall|i: int| 0 <= i < list.len() ==> order(#[trigger] list[i]) != place,
    ensures
        at_place(list, place) == Seq::<Diagnostic>::empty(),
    decreases list.len(),
{
    if list.len() > 0 {
        assert(order(list[list.len() - 1]) != place);
        assert forall|i: int| 0 <= i < list.drop_last().len() implies order(
            #[trigger] list.drop_last()[i],
        ) != place by {
            assert(list[i] == list.drop_last()[i]);
        }
        lemma_none_at_place(list.drop_last(), place);
    }
}

/// Putting a problem behind all that do not come after it is like putting it
/// at the end, as far as each place in the order goes.
proof fn lemma_insert(list: Seq<Diagnostic>, at: int, new: Diagnostic, place: (usize, u8))
    requires
        0 <= at <= list.len(),
        forall|i: int| at <= i < list.len() ==> precedes(order(new), order(#[trigger] list[i])),
    ensures
        at_place(list.insert(at, new), place) == at_place(list.push(new), place),
{
    let front = list.take(at);
    let back = list.skip(at);
    assert(list =~= front + back);
    assert(list.insert(at, new) =~= front + (seq![new] + back));
    assert(list.push(new) =~= (front + back) + seq![new]);
    lemma_at_place_add(front, seq![new] + back, place);
    lemma_at_place_add(seq![new], back, place);
    lemma_at_place_add(front + back, seq![new], place);
    lemma_at_place_add(front, back, place);
    if order(new) == place {
        assert forall|i: int| 0 <= i < back.len() implies order(#[trigger] back[i]) != place by {
            assert(back[i] == list[at + i]);
        }
        lemma_none_at_place(back, place);
        assert(at_place(list.insert(at, new), place) =~= at_place(list.push(new), place));
    } else {
        assert forall|i: int| 0 <= i < seq![new].len() implies order(#[trigger] seq![new][i])
            != place by {}
        lemma_none_at_place(seq![new], place);
        assert(at_place(list.insert(at, new), place) =~= at_place(list.push(new), place));
    }
}

/// Puts problems in order; those at one place keep theirs.
pub fn sort_diagnostics(diagnostics: Vec<Diagnostic>) -> (sorted: Vec<Diagnostic>)
    ensures
        ordered(sorted@),
        rearranged(sorted@, diagnostics@),
        sorted@.len() == diagnostics@.len(),
{
    let ghost all = diagnostics@;
    let mut rest = diagnostics;
    let mut sorted: Vec<Diagnostic> = Vec::new();
    let ghost mut taken: int = 0;
    assert(all.take(0) =~= seq![]);
    assert(all.skip(0) =~= all);
    assert(sorted@ =~= seq![]);
    while rest.len() > 0
        invariant
            all == diagnostics@,
            0 <= taken <= all.len(),
            rest@ == all.skip(taken),
            sorted@.len() == taken,
            ordered(sorted@),
            rearranged(sorted@, all.take(taken)),
        decreases rest.len(),
    {
        let new = rest.remove(0);
        assert(new == all[taken]);
        assert(rest@ =~= all.skip(taken + 1));
        let mut at: usize = sorted.len();
        while at > 0 && (new.start < sorted[at - 1].start || (new.start == sorted[at - 1].start
            && new.severity < sorted[at - 1].severity))
            invariant
                at <= sorted.len(),
                forall|i: int|
                    at <= i < sorted@.len() ==> precedes(order(new), order(#[trigger] sorted@[i])),
            decreases at,
        {
            at -= 1;
        }
        let ghost before = sorted@;
        proof {
            assert forall|place: (usize, u8)| #[trigger] at_place(
                before.insert(at as int, new),
                place,
            ) == at_place(all.take(taken + 1), place) by {
                lemma_insert(before, at as int, new, place);
                assert(at_place(before, place) == at_place(all.take(taken), place));
                assert(before.push(new).drop_last() =~= before);
                assert(all.take(taken + 1).drop_last() =~= all.take(taken));
                assert(all.take(taken + 1).last() == new);
            }
            assert forall|i: int, j: int|
                0 <= i < j < before.insert(at as int, new).len() implies !precedes(
                order(#[trigger] before.insert(at as int, new)[j]),
                order(#[trigger] before.insert(at as int, new)[i]),
            ) by {
                if at > 0 {
                    assert(!precedes(order(new), order(before[at - 1])));
                }
                let a = if i < at { i } else { i - 1 };
                let b = if j < at { j } else { j - 1 };
                if i != at && j != at {
                    assert(!precedes(order(before[b]), order(before[a])));
                } else if j == at {
                    if i < at - 1 {
                        assert(!precedes(order(before[at - 1]), order(before[i])));
                    }
                } else {
                    assert(precedes(order(new), order(before[b])));
                }
            }
        }
        sorted.insert(at, new);
        proof {
            taken = taken + 1;
        }
    }
    assert(all.take(taken) =~= all);
    sorted
}

/// The problems of the active document.
pub open spec fn problems(state: State) -> Seq<Diagnostic> {
    match state.diagnostics {
        Some(list) => list@,
        None => seq![],
    }
}

/// Which problem to go to.
#[derive(Clone, Copy, Debug, PartialEq, Eq, Structural)]
pub enum Visit {
    First,
    Last,
    Next,
    Previous,
}

/// Where the problem to go to is: the first behind the cursor, or the last
/// before it.
pub open spec fn visited(list: Seq<Diagnostic>, cursor: usize, visit: Visit) -> Option<int> {
    let at = match visit {
        Visit::First => 0,
        Visit::Last => list.len() - 1,
        Visit::Next => first_where(list, |d: Diagnostic| d.start > cursor),
        Visit::Previous => first_where(list, |d: Diagnostic| d.start >= cursor) - 1,
    };
    if 0 <= at < list.len() { Some(at) } else { None }
}

/// The selection of a problem. Going back, its head is at its start.
pub open spec fn selects(diagnostic: Diagnostic, visit: Visit) -> Selection {
    if visit == Visit::Previous {
        Selection { anchor: diagnostic.end, head: diagnostic.start }
    } else {
        Selection { anchor: diagnostic.start, head: diagnostic.end }
    }
}

impl App {
    /// What going to a problem asks for.
    pub open spec fn visit_effects(self, visit: Visit) -> Seq<Effect> {
        let list = problems(self.language);
        match visited(list, self.editor.cursor, visit) {
            Some(at) => seq![
                Effect::VisitDiagnostic {
                    selection: selects(list[at], visit),
                    message: list[at].message,
                },
            ],
            None => seq![],
        }
    }

    /// Goes to a problem, where there is one to go to.
    pub fn navigate_diagnostic(&self, visit: Visit, out: &mut Vec<Effect>)
        ensures
            final(out)@ == old(out)@ + self.visit_effects(visit),
    {
        assert(out@ =~= old(out)@ + Seq::<Effect>::empty());
        let list = match &self.language.diagnostics {
            Some(list) => list,
            None => {
                proof {
                    lemma_is_first(
                        Seq::<Diagnostic>::empty(),
                        |d: Diagnostic| d.start > self.editor.cursor,
                        0,
                    );
                    lemma_is_first(
                        Seq::<Diagnostic>::empty(),
                        |d: Diagnostic| d.start >= self.editor.cursor,
                        0,
                    );
                }
                return;
            },
        };
        let cursor = self.editor.cursor;
        let index: Option<usize> = match visit {
            Visit::First => if list.len() > 0 { Some(0) } else { None },
            Visit::Last => if list.len() > 0 { Some(list.len() - 1) } else { None },
            Visit::Next => {
                let mut i: usize = 0;
                while i < list.len() && list[i].start <= cursor
                    invariant
                        i <= list.len(),
                        forall|j: int| 0 <= j < i ==> (#[trigger] list@[j]).start <= cursor,
                    decreases list.len() - i,
                {
                    i += 1;
                }
                proof {
                    lemma_is_first(list@, |d: Diagnostic| d.start > cursor, i as int);
                }
                if i < list.len() { Some(i) } else { None }
            },
            Visit::Previous => {
                let mut i: usize = 0;
                while i < list.len() && list[i].start < cursor
                    invariant
                        i <= list.len(),
                        forall|j: int| 0 <= j < i ==> (#[trigger] list@[j]).start < cursor,
                    decreases list.len() - i,
                {
                    i += 1;
                }
                proof {
                    lemma_is_first(list@, |d: Diagnostic| d.start >= cursor, i as int);
                }
                if i > 0 { Some(i - 1) } else { None }
            },
        };
        match index {
            Some(index) => {
                let selection = match visit {
                    Visit::Previous => Selection {
                        anchor: list[index].end,
                        head: list[index].start,
                    },
                    _ => Selection { anchor: list[index].start, head: list[index].end },
                };
                out.push(
                    Effect::VisitDiagnostic { selection, message: share(&list[index].message) },
                );
                assert(out@ =~= old(out)@ + self.visit_effects(visit));
            },
            None => {},
        }
    }

    /// The application without problems of another document or revision.
    pub open spec fn diagnostics_refreshed(self) -> App {
        if self.language.diagnostic_revision == Some(
            (self.editor.document, self.editor.revision),
        ) {
            self
        } else {
            App {
                language: State { diagnostics: None, diagnostic_revision: None, ..self.language },
                ..self
            }
        }
    }

    pub fn refresh_diagnostics(&mut self)
        ensures
            *final(self) == old(self).diagnostics_refreshed(),
    {
        let current = match self.language.diagnostic_revision {
            Some((document, revision)) => document == self.editor.document && revision
                == self.editor.revision,
            None => false,
        };
        if !current {
            self.language.diagnostics = None;
            self.language.diagnostic_revision = None;
        }
    }

    /// The text of the first problem at the cursor.
    pub open spec fn problem_text(self) -> Seq<char> {
        let list = problems(self.language);
        let at = first_where(list, touches(self.editor.cursor));
        if at < list.len() { list[at].message@ } else { Seq::empty() }
    }

    pub fn diagnostic_message(&self) -> (text: String)
        ensures
            text@ == self.problem_text(),
    {
        let cursor = self.editor.cursor;
        match &self.language.diagnostics {
            Some(list) => {
                let mut i: usize = 0;
                while i < list.len() && !(list[i].start == cursor || (list[i].start < cursor
                    && cursor < list[i].end))
                    invariant
                        i <= list.len(),
                        forall|j: int| 0 <= j < i ==> !touches(cursor)(#[trigger] list@[j]),
                    decreases list.len() - i,
                {
                    i += 1;
                }
                proof {
                    lemma_is_first(list@, touches(cursor), i as int);
                }
                if i < list.len() { (*list[i].message).clone() } else { String::new() }
            },
            None => {
                proof {
                    lemma_is_first(Seq::<Diagnostic>::empty(), touches(cursor), 0);
                }
                String::new()
            },
        }
    }

    /// The state of the language server, as the status line shows it.
    pub open spec fn status_text(self) -> Seq<char> {
        let list = problems(self.language);
        if self.language.status == Status::Absent {
            Seq::empty()
        } else {
            " "@ + (match self.editor.server {
                Some(server) => server.label@,
                None => "LSP"@,
            }) + ":"@ + self.language.status.text() + " "@ + decimal(
                count_where(list, of_severity(1)),
            ) + "E "@ + decimal(count_where(list, of_severity(2))) + "W"@
        }
    }

    fn count_severity(&self, severity: u8) -> (count: u64)
        ensures
            count == count_where(problems(self.language), of_severity(severity)),
    {
        match &self.language.diagnostics {
            Some(list) => {
                let mut count: u64 = 0;
                let mut i: usize = 0;
                while i < list.len()
                    invariant
                        i <= list.len(),
                        count <= i,
                        count == count_where(list@.take(i as int), of_severity(severity)),
                    decreases list.len() - i,
                {
                    assert(list@.take(i + 1).drop_last() =~= list@.take(i as int));
                    assert(list@.take(i + 1).last() == list@[i as int]);
                    if list[i].severity == severity {
                        count += 1;
                    }
                    i += 1;
                }
                assert(list@.take(i as int) =~= list@);
                count
            },
            None => 0,
        }
    }

    pub fn language_status(&self) -> (text: String)
        ensures
            text@ == self.status_text(),
    {
        if self.language.status == Status::Absent {
            return String::new();
        }
        let errors = number(self.count_severity(1));
        let warnings = number(self.count_severity(2));
        let mut text = " ".to_owned();
        match &self.editor.server {
            Some(server) => {
                text.append(server.label.as_str());
            },
            None => {
                text.append("LSP");
            },
        }
        text.append(":");
        text.append(self.language.status.show());
        text.append(" ");
        text.append(errors.as_str());
        text.append("E ");
        text.append(warnings.as_str());
        text.append("W");
        text
    }

    /// The least severity among the problems of a line: the most serious one.
    pub open spec fn line_severity(list: Seq<Diagnostic>, line: usize) -> Option<u8>
        decreases list.len(),
    {
        if list.len() == 0 {
            None
        } else {
            let rest = App::line_severity(list.drop_last(), line);
            let last = list.last();
            if last.line != line {
                rest
            } else {
                match rest {
                    Some(least) => if last.severity < least { Some(last.severity) } else { rest },
                    None => Some(last.severity),
                }
            }
        }
    }

    /// The mark beside each of the first `rows` lines from `top` on: whether it
    /// has an error (`Some(true)`) or only lesser problems.
    pub fn paint_language(&self, top: usize, rows: u16) -> (marks: Vec<Option<bool>>)
        requires
            top + rows <= usize::MAX,
        ensures
            marks@.len() == rows,
            forall|row: int|
                0 <= row < rows ==> #[trigger] marks@[row] == match App::line_severity(
                    problems(self.language),
                    (top + row) as usize,
                ) {
                    Some(severity) => Some(severity == 1),
                    None => None,
                },
    {
        let mut marks: Vec<Option<bool>> = Vec::new();
        let mut row: u16 = 0;
        while row < rows
            invariant
                row <= rows,
                top + rows <= usize::MAX,
                marks@.len() == row,
                forall|i: int|
                    0 <= i < row ==> #[trigger] marks@[i] == match App::line_severity(
                        problems(self.language),
                        (top + i) as usize,
                    ) {
                        Some(severity) => Some(severity == 1),
                        None => None,
                    },
            decreases rows - row,
        {
            let mark = match self.severity_at(top + row as usize) {
                Some(severity) => Some(severity == 1),
                None => None,
            };
            marks.push(mark);
            row += 1;
        }
        marks
    }

    fn severity_at(&self, line: usize) -> (severity: Option<u8>)
        ensures
            severity == App::line_severity(problems(self.language), line),
    {
        match &self.language.diagnostics {
            Some(list) => {
                let mut least: Option<u8> = None;
                let mut i: usize = 0;
                while i < list.len()
                    invariant
                        i <= list.len(),
                        least == App::line_severity(list@.take(i as int), line),
                    decreases list.len() - i,
                {
                    assert(list@.take(i + 1).drop_last() =~= list@.take(i as int));
                    assert(list@.take(i + 1).last() == list@[i as int]);
                    if list[i].line == line {
                        least = match least {
                            Some(old) => if list[i].severity < old {
                                Some(list[i].severity)
                            } else {
                                least
                            },
                            None => Some(list[i].severity),
                        };
                    }
                    i += 1;
                }
                assert(list@.take(i as int) =~= list@);
                least
            },
            None => None,
        }
    }
}

/// The test whether a problem is at the cursor: it begins there or spans it.
pub open spec fn touches(cursor: usize) -> spec_fn(Diagnostic) -> bool {
    |d: Diagnostic| d.start == cursor || d.start < cursor && cursor < d.end
}

/// The test whether a problem is of a severity.
pub open spec fn of_severity(severity: u8) -> spec_fn(Diagnostic) -> bool {
    |d: Diagnostic| d.severity == severity
}

impl Status {
    /// How the status line names the state of the server.
    pub open spec fn text(self) -> Seq<char> {
        match self {
            Status::Absent => ""@,
            Status::Starting => "starting"@,
            Status::Ready => "ready"@,
            Status::Unavailable => "unavailable"@,
        }
    }

    pub fn show(&self) -> (text: &'static str)
        ensures
            text@ == self.text(),
    {
        match self {
            Status::Absent => "",
            Status::Starting => "starting",
            Status::Ready => "ready",
            Status::Unavailable => "unavailable",
        }
    }
}

/// Going to the next problem moves the cursor forward and going to the
/// previous one moves it back, so that repeating either ends.
pub proof fn law_visits_move_in_their_direction(list: Seq<Diagnostic>, cursor: usize)
    ensures
        visited(list, cursor, Visit::Next) matches Some(at) ==> list[at].start > cursor,
        visited(list, cursor, Visit::Previous) matches Some(at) ==> list[at].start < cursor,
{
    crate::find::lemma_first_where(list, |d: Diagnostic| d.start > cursor);
    crate::find::lemma_first_where(list, |d: Diagnostic| d.start >= cursor);
}

/// In an ordered list the next problem is the nearest behind the cursor.
pub proof fn law_the_next_problem_is_the_nearest(list: Seq<Diagnostic>, cursor: usize, i: int)
    requires
        ordered(list),
        0 <= i < list.len(),
        list[i].start > cursor,
    ensures
        visited(list, cursor, Visit::Next) matches Some(at) && list[at].start <= list[i].start,
{
    let test = |d: Diagnostic| d.start > cursor;
    crate::find::lemma_first_where(list, test);
    let at = first_where(list, test);
    if at > i {
        assert(!test(list[i]));
    }
    if at < i {
        assert(!precedes(order(list[i]), order(list[at])));
    }
}

} // verus!
