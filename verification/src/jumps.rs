//! Bounded per-pane navigation history, independent of language services.
//! Checkpoints retain selections and document identities, never document text.

use crate::find::{first_where, lemma_first_where, lemma_is_first};
use crate::layout::WindowId;
use crate::selection::{DocumentId, Ranges, Selections};
use crate::shared::share;
use std::collections::VecDeque;
use std::sync::Arc;
use vstd::prelude::*;

verus! {

/// A history keeps no more checkpoints than this.
pub const CAPACITY: usize = 32;

/// A place to come back to.
#[derive(Debug)]
pub struct Jump {
    pub document: DocumentId,
    pub selections: Arc<Selections>,
}

/// What a checkpoint is: a document and the selections in it.
pub struct Spot {
    pub document: DocumentId,
    pub selections: Ranges,
}

impl View for Jump {
    type V = Spot;

    open spec fn view(&self) -> Spot {
        Spot { document: self.document, selections: self.selections@ }
    }
}

impl Jump {
    pub fn new(document: DocumentId, selections: &Selections) -> (jump: Jump)
        ensures
            jump@ == (Spot { document, selections: selections@ }),
    {
        Jump { document, selections: Arc::new(selections.duplicate()) }
    }

    /// The same checkpoint; its selections are shared.
    pub fn duplicate(&self) -> (jump: Jump)
        ensures
            jump == *self,
    {
        Jump { document: self.document, selections: share(&self.selections) }
    }

    pub fn matches(&self, document: DocumentId, selections: &Selections) -> (same: bool)
        ensures
            same == (self@ == Spot { document, selections: selections@ }),
    {
        self.document == document && self.selections.same(selections)
    }
}

/// The checkpoints of one pane and the place in them.
#[derive(Debug)]
pub struct History {
    pub entries: VecDeque<Jump>,
    /// As many as there are entries when the live view is newer than the
    /// recorded history.
    pub cursor: usize,
}

/// What a history is.
pub struct Trail {
    pub entries: Seq<Spot>,
    pub cursor: int,
}

impl View for History {
    type V = Trail;

    open spec fn view(&self) -> Trail {
        Trail {
            entries: self.entries@.map_values(|jump: Jump| jump@),
            cursor: self.cursor as int,
        }
    }
}

impl Trail {
    /// Whether a checkpoint is in a document.
    pub open spec fn mentions(self, document: DocumentId) -> bool {
        exists|i: int|
            0 <= i < self.entries.len() && (#[trigger] self.entries[i]).document == document
    }

    /// What every history keeps: its capacity, and a place inside it.
    pub open spec fn valid(self) -> bool {
        0 <= self.cursor <= self.entries.len() <= CAPACITY
    }

    /// Whether the live view is newer than what was recorded.
    pub open spec fn at_end(self) -> bool {
        self.cursor == self.entries.len()
    }

    /// The entries up to the place in the history.
    pub open spec fn kept(self) -> Seq<Spot> {
        self.entries.take(self.cursor)
    }

    /// Whether a spot is what the place in the history follows already.
    pub open spec fn follows(self, spot: Spot) -> bool {
        self.cursor > 0 && self.entries[self.cursor - 1] == spot
    }

    /// How many of the oldest entries give way to a new one.
    pub open spec fn evicted(self, spot: Spot) -> int {
        if !self.follows(spot) && self.cursor == CAPACITY { 1 } else { 0 }
    }

    /// The history with a spot recorded: whatever came after its place is
    /// discarded, and the place is behind the new entry.
    pub open spec fn pushed(self, spot: Spot) -> Trail {
        let entries = if self.follows(spot) {
            self.kept()
        } else {
            self.kept().skip(self.evicted(spot)).push(spot)
        };
        Trail { entries, cursor: entries.len() as int }
    }

    /// The history that a step back goes by: the live spot is recorded first
    /// when it is newer than the history.
    pub open spec fn anchored(self, live: Spot) -> Trail {
        if self.at_end() { self.pushed(live) } else { self }
    }

    /// Where a step back leads, before a look at what is there.
    pub open spec fn aimed(self, live: Spot, count: nat) -> int {
        let target = self.cursor - count;
        let lost = if self.at_end() { self.evicted(live) } else { 0 };
        if target - lost < 0 { 0 } else { target - lost }
    }

    /// The entry that a step back reaches: the one aimed at, or the one before
    /// it where that is the live spot.
    pub open spec fn back(self, live: Spot, count: nat) -> Option<int> {
        let entries = self.anchored(live).entries;
        let target = self.aimed(live, count);
        if count > self.cursor || target >= entries.len() {
            None
        } else if entries[target] != live {
            Some(target)
        } else if target > 0 {
            Some(target - 1)
        } else {
            None
        }
    }

    /// The history after a step back.
    pub open spec fn after_back(self, live: Spot, count: nat) -> Trail {
        if count > self.cursor {
            self
        } else {
            match self.back(live, count) {
                Some(target) => Trail { cursor: target, ..self.anchored(live) },
                None => self.anchored(live),
            }
        }
    }

    /// The entry that a step forward reaches.
    pub open spec fn ahead(self, count: nat) -> Option<int> {
        if self.cursor + count < self.entries.len() {
            Some(self.cursor + count)
        } else {
            None
        }
    }

    /// The history after a step forward.
    pub open spec fn after_ahead(self, count: nat) -> Trail {
        match self.ahead(count) {
            Some(target) => Trail { cursor: target, ..self },
            None => self,
        }
    }

    /// The history without the checkpoints of a document, its place before
    /// the same checkpoint as far as it is still there.
    pub open spec fn without(self, document: DocumentId) -> Trail {
        Trail {
            entries: elsewhere(self.entries, document),
            cursor: elsewhere(self.kept(), document).len() as int,
        }
    }
}

/// The spots that are not in a document.
pub open spec fn elsewhere(entries: Seq<Spot>, document: DocumentId) -> Seq<Spot>
    decreases entries.len(),
{
    if entries.len() == 0 {
        entries
    } else if entries.last().document != document {
        elsewhere(entries.drop_last(), document).push(entries.last())
    } else {
        elsewhere(entries.drop_last(), document)
    }
}

proof fn lemma_elsewhere(entries: Seq<Spot>, document: DocumentId, n: int)
    requires
        0 <= n <= entries.len(),
    ensures
        elsewhere(entries.take(n), document).len() <= elsewhere(entries, document).len()
            <= entries.len(),
        forall|i: int|
            0 <= i < elsewhere(entries, document).len() ==> (#[trigger] elsewhere(
                entries,
                document,
            )[i]).document != document,
    decreases entries.len(),
{
    if entries.len() > 0 {
        if n == entries.len() {
            assert(entries.take(n) =~= entries);
            lemma_elsewhere(entries.drop_last(), document, n - 1);
        } else {
            assert(entries.drop_last().take(n) =~= entries.take(n));
            lemma_elsewhere(entries.drop_last(), document, n);
        }
    }
}

impl History {
    /// A history that starts at a spot.
    pub fn new(initial: Jump) -> (history: History)
        ensures
            history@ == (Trail { entries: seq![initial@], cursor: 0 }),
            history@.valid(),
    {
        let mut entries = VecDeque::new();
        entries.push_back(initial);
        let history = History { entries, cursor: 0 };
        assert(history@.entries =~= seq![initial@]);
        history
    }

    /// An equal history.
    pub fn duplicate(&self) -> (history: History)
        ensures
            history@ == self@,
    {
        let mut entries: VecDeque<Jump> = VecDeque::new();
        let mut i: usize = 0;
        while i < self.entries.len()
            invariant
                i <= self.entries.len(),
                entries.len() == i,
                forall|j: int| 0 <= j < i ==> (#[trigger] entries@[j])@ == self.entries@[j]@,
            decreases self.entries.len() - i,
        {
            entries.push_back(self.entries[i].duplicate());
            i += 1;
        }
        let history = History { entries, cursor: self.cursor };
        assert(history@.entries =~= self@.entries);
        history
    }

    /// Records a spot behind the place in the history, and returns how many of
    /// the oldest entries gave way.
    pub fn push(&mut self, jump: Jump) -> (removed: usize)
        requires
            old(self)@.valid(),
        ensures
            final(self)@ == old(self)@.pushed(jump@),
            removed == old(self)@.evicted(jump@),
            final(self)@.valid(),
    {
        self.entries.truncate(self.cursor);
        let ghost kept = self@.entries;
        assert(kept =~= old(self)@.kept());
        let mut removed: usize = 0;
        let repeated = self.cursor > 0 && self.entries[self.cursor - 1].matches(
            jump.document,
            &jump.selections,
        );
        if !repeated {
            if self.entries.len() == CAPACITY {
                self.entries.pop_front();
                removed = 1;
            }
            assert(self@.entries =~= kept.skip(removed as int));
            self.entries.push_back(jump);
            assert(self@.entries =~= kept.skip(removed as int).push(jump@));
        }
        self.cursor = self.entries.len();
        removed
    }

    /// Goes back by a number of checkpoints from the live spot, which is
    /// recorded first when it is newer than the history, and returns the
    /// checkpoint reached.
    pub fn backward(
        &mut self,
        document: DocumentId,
        selections: &Selections,
        count: usize,
    ) -> (reached: Option<Jump>)
        requires
            old(self)@.valid(),
        ensures
            ({
                let live = Spot { document, selections: selections@ };
                &&& final(self)@ == old(self)@.after_back(live, count as nat)
                &&& match (reached, old(self)@.back(live, count as nat)) {
                    (Some(jump), Some(target)) => jump@ == old(self)@.anchored(
                        live,
                    ).entries[target],
                    (None, None) => true,
                    _ => false,
                }
            }),
            final(self)@.valid(),
    {
        if count > self.cursor {
            return None;
        }
        let mut target: usize = self.cursor - count;
        if self.cursor == self.entries.len() {
            let removed = self.push(Jump::new(document, selections));
            target = if target < removed { 0 } else { target - removed };
        }
        if target >= self.entries.len() {
            return None;
        }
        if self.entries[target].matches(document, selections) {
            if target == 0 {
                return None;
            }
            target -= 1;
        }
        self.cursor = target;
        Some(self.entries[target].duplicate())
    }

    /// Goes forward by a number of checkpoints and returns the one reached.
    pub fn forward(&mut self, count: usize) -> (reached: Option<Jump>)
        requires
            old(self)@.valid(),
        ensures
            final(self)@ == old(self)@.after_ahead(count as nat),
            match (reached, old(self)@.ahead(count as nat)) {
                (Some(jump), Some(target)) => jump@ == old(self)@.entries[target],
                (None, None) => true,
                _ => false,
            },
            final(self)@.valid(),
    {
        if count >= self.entries.len() - self.cursor {
            return None;
        }
        self.cursor += count;
        Some(self.entries[self.cursor].duplicate())
    }

    /// Forgets every checkpoint in a document.
    pub fn remove(&mut self, document: DocumentId)
        requires
            old(self)@.valid(),
        ensures
            final(self)@ == old(self)@.without(document),
            final(self)@.valid(),
    {
        let ghost all = self@.entries;
        let mut entries: VecDeque<Jump> = VecDeque::new();
        let mut cursor: usize = 0;
        let mut i: usize = 0;
        let total = self.entries.len();
        assert(entries@.map_values(|jump: Jump| jump@) =~= elsewhere(all.take(0), document));
        assert(all.take(0).take(0) =~= all.take(0));
        while i < total
            invariant
                i <= total,
                total == all.len(),
                all.len() <= CAPACITY,
                self.cursor <= total,
                self.cursor == old(self).cursor,
                self.entries@.map_values(|jump: Jump| jump@) == all.skip(i as int),
                entries@.map_values(|jump: Jump| jump@) == elsewhere(
                    all.take(i as int),
                    document,
                ),
                cursor <= i,
                cursor == elsewhere(
                    all.take(if i <= self.cursor { i as int } else { self.cursor as int }),
                    document,
                ).len(),
            decreases total - i,
        {
            let ghost rest = self.entries@;
            assert(rest.map_values(|jump: Jump| jump@).len() == total - i);
            assert(rest.map_values(|jump: Jump| jump@)[0] == all[i as int]);
            assert(all.take(i + 1).drop_last() =~= all.take(i as int));
            assert(all.take(i + 1).last() == all[i as int]);
            match self.entries.pop_front() {
                Some(jump) => {
                    assert(jump@ == all[i as int]);
                    if jump.document != document {
                        entries.push_back(jump);
                        if i < self.cursor {
                            cursor += 1;
                        }
                    }
                },
                None => {},
            }
            assert forall|j: int| 0 <= j < self.entries@.len() implies (#[trigger] self.entries@[j])@
                == all[i + 1 + j] by {
                assert(rest.map_values(|jump: Jump| jump@)[j + 1] == all.skip(i as int)[j + 1]);
            }
            i += 1;
            assert(self.entries@.map_values(|jump: Jump| jump@) =~= all.skip(i as int));
            assert(entries@.map_values(|jump: Jump| jump@) =~= elsewhere(
                all.take(i as int),
                document,
            ));
        }
        assert(all.take(total as int) =~= all);
        proof {
            lemma_elsewhere(all, document, self.cursor as int);
        }
        self.entries = entries;
        self.cursor = cursor;
    }

    /// The history and checkpoint that a request to go back or forth leads
    /// to. The history itself stays as it is, so that a request that fails on
    /// the way keeps its return path.
    pub fn destination(
        &self,
        forward: bool,
        document: DocumentId,
        selections: &Selections,
        count: usize,
    ) -> (found: Option<(History, Jump)>)
        requires
            self@.valid(),
        ensures
            ({
                let live = Spot { document, selections: selections@ };
                let target = if forward {
                    self@.ahead(count as nat)
                } else {
                    self@.back(live, count as nat)
                };
                match (found, target) {
                    (Some((history, jump)), Some(target)) => {
                        &&& history@ == if forward {
                            self@.after_ahead(count as nat)
                        } else {
                            self@.after_back(live, count as nat)
                        }
                        &&& jump@ == history@.entries[target]
                        &&& history@.valid()
                    },
                    (None, None) => true,
                    _ => false,
                }
            }),
    {
        let mut history = self.duplicate();
        let reached = if forward {
            history.forward(count)
        } else {
            history.backward(document, selections, count)
        };
        match reached {
            Some(jump) => Some((history, jump)),
            None => None,
        }
    }
}

/// The histories of the panes, each of which has its own.
#[derive(Debug)]
pub struct Histories {
    pub list: Vec<(WindowId, History)>,
}

/// What the histories of the panes are.
pub type Trails = Seq<(WindowId, Trail)>;

impl View for Histories {
    type V = Trails;

    open spec fn view(&self) -> Trails {
        self.list@.map_values(|entry: (WindowId, History)| (entry.0, entry.1@))
    }
}

/// The test whether a history is that of a pane.
pub open spec fn belongs_to(id: WindowId) -> spec_fn((WindowId, Trail)) -> bool {
    |entry: (WindowId, Trail)| entry.0 == id
}

/// Where the history of a pane is.
pub open spec fn find_trail(trails: Trails, id: WindowId) -> int {
    first_where(trails, belongs_to(id))
}

/// Whether a pane has a history.
pub open spec fn has_trail(trails: Trails, id: WindowId) -> bool {
    exists|i: int| 0 <= i < trails.len() && (#[trigger] trails[i]).0 == id
}

/// The history of a pane.
pub open spec fn trail_of(trails: Trails, id: WindowId) -> Trail {
    trails[find_trail(trails, id)].1
}

/// The histories with another one for a pane.
pub open spec fn with_trail(trails: Trails, id: WindowId, trail: Trail) -> Trails {
    trails.update(find_trail(trails, id), (id, trail))
}

/// The histories without that of a pane.
pub open spec fn without_trail(trails: Trails, id: WindowId) -> Trails {
    trails.remove(find_trail(trails, id))
}

/// Whether every history keeps to its capacity.
pub open spec fn trails_valid(trails: Trails) -> bool {
    forall|i: int| 0 <= i < trails.len() ==> (#[trigger] trails[i]).1.valid()
}

/// The histories without the checkpoints of a document.
pub open spec fn trails_without(trails: Trails, document: DocumentId) -> Trails {
    trails.map_values(|entry: (WindowId, Trail)| (entry.0, entry.1.without(document)))
}

/// Whether a checkpoint of some history is in a document.
pub open spec fn mentions(trails: Trails, document: DocumentId) -> bool {
    exists|i: int| 0 <= i < trails.len() && #[trigger] trails[i].1.mentions(document)
}

/// Without the checkpoints of a document the histories are in order, and lead
/// nowhere that they did not.
pub proof fn lemma_trails_without(trails: Trails, document: DocumentId)
    requires
        trails_valid(trails),
    ensures
        trails_valid(trails_without(trails, document)),
        trails_without(trails, document).len() == trails.len(),
        forall|i: int|
            0 <= i < trails.len() ==> (#[trigger] trails_without(trails, document)[i]).0
                == trails[i].0,
        !mentions(trails_without(trails, document), document),
        forall|other: DocumentId| #[trigger]
            mentions(trails_without(trails, document), other) ==> mentions(trails, other),
{
    let after = trails_without(trails, document);
    assert forall|i: int| 0 <= i < after.len() implies (#[trigger] after[i]).1.valid() by {
        assert(trails[i].1.valid());
        lemma_elsewhere(trails[i].1.entries, document, trails[i].1.cursor);
    }
    assert forall|i: int| 0 <= i < after.len() implies !#[trigger] after[i].1.mentions(document) by {
        lemma_elsewhere(trails[i].1.entries, document, 0);
    }
    assert forall|other: DocumentId| #[trigger] mentions(after, other) implies mentions(
        trails,
        other,
    ) by {
        let i = choose|i: int| 0 <= i < after.len() && #[trigger] after[i].1.mentions(other);
        let entries = after[i].1.entries;
        let j = choose|j: int| 0 <= j < entries.len() && (#[trigger] entries[j]).document == other;
        lemma_elsewhere_kept(trails[i].1.entries, document, j);
        assert(trails[i].1.mentions(other));
    }
}

/// A spot that is kept was there.
proof fn lemma_elsewhere_kept(entries: Seq<Spot>, document: DocumentId, j: int)
    requires
        0 <= j < elsewhere(entries, document).len(),
    ensures
        exists|i: int|
            0 <= i < entries.len() && #[trigger] entries[i] == elsewhere(entries, document)[j],
    decreases entries.len(),
{
    let rest = entries.drop_last();
    let kept = elsewhere(rest, document);
    if j < kept.len() {
        lemma_elsewhere_kept(rest, document, j);
        let i = choose|i: int| 0 <= i < rest.len() && #[trigger] rest[i] == kept[j];
        assert(entries[i] == kept[j]);
    } else {
        assert(entries[entries.len() - 1] == elsewhere(entries, document)[j]);
    }
}

/// A history that is there is found.
pub proof fn lemma_has_trail(trails: Trails, id: WindowId)
    requires
        has_trail(trails, id),
    ensures
        0 <= find_trail(trails, id) < trails.len(),
        trails[find_trail(trails, id)].0 == id,
{
    lemma_first_where(trails, belongs_to(id));
    let i = choose|i: int| 0 <= i < trails.len() && (#[trigger] trails[i]).0 == id;
    assert(trails[i].0 == id);
}

impl History {
    /// Whether a checkpoint is in a document.
    pub fn mentioned(&self, document: DocumentId) -> (yes: bool)
        ensures
            yes == self@.mentions(document),
    {
        let mut i: usize = 0;
        while i < self.entries.len()
            invariant
                i <= self.entries.len(),
                forall|j: int| 0 <= j < i ==> (#[trigger] self@.entries[j]).document != document,
            decreases self.entries.len() - i,
        {
            assert(self@.entries[i as int] == self.entries@[i as int]@);
            if self.entries[i].document == document {
                return true;
            }
            i += 1;
        }
        false
    }
}

impl Histories {
    /// Whether a checkpoint of some history is in a document.
    pub fn mentioned(&self, document: DocumentId) -> (yes: bool)
        ensures
            yes == mentions(self@, document),
    {
        let mut i: usize = 0;
        while i < self.list.len()
            invariant
                i <= self.list.len(),
                forall|j: int| 0 <= j < i ==> !#[trigger] self@[j].1.mentions(document),
            decreases self.list.len() - i,
        {
            assert(self@[i as int].1 == self.list@[i as int].1@);
            if self.list[i].1.mentioned(document) {
                return true;
            }
            i += 1;
        }
        false
    }

    /// One history, for the first pane.
    pub fn new(id: WindowId, initial: Jump) -> (histories: Histories)
        ensures
            histories@ == seq![(id, Trail { entries: seq![initial@], cursor: 0 })],
            trails_valid(histories@),
    {
        let mut list = Vec::new();
        list.push((id, History::new(initial)));
        let histories = Histories { list };
        assert(histories@ =~= seq![(id, Trail { entries: seq![initial@], cursor: 0 })]);
        histories
    }

    fn index(&self, id: WindowId) -> (index: usize)
        ensures
            index == find_trail(self@, id),
            index <= self.list@.len(),
    {
        let mut i: usize = 0;
        while i < self.list.len() && self.list[i].0 != id
            invariant
                i <= self.list.len(),
                forall|j: int| 0 <= j < i ==> (#[trigger] self@[j]).0 != id,
            decreases self.list.len() - i,
        {
            i += 1;
        }
        proof {
            lemma_is_first(self@, belongs_to(id), i as int);
        }
        i
    }

    /// Begins the history of a new pane.
    pub fn start(&mut self, id: WindowId, initial: Jump)
        ensures
            final(self)@ == old(self)@.push((id, Trail { entries: seq![initial@], cursor: 0 })),
            trails_valid(old(self)@) ==> trails_valid(final(self)@),
    {
        self.list.push((id, History::new(initial)));
        assert(self@ =~= old(self)@.push((id, Trail { entries: seq![initial@], cursor: 0 })));
    }

    /// Forgets the history of a pane.
    pub fn forget(&mut self, id: WindowId)
        requires
            has_trail(old(self)@, id),
        ensures
            final(self)@ == without_trail(old(self)@, id),
            trails_valid(old(self)@) ==> trails_valid(final(self)@),
    {
        proof {
            lemma_has_trail(self@, id);
        }
        let index = self.index(id);
        self.list.remove(index);
        assert(self@ =~= without_trail(old(self)@, id));
    }

    /// Forgets every history but that of a pane.
    pub fn retain(&mut self, id: WindowId)
        requires
            has_trail(old(self)@, id),
        ensures
            final(self)@ == seq![(id, trail_of(old(self)@, id))],
            trails_valid(old(self)@) ==> trails_valid(final(self)@),
    {
        proof {
            lemma_has_trail(self@, id);
        }
        let index = self.index(id);
        let kept = self.list.remove(index);
        assert((kept.0, kept.1@) == old(self)@[index as int]);
        let mut list = Vec::new();
        list.push(kept);
        self.list = list;
        assert(self@ =~= seq![(id, trail_of(old(self)@, id))]);
    }

    /// Records a spot in the history of a pane.
    pub fn push(&mut self, id: WindowId, jump: Jump)
        requires
            has_trail(old(self)@, id),
            trails_valid(old(self)@),
        ensures
            final(self)@ == with_trail(old(self)@, id, trail_of(old(self)@, id).pushed(jump@)),
            trails_valid(final(self)@),
    {
        proof {
            lemma_has_trail(self@, id);
        }
        let index = self.index(id);
        assert(self@[index as int].1.valid());
        let history = &mut self.list[index].1;
        history.push(jump);
        assert(self@ =~= with_trail(old(self)@, id, trail_of(old(self)@, id).pushed(jump@)));
    }

    /// Replaces the history of a pane.
    pub fn replace(&mut self, id: WindowId, history: History)
        requires
            has_trail(old(self)@, id),
        ensures
            final(self)@ == with_trail(old(self)@, id, history@),
            trails_valid(old(self)@) && history@.valid() ==> trails_valid(final(self)@),
    {
        proof {
            lemma_has_trail(self@, id);
        }
        let index = self.index(id);
        self.list.set(index, (id, history));
        assert(self@ =~= with_trail(old(self)@, id, history@));
    }

    /// Replaces the history of a pane, and returns the one before.
    pub fn exchange(&mut self, id: WindowId, history: History) -> (before: History)
        requires
            has_trail(old(self)@, id),
        ensures
            final(self)@ == with_trail(old(self)@, id, history@),
            before@ == trail_of(old(self)@, id),
    {
        proof {
            lemma_has_trail(self@, id);
        }
        let index = self.index(id);
        let ghost given = history@;
        let mut other = history;
        let place = &mut self.list[index].1;
        std::mem::swap(place, &mut other);
        assert(self@ =~= with_trail(old(self)@, id, given));
        other
    }

    /// The history and checkpoint that a request of a pane leads to; see
    /// `History::destination`.
    pub fn destination(
        &self,
        id: WindowId,
        forward: bool,
        document: DocumentId,
        selections: &Selections,
        count: usize,
    ) -> (found: Option<(History, Jump)>)
        requires
            has_trail(self@, id),
            trails_valid(self@),
        ensures
            ({
                let trail = trail_of(self@, id);
                let live = Spot { document, selections: selections@ };
                let target = if forward {
                    trail.ahead(count as nat)
                } else {
                    trail.back(live, count as nat)
                };
                match (found, target) {
                    (Some((history, jump)), Some(target)) => {
                        &&& history@ == if forward {
                            trail.after_ahead(count as nat)
                        } else {
                            trail.after_back(live, count as nat)
                        }
                        &&& jump@ == history@.entries[target]
                        &&& history@.valid()
                    },
                    (None, None) => true,
                    _ => false,
                }
            }),
    {
        proof {
            lemma_has_trail(self@, id);
        }
        let index = self.index(id);
        assert(self@[index as int].1.valid());
        self.list[index].1.destination(forward, document, selections, count)
    }

    /// Forgets every checkpoint in a document.
    pub fn remove(&mut self, document: DocumentId)
        requires
            trails_valid(old(self)@),
        ensures
            final(self)@ == trails_without(old(self)@, document),
            trails_valid(final(self)@),
    {
        let mut i: usize = 0;
        while i < self.list.len()
            invariant
                i <= self.list.len(),
                self.list.len() == old(self).list.len(),
                trails_valid(old(self)@),
                forall|j: int|
                    0 <= j < i ==> (#[trigger] self.list@[j]).0 == old(self).list@[j].0
                        && self.list@[j].1@ == old(self).list@[j].1@.without(document)
                        && self.list@[j].1@.valid(),
                forall|j: int| i <= j < self.list.len() ==> self.list@[j] == old(self).list@[j],
            decreases self.list.len() - i,
        {
            assert(old(self)@[i as int].1.valid());
            let history = &mut self.list[i].1;
            history.remove(document);
            i += 1;
        }
        assert(self@ =~= trails_without(old(self)@, document));
        assert forall|j: int| 0 <= j < self@.len() implies (#[trigger] self@[j]).1.valid() by {
            assert(self.list@[j].1@.valid());
        }
    }
}

/// Each pane has a history of its own: recording a spot in one leaves the
/// others alone.
pub proof fn law_panes_do_not_share_history(
    trails: Trails,
    id: WindowId,
    spot: Spot,
    i: int,
)
    requires
        has_trail(trails, id),
        0 <= i < trails.len(),
        trails[i].0 != id,
    ensures
        with_trail(trails, id, trail_of(trails, id).pushed(spot))[i] == trails[i],
{
    lemma_has_trail(trails, id);
}

/// Every operation keeps a history within its capacity and its place inside
/// it.
pub proof fn law_history_stays_valid(
    trail: Trail,
    spot: Spot,
    count: nat,
    document: DocumentId,
)
    requires
        trail.valid(),
    ensures
        trail.pushed(spot).valid(),
        trail.after_back(spot, count).valid(),
        trail.after_ahead(count).valid(),
        trail.without(document).valid(),
{
    lemma_elsewhere(trail.entries, document, trail.cursor);
}

/// Going back from the newest place records the live spot as the last entry,
/// so that going forward to the end returns to it.
pub proof fn law_forward_returns_to_the_live_spot(trail: Trail, live: Spot, count: nat)
    requires
        trail.valid(),
        trail.at_end(),
        trail.back(live, count) is Some,
    ensures
        ({
            let after = trail.after_back(live, count);
            let distance = (after.entries.len() - 1 - after.cursor) as nat;
            &&& after.entries.last() == live
            &&& after.ahead(distance) == Some(after.entries.len() - 1)
            &&& after.after_ahead(distance).entries == after.entries
        }),
{
}

/// One step forward undoes one step back from the newest place.
pub proof fn law_one_step_forward_undoes_one_step_back(trail: Trail, live: Spot)
    requires
        trail.valid(),
        trail.at_end(),
        trail.back(live, 1) is Some,
    ensures
        ({
            let after = trail.after_back(live, 1);
            &&& after.ahead(1) is Some
            &&& after.entries[after.ahead(1)->0] == live
        }),
{
}

/// A step back never leads to the live spot itself, as long as the entry
/// before the one aimed at is another.
pub proof fn law_a_step_back_leaves_the_live_spot(trail: Trail, live: Spot, count: nat)
    requires
        trail.valid(),
        trail.back(live, count) is Some,
        forall|i: int|
            0 < i < trail.anchored(live).entries.len() ==> #[trigger] trail.anchored(
                live,
            ).entries[i - 1] != trail.anchored(live).entries[i],
    ensures
        trail.anchored(live).entries[trail.back(live, count)->0] != live,
{
}

/// A new checkpoint discards the entries ahead of the place in the history.
pub proof fn law_a_checkpoint_discards_the_branch_ahead(trail: Trail, spot: Spot)
    requires
        trail.valid(),
    ensures
        trail.pushed(spot).at_end(),
        trail.pushed(spot).entries.len() > 0,
        trail.pushed(spot).entries.last() == spot,
        trail.pushed(spot).ahead(0) is None,
{
}

/// A closed document leaves no dangling checkpoint.
pub proof fn law_a_closed_document_leaves_no_checkpoint(trail: Trail, document: DocumentId)
    requires
        trail.valid(),
    ensures
        forall|i: int|
            0 <= i < trail.without(document).entries.len() ==> (#[trigger] trail.without(
                document,
            ).entries[i]).document != document,
{
    lemma_elsewhere(trail.entries, document, trail.cursor);
}

} // verus!
