//! Selections as plain positions in a text.

use vstd::prelude::*;

verus! {

/// Identity of a document; never reused.
pub type DocumentId = u64;

/// A version of a document's text.
pub type Revision = u64;

/// Identity of a view on a document.
pub type ViewId = u64;

/// A range of characters with the end that moves, the head.
#[derive(Clone, Copy, Debug, PartialEq, Eq, Structural)]
pub struct Selection {
    pub anchor: usize,
    pub head: usize,
}

impl Selection {
    /// The greater of the two ends.
    pub open spec fn spec_end(self) -> usize {
        if self.anchor <= self.head { self.head } else { self.anchor }
    }

    /// The lesser of the two ends.
    pub open spec fn spec_start(self) -> usize {
        if self.anchor <= self.head { self.anchor } else { self.head }
    }

    /// The selection with both ends inside a text of `length` characters.
    pub open spec fn clamped(self, length: usize) -> Selection {
        Selection {
            anchor: if self.anchor <= length { self.anchor } else { length },
            head: if self.head <= length { self.head } else { length },
        }
    }

    pub fn end(self) -> (end: usize)
        ensures
            end == self.spec_end(),
    {
        if self.anchor <= self.head { self.head } else { self.anchor }
    }

    pub fn start(self) -> (start: usize)
        ensures
            start == self.spec_start(),
    {
        if self.anchor <= self.head { self.anchor } else { self.head }
    }
}

/// The selections of a view, one of them primary.
#[derive(Debug)]
pub struct Selections {
    pub ranges: Vec<Selection>,
    pub primary: usize,
}

/// What a set of selections is: its ranges and which is primary.
pub struct Ranges {
    pub ranges: Seq<Selection>,
    pub primary: usize,
}

impl View for Selections {
    type V = Ranges;

    open spec fn view(&self) -> Ranges {
        Ranges { ranges: self.ranges@, primary: self.primary }
    }
}

impl Ranges {
    /// Whether every range lies in a text of `length` characters.
    pub open spec fn inside(self, length: usize) -> bool {
        forall|i: int|
            0 <= i < self.ranges.len() ==> (#[trigger] self.ranges[i]).spec_end() <= length
    }

    /// The ranges with their ends inside a text of `length` characters.
    pub open spec fn clamped(self, length: usize) -> Ranges {
        Ranges {
            ranges: self.ranges.map_values(|range: Selection| range.clamped(length)),
            ..self
        }
    }
}

/// An equal list of ranges.
fn copy_ranges(ranges: &Vec<Selection>) -> (copy: Vec<Selection>)
    ensures
        copy@ == ranges@,
{
    let mut copy = Vec::new();
    let mut i: usize = 0;
    while i < ranges.len()
        invariant
            i <= ranges.len(),
            copy@ == ranges@.take(i as int),
        decreases ranges.len() - i,
    {
        copy.push(ranges[i]);
        i += 1;
        assert(copy@ =~= ranges@.take(i as int));
    }
    assert(copy@ =~= ranges@);
    copy
}

impl Selections {
    /// One selection alone.
    pub fn single(selection: Selection) -> (selections: Selections)
        ensures
            selections@ == (Ranges { ranges: seq![selection], primary: 0 }),
    {
        let mut ranges = Vec::new();
        ranges.push(selection);
        assert(ranges@ =~= seq![selection]);
        Selections { ranges, primary: 0 }
    }

    /// An equal set of selections.
    pub fn duplicate(&self) -> (selections: Selections)
        ensures
            selections@ == self@,
    {
        Selections { ranges: copy_ranges(&self.ranges), primary: self.primary }
    }

    /// Whether two sets are equal, directions and primary included.
    pub fn same(&self, other: &Selections) -> (same: bool)
        ensures
            same == (self@ == other@),
    {
        if self.primary != other.primary || self.ranges.len() != other.ranges.len() {
            return false;
        }
        let mut i: usize = 0;
        while i < self.ranges.len()
            invariant
                i <= self.ranges.len(),
                self.ranges.len() == other.ranges.len(),
                forall|j: int| 0 <= j < i ==> self.ranges@[j] == other.ranges@[j],
            decreases self.ranges.len() - i,
        {
            if self.ranges[i] != other.ranges[i] {
                assert(self@.ranges[i as int] != other@.ranges[i as int]);
                return false;
            }
            i += 1;
        }
        assert(self.ranges@ =~= other.ranges@);
        true
    }

    /// Whether every range lies in a text of `length` characters.
    pub fn fits(&self, length: usize) -> (fits: bool)
        ensures
            fits == self@.inside(length),
    {
        let mut i: usize = 0;
        while i < self.ranges.len()
            invariant
                i <= self.ranges.len(),
                forall|j: int| 0 <= j < i ==> (#[trigger] self.ranges@[j]).spec_end() <= length,
            decreases self.ranges.len() - i,
        {
            if self.ranges[i].end() > length {
                assert(self@.ranges[i as int].spec_end() > length);
                return false;
            }
            i += 1;
        }
        true
    }

    /// The ranges with their ends inside a text of `length` characters.
    pub fn clamp(&self, length: usize) -> (selections: Selections)
        ensures
            selections@ == self@.clamped(length),
            selections@.inside(length),
            self@.inside(length) ==> selections@ == self@,
    {
        let mut ranges: Vec<Selection> = Vec::new();
        let mut i: usize = 0;
        while i < self.ranges.len()
            invariant
                i <= self.ranges.len(),
                ranges.len() == i,
                forall|j: int| 0 <= j < i ==> ranges@[j] == self.ranges@[j].clamped(length),
            decreases self.ranges.len() - i,
        {
            let range = self.ranges[i];
            let anchor: usize = if range.anchor <= length { range.anchor } else { length };
            let head: usize = if range.head <= length { range.head } else { length };
            ranges.push(Selection { anchor, head });
            i += 1;
        }
        assert(ranges@ =~= self@.clamped(length).ranges);
        proof {
            if self@.inside(length) {
                assert forall|j: int| 0 <= j < ranges@.len() implies ranges@[j]
                    == self.ranges@[j] by {
                    assert(self@.ranges[j].spec_end() <= length);
                }
                assert(ranges@ =~= self.ranges@);
            }
        }
        Selections { ranges, primary: self.primary }
    }
}

} // verus!
