//! Session prompt history, independent of buffer size.

use crate::text::{byte_length, bytes_in, same_text};
use std::collections::VecDeque;
use vstd::prelude::*;

verus! {

/// The history keeps no more entries than this.
pub const MAX_HISTORY_ENTRIES: usize = 100;

/// The entries of the history take up no more bytes than this.
pub const MAX_HISTORY_BYTES: usize = 262144;

/// A longer text is not recorded.
pub const MAX_ENTRY_BYTES: usize = 65536;

/// A shared, bounded history, partitioned by the prompt's selected register.
/// Register fragments remain ordinary yank/search values rather than history.
pub struct History {
    pub entries: VecDeque<(char, String)>,
    pub bytes: usize,
}

/// A recorded text with the register of its prompt.
pub type Entry = (char, Seq<char>);

/// The texts recorded for one register, oldest first.
pub open spec fn of_register(entries: Seq<Entry>, register: char) -> Seq<Seq<char>>
    decreases entries.len(),
{
    if entries.len() == 0 {
        seq![]
    } else if entries.last().0 == register {
        of_register(entries.drop_last(), register).push(entries.last().1)
    } else {
        of_register(entries.drop_last(), register)
    }
}

/// The bytes that the texts of the entries take up together.
pub open spec fn total_bytes(entries: Seq<Entry>) -> nat
    decreases entries.len(),
{
    if entries.len() == 0 {
        0
    } else {
        total_bytes(entries.drop_last()) + byte_length(entries.last().1)
    }
}

/// Whether the entries keep to both limits.
pub open spec fn within_limits(entries: Seq<Entry>) -> bool {
    entries.len() <= MAX_HISTORY_ENTRIES && total_bytes(entries) <= MAX_HISTORY_BYTES
}

/// The newest entries that keep to both limits.
pub open spec fn trimmed(entries: Seq<Entry>) -> Seq<Entry>
    decreases entries.len(),
{
    if entries.len() == 0 || within_limits(entries) {
        entries
    } else {
        trimmed(entries.drop_first())
    }
}

/// Whether a text is one that a prompt of this register records now: not
/// empty, not too long, and not the register's newest text again.
pub open spec fn recordable(entries: Seq<Entry>, register: char, text: Seq<char>) -> bool {
    &&& text.len() > 0
    &&& byte_length(text) <= MAX_ENTRY_BYTES
    &&& of_register(entries, register).len() == 0 || of_register(entries, register).last() != text
}

/// Where a step through a register's texts leads, before it is read.
pub open spec fn stepped(count: nat, position: Option<usize>, backwards: bool) -> int {
    match (position, backwards) {
        (None, true) => count - 1,
        (Some(i), true) => if i == 0 { 0 } else { i - 1 },
        (None, false) => 0,
        (Some(i), false) => if i + 1 < count { i + 1 } else { count - 1 },
    }
}

proof fn lemma_total_first(entries: Seq<Entry>)
    requires
        entries.len() > 0,
    ensures
        total_bytes(entries) == byte_length(entries[0].1) + total_bytes(entries.drop_first()),
    decreases entries.len(),
{
    if entries.len() == 1 {
        assert(entries.drop_last() =~= seq![]);
        assert(entries.drop_first() =~= seq![]);
    } else {
        lemma_total_first(entries.drop_last());
        assert(entries.drop_last().drop_first() =~= entries.drop_first().drop_last());
    }
}

/// The texts of a register in a longer history begin with those in a shorter.
proof fn lemma_of_register_prefix(entries: Seq<Entry>, register: char, n: int)
    requires
        0 <= n <= entries.len(),
    ensures
        of_register(entries.take(n), register).len() <= of_register(entries, register).len(),
        forall|i: int|
            0 <= i < of_register(entries.take(n), register).len() ==> #[trigger] of_register(
                entries.take(n),
                register,
            )[i] == of_register(entries, register)[i],
    decreases entries.len(),
{
    if n == entries.len() {
        assert(entries.take(n) =~= entries);
    } else {
        lemma_of_register_prefix(entries.drop_last(), register, n);
        assert(entries.drop_last().take(n) =~= entries.take(n));
    }
}

impl Default for History {
    fn default() -> (history: History)
        ensures
            history@ == Seq::<Entry>::empty(),
            history.valid(),
    {
        let history = History { entries: VecDeque::new(), bytes: 0 };
        assert(history@ =~= Seq::empty());
        history
    }
}

impl View for History {
    type V = Seq<Entry>;

    open spec fn view(&self) -> Seq<Entry> {
        self.entries@.map_values(|entry: (char, String)| (entry.0, entry.1@))
    }
}

impl History {
    /// What every history keeps: the limits, and the count of its bytes.
    pub open spec fn valid(&self) -> bool {
        &&& within_limits(self@)
        &&& self.bytes == total_bytes(self@)
        &&& forall|i: int|
            0 <= i < self@.len() ==> {
                &&& (#[trigger] self@[i]).1.len() > 0
                &&& byte_length(self@[i].1) <= MAX_ENTRY_BYTES
            }
    }

    /// Records a text and lets the oldest entries go until both limits hold.
    pub fn push(&mut self, register: char, text: &str)
        requires
            old(self).valid(),
        ensures
            final(self).valid(),
            final(self)@ == if recordable(old(self)@, register, text@) {
                trimmed(old(self)@.push((register, text@)))
            } else {
                old(self)@
            },
    {
        let bytes = bytes_in(text);
        if text.is_empty() || bytes > MAX_ENTRY_BYTES {
            return;
        }
        let repeated = match self.last(register) {
            Some(last) => same_text(last.as_str(), text),
            None => false,
        };
        if repeated {
            return;
        }
        self.bytes += bytes;
        self.entries.push_back((register, text.to_owned()));
        let ghost all = old(self)@.push((register, text@));
        assert(self@ =~= all);
        assert(all.drop_last() =~= old(self)@);
        while self.entries.len() > MAX_HISTORY_ENTRIES || self.bytes > MAX_HISTORY_BYTES
            invariant
                self.bytes == total_bytes(self@),
                trimmed(self@) == trimmed(all),
                self@.len() == self.entries.len(),
                forall|i: int|
                    0 <= i < self@.len() ==> {
                        &&& (#[trigger] self@[i]).1.len() > 0
                        &&& byte_length(self@[i].1) <= MAX_ENTRY_BYTES
                    },
            decreases self.entries.len(),
        {
            let ghost before = self@;
            proof {
                if self@.len() > 0 {
                    lemma_total_first(self@);
                }
            }
            match self.entries.pop_front() {
                Some((_, oldest)) => {
                    assert(self@ =~= before.drop_first());
                    self.bytes -= bytes_in(oldest.as_str());
                    assert(forall|i: int| 0 <= i < self@.len() ==> self@[i] == before[i + 1]);
                },
                None => {},
            }
        }
    }

    /// The newest text of a register.
    pub fn last(&self, register: char) -> (text: Option<String>)
        ensures
            match text {
                Some(text) => of_register(self@, register).len() > 0 && text@ == of_register(
                    self@,
                    register,
                ).last(),
                None => of_register(self@, register).len() == 0,
            },
    {
        let mut i: usize = self.entries.len();
        assert(self@.take(i as int) =~= self@);
        while i > 0
            invariant
                i <= self.entries.len(),
                self@.len() == self.entries.len(),
                of_register(self@, register) == of_register(self@.take(i as int), register),
            decreases i,
        {
            i -= 1;
            assert(self@.take(i + 1).drop_last() =~= self@.take(i as int));
            assert(self@.take(i + 1).last() == self@[i as int]);
            if self.entries[i].0 == register {
                return Some(self.entries[i].1.clone());
            }
        }
        None
    }

    /// How many texts a register has.
    fn count(&self, register: char) -> (count: usize)
        ensures
            count == of_register(self@, register).len(),
    {
        let mut count: usize = 0;
        let mut i: usize = 0;
        while i < self.entries.len()
            invariant
                i <= self.entries.len(),
                self@.len() == self.entries.len(),
                count <= i,
                count == of_register(self@.take(i as int), register).len(),
            decreases self.entries.len() - i,
        {
            assert(self@.take(i + 1).drop_last() =~= self@.take(i as int));
            assert(self@.take(i + 1).last() == self@[i as int]);
            if self.entries[i].0 == register {
                count += 1;
            }
            i += 1;
        }
        assert(self@.take(i as int) =~= self@);
        count
    }

    /// The text at `index` among those of a register.
    fn nth(&self, register: char, index: usize) -> (text: Option<String>)
        ensures
            match text {
                Some(text) => index < of_register(self@, register).len() && text@ == of_register(
                    self@,
                    register,
                )[index as int],
                None => index >= of_register(self@, register).len(),
            },
    {
        let mut seen: usize = 0;
        let mut i: usize = 0;
        while i < self.entries.len()
            invariant
                i <= self.entries.len(),
                self@.len() == self.entries.len(),
                seen <= i,
                seen <= index,
                seen == of_register(self@.take(i as int), register).len(),
            decreases self.entries.len() - i,
        {
            assert(self@.take(i + 1).drop_last() =~= self@.take(i as int));
            assert(self@.take(i + 1).last() == self@[i as int]);
            if self.entries[i].0 == register {
                if seen == index {
                    proof {
                        lemma_of_register_prefix(self@, register, i + 1);
                        assert(of_register(self@.take(i + 1), register)[index as int]
                            == self@[i as int].1);
                    }
                    return Some(self.entries[i].1.clone());
                }
                seen += 1;
            }
            i += 1;
        }
        assert(self@.take(i as int) =~= self@);
        None
    }

    /// Moves one text back or forth among those of a register and returns the
    /// text there. Without texts nothing moves.
    pub fn step(
        &self,
        register: char,
        position: &mut Option<usize>,
        backwards: bool,
    ) -> (text: Option<String>)
        ensures
            ({
                let texts = of_register(self@, register);
                let at = stepped(texts.len(), *old(position), backwards);
                if texts.len() == 0 {
                    text is None && *final(position) == *old(position)
                } else {
                    &&& *final(position) == Some(at as usize)
                    &&& match text {
                        Some(text) => at < texts.len() && text@ == texts[at],
                        None => at >= texts.len(),
                    }
                }
            }),
    {
        let count = self.count(register);
        if count == 0 {
            return None;
        }
        let end: usize = count - 1;
        let index: usize = if backwards {
            match *position {
                None => end,
                Some(i) => if i == 0 { 0 } else { i - 1 },
            }
        } else {
            match *position {
                None => 0,
                Some(i) => if i < end { i + 1 } else { end },
            }
        };
        *position = Some(index);
        self.nth(register, index)
    }
}

proof fn lemma_trimmed_keeps_last(entries: Seq<Entry>)
    requires
        entries.len() > 0,
        byte_length(entries.last().1) <= MAX_ENTRY_BYTES,
    ensures
        trimmed(entries).len() > 0,
        trimmed(entries).last() == entries.last(),
    decreases entries.len(),
{
    if !within_limits(entries) {
        if entries.len() == 1 {
            assert(entries.drop_last() =~= seq![]);
            assert(total_bytes(entries.drop_last()) == 0);
        } else {
            lemma_trimmed_keeps_last(entries.drop_first());
        }
    }
}

/// A recorded text is the newest of its register, and recording it again
/// changes nothing.
pub proof fn law_recorded_text_is_newest(entries: Seq<Entry>, register: char, text: Seq<char>)
    requires
        recordable(entries, register, text),
    ensures
        ({
            let after = trimmed(entries.push((register, text)));
            &&& of_register(after, register).len() > 0
            &&& of_register(after, register).last() == text
            &&& !recordable(after, register, text)
        }),
{
    lemma_trimmed_keeps_last(entries.push((register, text)));
}

/// However much is recorded, the history keeps to its limits and is a tail of
/// what was recorded.
pub proof fn law_history_is_bounded(entries: Seq<Entry>)
    ensures
        within_limits(trimmed(entries)),
        exists|n: int| 0 <= n <= entries.len() && trimmed(entries) == #[trigger] entries.skip(n),
    decreases entries.len(),
{
    if entries.len() == 0 || within_limits(entries) {
        assert(entries.skip(0) =~= entries);
    } else {
        law_history_is_bounded(entries.drop_first());
        let n = choose|n: int|
            0 <= n <= entries.drop_first().len() && trimmed(entries.drop_first())
                == #[trigger] entries.drop_first().skip(n);
        assert(entries.drop_first().skip(n) =~= entries.skip(n + 1));
    }
}

/// Stepping never leaves the register's texts, and stepping forward undoes a
/// step back that moved.
pub proof fn law_steps_are_clamped(count: nat, position: Option<usize>, backwards: bool)
    requires
        count > 0,
        position is Some ==> position->0 < count,
    ensures
        0 <= stepped(count, position, backwards) < count,
        position is Some && position->0 > 0 ==> stepped(
            count,
            Some(stepped(count, position, true) as usize),
            false,
        ) == position->0,
{
}

/// Recording for one register leaves what the others show alone, unless the
/// limits let old entries go.
pub proof fn law_registers_do_not_mix(
    entries: Seq<Entry>,
    register: char,
    text: Seq<char>,
    other: char,
)
    requires
        register != other,
        within_limits(entries.push((register, text))),
    ensures
        of_register(trimmed(entries.push((register, text))), other) == of_register(entries, other),
{
    assert(entries.push((register, text)).drop_last() =~= entries);
}

} // verus!
