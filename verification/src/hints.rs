//! The box of key hints.

use crate::app::App;
use crate::find::{first_where, lemma_first_where, lemma_is_first};
use crate::layout::Rect;
use crate::measure::{lines_of, split_lines};
use crate::text::{same_text, texts};
use vstd::prelude::*;
use vstd::string::StringExecFns;

verus! {

/// No wider than this.
pub const MAX_WIDTH: u16 = 78;

/// Which hints are shown.
#[derive(Clone, Copy, Debug, PartialEq, Eq, Structural)]
pub enum HintSource {
    /// None.
    Nothing,
    /// What the registers hold, one of which is awaited.
    Registers,
    /// How the keys typed so far go on.
    Keymap,
}

/// A key, or some that mean the same, and what it does.
#[derive(Debug)]
pub struct Hint {
    pub keys: String,
    pub description: String,
}

/// What a box of hints shows where.
#[derive(Debug)]
pub struct HintBox {
    pub area: Rect,
    pub title: String,
    pub rows: Vec<String>,
}

/// The keys and the description of hints.
pub open spec fn hints_of(hints: Seq<Hint>) -> Seq<(Seq<char>, Seq<char>)> {
    hints.map_values(|hint: Hint| (hint.keys@, hint.description@))
}

/// Whether a hint has a description.
pub open spec fn describes(description: Seq<char>) -> spec_fn((Seq<char>, Seq<char>)) -> bool {
    |hint: (Seq<char>, Seq<char>)| hint.1 == description
}

/// Hints with those of the same description together, at the place of the first
/// of them, their keys separated by slashes.
pub open spec fn grouped(hints: Seq<(Seq<char>, Seq<char>)>) -> Seq<(Seq<char>, Seq<char>)>
    decreases hints.len(),
{
    if hints.len() == 0 {
        Seq::empty()
    } else {
        let before = grouped(hints.drop_last());
        let (keys, description) = hints.last();
        let at = first_where(before, describes(description));
        if at < before.len() {
            before.update(at, (before[at].0 + "/"@ + keys, description))
        } else {
            before.push((keys, description))
        }
    }
}

/// The first line of a text.
pub open spec fn first_line(text: Seq<char>) -> Seq<char> {
    let lines = lines_of(text);
    if lines.len() > 0 { lines[0] } else { text }
}

/// The line that shows a hint.
pub open spec fn hint_row(hint: (Seq<char>, Seq<char>)) -> Seq<char> {
    hint.0 + "  "@ + first_line(hint.1)
}

/// Where a box for a number of hints is drawn, on a screen of this size: at the
/// right, above the command line.
pub open spec fn hint_area(size: (u16, u16), count: nat) -> Option<Rect> {
    let width = if size.0 < MAX_WIDTH { size.0 } else { MAX_WIDTH };
    let bottom = if size.1 == 0 { 0 } else { size.1 - 1 };
    let height = if count + 2 < bottom { (count + 2) as int } else { bottom };
    if width < 4 || height < 3 {
        None
    } else {
        Some(
            Rect {
                x: (size.0 - width) as u16,
                y: (bottom - height) as u16,
                width,
                height: height as u16,
            },
        )
    }
}

/// Puts hints of the same description together.
pub fn group_hints(hints: &Vec<Hint>) -> (groups: Vec<Hint>)
    ensures
        hints_of(groups@) == grouped(hints_of(hints@)),
{
    let mut groups: Vec<Hint> = Vec::new();
    let ghost all = hints_of(hints@);
    let mut i: usize = 0;
    assert(hints_of(groups@) =~= grouped(all.take(0)));
    while i < hints.len()
        invariant
            i <= hints.len(),
            all == hints_of(hints@),
            all.len() == hints@.len(),
            hints_of(groups@) == grouped(all.take(i as int)),
        decreases hints.len() - i,
    {
        let ghost before = hints_of(groups@);
        let ghost description = hints@[i as int].description@;
        assert(all.take(i + 1).drop_last() =~= all.take(i as int));
        assert(all.take(i + 1).last() == (hints@[i as int].keys@, description));
        let mut j: usize = 0;
        while j < groups.len() && !same_text(
            groups[j].description.as_str(),
            hints[i].description.as_str(),
        )
            invariant
                i < hints.len(),
                j <= groups.len(),
                before == hints_of(groups@),
                description == hints@[i as int].description@,
                forall|k: int| 0 <= k < j ==> !describes(description)(#[trigger] before[k]),
            decreases groups.len() - j,
        {
            assert(before[j as int] == (groups@[j as int].keys@, groups@[j as int].description@));
            j += 1;
        }
        proof {
            if j < groups.len() {
                assert(before[j as int] == (
                    groups@[j as int].keys@,
                    groups@[j as int].description@,
                ));
            }
            lemma_is_first(before, describes(description), j as int);
        }
        if j < groups.len() {
            let mut keys = groups[j].keys.clone();
            keys.append("/");
            keys.append(hints[i].keys.as_str());
            groups[j] = Hint { keys, description: hints[i].description.clone() };
        } else {
            groups.push(
                Hint {
                    keys: hints[i].keys.clone(),
                    description: hints[i].description.clone(),
                },
            );
        }
        assert(hints_of(groups@) =~= grouped(all.take(i + 1)));
        i += 1;
    }
    assert(all.take(i as int) =~= all);
    groups
}

fn row_of(hint: &Hint) -> (row: String)
    ensures
        row@ == hint_row((hint.keys@, hint.description@)),
{
    let lines = split_lines(hint.description.as_str());
    assert(texts(lines@).len() == lines@.len());
    let mut row = hint.keys.clone();
    row.append("  ");
    if lines.len() > 0 {
        assert(texts(lines@)[0] == lines@[0]@);
        row.append(lines[0].as_str());
    } else {
        row.append(hint.description.as_str());
    }
    row
}

impl App {
    /// Which hints are shown: those of registers while one is awaited, and no
    /// others in front of a prompt or a picker.
    pub open spec fn hinted(self) -> HintSource {
        if (self.prompt matches Some(prompt) && prompt.input.register_pending) || (
        self.picker.active matches Some(active) && active.view.register_pending) {
            HintSource::Registers
        } else if self.prompt is Some || self.picker.active is Some {
            HintSource::Nothing
        } else {
            HintSource::Keymap
        }
    }

    pub fn hint_source(&self) -> (source: HintSource)
        ensures
            source == self.hinted(),
    {
        let at_prompt = match &self.prompt {
            Some(prompt) => prompt.input.register_pending,
            None => false,
        };
        let in_picker = match &self.picker.active {
            Some(active) => active.view.register_pending,
            None => false,
        };
        if at_prompt || in_picker {
            HintSource::Registers
        } else if self.prompt.is_some() || self.picker.active.is_some() {
            HintSource::Nothing
        } else {
            HintSource::Keymap
        }
    }

    /// The box of hints on a screen of this size, where there is room. Keys
    /// that do the same stand together.
    pub fn paint_key_hints(size: (u16, u16), title: &str, hints: &Vec<Hint>) -> (shown: Option<
        HintBox,
    >)
        ensures
            ({
                let groups = grouped(hints_of(hints@));
                match hint_area(size, groups.len()) {
                    None => shown is None,
                    Some(area) => shown matches Some(shown) && {
                        &&& shown.area == area
                        &&& shown.title@ == " "@ + title@ + " · Esc cancel "@
                        &&& texts(shown.rows@) == Seq::new(
                            (if groups.len() < area.height - 2 {
                                groups.len() as int
                            } else {
                                area.height - 2
                            }) as nat,
                            |i: int| hint_row(groups[i]),
                        )
                    },
                }
            }),
    {
        let groups = group_hints(hints);
        let ghost all = hints_of(groups@);
        assert(all.len() == groups@.len());
        let width: u16 = if size.0 < MAX_WIDTH { size.0 } else { MAX_WIDTH };
        let bottom: u16 = if size.1 == 0 { 0 } else { size.1 - 1 };
        let fits = groups.len() < bottom as usize && groups.len() + 2 < bottom as usize;
        let height: u16 = if fits { (groups.len() + 2) as u16 } else { bottom };
        if width < 4 || height < 3 {
            return None;
        }
        let area = Rect { x: size.0 - width, y: bottom - height, width, height };
        let mut heading = " ".to_owned();
        heading.append(title);
        heading.append(" · Esc cancel ");
        let mut rows: Vec<String> = Vec::new();
        let limit: usize = (height - 2) as usize;
        let mut i: usize = 0;
        while i < groups.len() && i < limit
            invariant
                i <= groups.len(),
                i <= limit,
                all == hints_of(groups@),
                all.len() == groups@.len(),
                texts(rows@) == Seq::new(i as nat, |k: int| hint_row(all[k])),
            decreases groups.len() - i,
        {
            let row = row_of(&groups[i]);
            assert(all[i as int] == (groups@[i as int].keys@, groups@[i as int].description@));
            let ghost before = rows@;
            rows.push(row);
            assert(texts(rows@) =~= texts(before).push(row@));
            assert(texts(rows@) =~= Seq::new((i + 1) as nat, |k: int| hint_row(all[k])));
            i += 1;
        }
        Some(HintBox { area, title: heading, rows })
    }
}

/// No description is shown twice.
pub proof fn law_descriptions_are_not_repeated(hints: Seq<(Seq<char>, Seq<char>)>)
    ensures
        forall|i: int, j: int|
            0 <= i < j < grouped(hints).len() ==> (#[trigger] grouped(hints)[i]).1 != (
            #[trigger] grouped(hints)[j]).1,
    decreases hints.len(),
{
    if hints.len() > 0 {
        let before = grouped(hints.drop_last());
        law_descriptions_are_not_repeated(hints.drop_last());
        lemma_first_where(before, describes(hints.last().1));
        let at = first_where(before, describes(hints.last().1));
        if at >= before.len() {
            assert forall|i: int| 0 <= i < before.len() implies (#[trigger] before[i]).1
                != hints.last().1 by {
                assert(!describes(hints.last().1)(before[i]));
            }
        }
    }
}

/// The box stays on the screen, above the command line.
pub proof fn law_hints_stay_on_the_screen(size: (u16, u16), count: nat)
    ensures
        hint_area(size, count) matches Some(area) ==> {
            &&& area.x + area.width == size.0
            &&& area.y + area.height == size.1 - 1
            &&& area.height >= 3
        },
{
}

} // verus!
