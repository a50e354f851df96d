//! File names under the selections.

use crate::editor::FileId;
use crate::error::Error;
use crate::layout::MAX_WINDOWS;
use crate::selection::Selection;
use crate::text::{text_between, trim_range, trimmed, white_space, Trim};
use vstd::prelude::*;

verus! {

/// A longer name is not looked for.
pub const MAX_NAME: usize = 4096;

/// Whether a character ends a name.
pub open spec fn delimits(c: char) -> bool {
    ||| white_space(c)
    ||| c == '"'
    ||| c == '\''
    ||| c == '`'
    ||| c == '<'
    ||| c == '>'
    ||| c == '('
    ||| c == ')'
    ||| c == '['
    ||| c == ']'
    ||| c == '{'
    ||| c == '}'
}

fn delimiter(c: char) -> (yes: bool)
    ensures
        yes == delimits(c),
{
    c.is_whitespace() || c == '"' || c == '\'' || c == '`' || c == '<' || c == '>' || c == '('
        || c == ')' || c == '[' || c == ']' || c == '{' || c == '}'
}

/// Where the name that reaches to `end` begins.
pub open spec fn name_start(text: Seq<char>, start: int, end: int) -> int
    decreases start,
{
    if start > 0 && !delimits(text[start - 1]) && end - start <= MAX_NAME {
        name_start(text, start - 1, end)
    } else {
        start
    }
}

/// Where the name that begins at `start` ends.
pub open spec fn name_end(text: Seq<char>, start: int, end: int) -> int
    decreases text.len() - end,
{
    if end < text.len() && !delimits(text[end]) && end - start <= MAX_NAME {
        name_end(text, start, end + 1)
    } else {
        end
    }
}

/// The range of a name: the selection itself, or, where that is no more than a
/// cursor, the name around it.
pub open spec fn name_range(text: Seq<char>, selection: Selection) -> (int, int) {
    let start = selection.spec_start() as int;
    let end = selection.spec_end() as int;
    if end - start <= 1 {
        let from = name_start(text, start, end);
        (from, name_end(text, from, end))
    } else {
        (start, end)
    }
}

/// The name in a range: without white space and then without quotes around it.
pub open spec fn name_in(text: Seq<char>, range: (int, int)) -> Seq<char> {
    trimmed(trimmed(text.subrange(range.0, range.1), Trim::White), Trim::Quotes)
}

/// The file name that a selection stands for.
pub fn selected_name(text: &[char], selection: Selection) -> (name: Result<String, Error>)
    requires
        selection.spec_end() <= text@.len(),
        text@.len() <= usize::MAX,
    ensures
        ({
            let range = name_range(text@, selection);
            match name {
                Ok(name) => {
                    &&& range.1 - range.0 <= MAX_NAME
                    &&& name@ == name_in(text@, range)
                    &&& name@.len() > 0
                },
                Err(error) => if range.1 - range.0 > MAX_NAME {
                    error == Error::NameTooLong
                } else {
                    error == Error::NoName && name_in(text@, range).len() == 0
                },
            }
        }),
{
    let mut start: usize = selection.start();
    let mut end: usize = selection.end();
    let ghost first = start as int;
    let ghost last = end as int;
    if end - start <= 1 {
        while start > 0 && !delimiter(text[start - 1]) && end - start <= MAX_NAME
            invariant
                start <= end <= text@.len(),
                name_start(text@, first, end as int) == name_start(
                    text@,
                    start as int,
                    end as int,
                ),
            decreases start,
        {
            start -= 1;
        }
        let ghost from = start as int;
        while end < text.len() && !delimiter(text[end]) && end - start <= MAX_NAME
            invariant
                start <= end <= text@.len(),
                start == from,
                name_end(text@, from, last) == name_end(text@, from, end as int),
            decreases text.len() - end,
        {
            end += 1;
        }
    }
    if end - start > MAX_NAME {
        return Err(Error::NameTooLong);
    }
    let (from, to) = trim_range(text, start, end, Trim::White);
    let (from, to) = trim_range(text, from, to, Trim::Quotes);
    if from == to {
        assert(text@.subrange(from as int, to as int).len() == 0);
        return Err(Error::NoName);
    }
    Ok(text_between(text, from, to))
}

/// The files that names stand for, each once, or why there are none. Behind
/// the greatest number of windows no more names are looked at.
pub open spec fn distinct_files(
    found: Seq<Result<FileId, Error>>,
    picked: Seq<FileId>,
) -> Result<Seq<FileId>, Error>
    decreases found.len(),
{
    if found.len() == 0 {
        Ok(picked)
    } else if picked.len() >= MAX_WINDOWS {
        Err(Error::TooManyNames)
    } else {
        match found[0] {
            Err(error) => Err(error),
            Ok(file) => distinct_files(
                found.drop_first(),
                if picked.contains(file) { picked } else { picked.push(file) },
            ),
        }
    }
}

fn picks(picked: &Vec<FileId>, file: FileId) -> (found: bool)
    ensures
        found == picked@.contains(file),
{
    let mut i: usize = 0;
    while i < picked.len()
        invariant
            i <= picked.len(),
            forall|j: int| 0 <= j < i ==> picked@[j] != file,
        decreases picked.len() - i,
    {
        if picked[i] == file {
            return true;
        }
        i += 1;
    }
    false
}

/// The files that the names of the selections stand for. `found` holds, for
/// each selection, the file that its name stands for, or why it has none.
pub fn selected_paths(found: Vec<Result<FileId, Error>>) -> (paths: Result<Vec<FileId>, Error>)
    ensures
        match (paths, distinct_files(found@, seq![])) {
            (Ok(paths), Ok(files)) => paths@ == files,
            (Err(error), Err(reason)) => error == reason,
            _ => false,
        },
{
    let ghost all = found@;
    let mut rest = found;
    let mut picked: Vec<FileId> = Vec::new();
    assert(picked@ =~= seq![]);
    while rest.len() > 0
        invariant
            all == found@,
            distinct_files(rest@, picked@) == distinct_files(all, seq![]),
        decreases rest.len(),
    {
        if picked.len() >= MAX_WINDOWS {
            return Err(Error::TooManyNames);
        }
        let ghost before = rest@;
        match rest.remove(0) {
            Err(error) => {
                return Err(error);
            },
            Ok(file) => {
                assert(rest@ =~= before.drop_first());
                if !picks(&picked, file) {
                    picked.push(file);
                }
            },
        }
    }
    Ok(picked)
}

/// No file is opened twice, and no more than there can be windows.
pub proof fn law_selected_files_are_distinct(
    found: Seq<Result<FileId, Error>>,
    picked: Seq<FileId>,
)
    requires
        picked.no_duplicates(),
        picked.len() <= MAX_WINDOWS,
    ensures
        distinct_files(found, picked) matches Ok(files) ==> files.no_duplicates() && files.len()
            <= MAX_WINDOWS,
    decreases found.len(),
{
    if found.len() > 0 && picked.len() < MAX_WINDOWS {
        match found[0] {
            Ok(file) => {
                law_selected_files_are_distinct(
                    found.drop_first(),
                    if picked.contains(file) { picked } else { picked.push(file) },
                );
            },
            Err(_) => {},
        }
    }
}

} // verus!
