//! Text as it takes up room on the screen.

use crate::text::{chars_of, text_between, texts};
use unicode_segmentation::UnicodeSegmentation;
use unicode_width::UnicodeWidthStr;
use vstd::prelude::*;
use vstd::string::StringExecFns;

verus! {

/// The columns that a text takes up, as `unicode_width` gives them.
pub uninterp spec fn display_width(text: Seq<char>) -> nat;

/// The extended grapheme clusters of a text, as `unicode_segmentation` gives
/// them.
pub uninterp spec fn grapheme_clusters(text: Seq<char>) -> Seq<Seq<char>>;

/// The columns that `text` takes up; stands for `UnicodeWidthStr::width`,
/// which is a function of the text alone.
#[verifier::external_body]
pub(crate) fn columns(text: &str) -> (columns: usize)
    ensures
        columns == display_width(text@),
{
    UnicodeWidthStr::width(text)
}

/// The texts of a list, one behind the other.
pub open spec fn joined(parts: Seq<Seq<char>>) -> Seq<char>
    decreases parts.len(),
{
    if parts.len() == 0 {
        seq![]
    } else {
        joined(parts.drop_last()) + parts.last()
    }
}

/// The extended grapheme clusters of `text`; stands for
/// `UnicodeSegmentation::graphemes`, which cuts the text between them, so that
/// they make up the text again.
#[verifier::external_body]
pub(crate) fn clusters(text: &str) -> (parts: Vec<String>)
    ensures
        texts(parts@) == grapheme_clusters(text@),
        joined(texts(parts@)) == text@,
{
    UnicodeSegmentation::graphemes(text, true).map(str::to_owned).collect()
}

/// A grapheme cluster with what is drawn for it.
#[derive(Debug)]
pub struct Cell {
    pub text: String,
    /// The cluster itself, or a visible stand-in for one that draws nothing.
    pub shown: String,
}

/// A grapheme cluster with the columns that it takes up.
#[derive(Debug)]
pub struct Measured {
    pub text: String,
    pub size: usize,
}

/// A grapheme cluster with the columns that it takes up.
pub struct Part {
    pub text: Seq<char>,
    pub size: nat,
}

impl Cell {
    /// The cluster with the columns that what is drawn for it takes up.
    pub open spec fn part(self) -> Part {
        Part { text: self.text@, size: display_width(self.shown@) }
    }
}

impl Measured {
    pub open spec fn part(self) -> Part {
        Part { text: self.text@, size: self.size as nat }
    }
}

/// The clusters of lines, with the columns that they take up.
pub open spec fn cell_parts(lines: Seq<Vec<Cell>>) -> Seq<Seq<Part>> {
    lines.map_values(|line: Vec<Cell>| line@.map_values(|cell: Cell| cell.part()))
}

/// The clusters of lines, with the columns that they take up.
pub open spec fn measured_parts(lines: Seq<Vec<Measured>>) -> Seq<Seq<Part>> {
    lines.map_values(|line: Vec<Measured>| line@.map_values(|part: Measured| part.part()))
}

/// The lines of a text: what stands before each line break, and what stands
/// behind the last one unless that is nothing. A carriage return before a line
/// feed belongs to the break.
pub open spec fn lines_of(text: Seq<char>) -> Seq<Seq<char>>
    decreases text.len(),
{
    match first_break(text) {
        Some(at) if 0 <= at < text.len() => seq![without_return(text.take(at))] + lines_of(
            text.skip(at + 1),
        ),
        _ => if text.len() == 0 { seq![] } else { seq![text] },
    }
}

/// Where the first line feed is.
pub open spec fn first_break(text: Seq<char>) -> Option<int>
    decreases text.len(),
{
    if text.len() == 0 {
        None
    } else if text[0] == '\n' {
        Some(0)
    } else {
        match first_break(text.drop_first()) {
            Some(at) => Some(at + 1),
            None => None,
        }
    }
}

/// A line without the carriage return at its end.
pub open spec fn without_return(line: Seq<char>) -> Seq<char> {
    if line.len() > 0 && line.last() == '\r' { line.drop_last() } else { line }
}

proof fn lemma_first_break(text: Seq<char>, at: int)
    requires
        0 <= at <= text.len(),
        forall|i: int| 0 <= i < at ==> text[i] != '\n',
        at < text.len() ==> text[at] == '\n',
    ensures
        first_break(text) == if at < text.len() { Some(at) } else { None::<int> },
    decreases text.len(),
{
    if text.len() > 0 && text[0] != '\n' {
        assert forall|i: int| 0 <= i < at - 1 implies text.drop_first()[i] != '\n' by {
            assert(text.drop_first()[i] == text[i + 1]);
        }
        lemma_first_break(text.drop_first(), at - 1);
    }
}

/// The lines of `text`.
pub fn split_lines(text: &str) -> (lines: Vec<String>)
    ensures
        texts(lines@) == lines_of(text@),
{
    let chars = chars_of(text);
    let mut lines: Vec<String> = Vec::new();
    let mut start: usize = 0;
    assert(chars@.skip(0) =~= chars@);
    assert(texts(lines@) =~= seq![]);
    assert(texts(lines@) + lines_of(chars@) =~= lines_of(chars@));
    while start < chars.len()
        invariant
            start <= chars.len(),
            texts(lines@) + lines_of(chars@.skip(start as int)) == lines_of(chars@),
        decreases chars.len() - start,
    {
        let ghost rest = chars@.skip(start as int);
        let mut end: usize = start;
        while end < chars.len() && chars[end] != '\n'
            invariant
                start <= end <= chars.len(),
                forall|i: int| start <= i < end ==> chars@[i] != '\n',
            decreases chars.len() - end,
        {
            end += 1;
        }
        proof {
            assert forall|i: int| 0 <= i < end - start implies rest[i] != '\n' by {
                assert(rest[i] == chars@[start + i]);
            }
            lemma_first_break(rest, end - start);
        }
        let ghost before = texts(lines@);
        let stop: usize = if end < chars.len() && end > start && chars[end - 1] == '\r' {
            end - 1
        } else {
            end
        };
        let line = text_between(chars.as_slice(), start, stop);
        proof {
            assert(rest.take(end - start) =~= chars@.subrange(start as int, end as int));
            if end < chars.len() {
                assert(line@ =~= without_return(rest.take(end - start)));
                assert(rest.skip(end - start + 1) =~= chars@.skip(end + 1));
            } else {
                assert(line@ =~= rest);
            }
        }
        lines.push(line);
        assert(texts(lines@) =~= before.push(line@));
        if end == chars.len() {
            start = end;
            assert(chars@.skip(start as int) =~= seq![]);
            assert(texts(lines@) + lines_of(chars@.skip(start as int)) =~= before + lines_of(rest));
        } else {
            start = end + 1;
            assert(texts(lines@) + lines_of(chars@.skip(start as int)) =~= before + lines_of(rest));
        }
    }
    assert(chars@.skip(start as int) =~= seq![]);
    assert(texts(lines@) =~= lines_of(chars@));
    lines
}

/// The grapheme clusters of each line of a text.
pub open spec fn clusters_by_line(text: Seq<char>) -> Seq<Seq<Seq<char>>> {
    lines_of(text).map_values(|line: Seq<char>| grapheme_clusters(line))
}

/// The grapheme clusters of each line of `text`, which [`split_lines`] gives, to
/// be drawn one by one.
pub fn line_clusters(text: &str) -> (lines: Vec<Vec<String>>)
    ensures
        lines@.map_values(|line: Vec<String>| texts(line@)) == clusters_by_line(text@),
{
    let all = split_lines(text);
    let mut lines: Vec<Vec<String>> = Vec::new();
    let mut i: usize = 0;
    while i < all.len()
        invariant
            i <= all.len(),
            texts(all@) == lines_of(text@),
            lines.len() == i,
            forall|j: int|
                0 <= j < i ==> texts((#[trigger] lines@[j])@) == grapheme_clusters(all@[j]@),
        decreases all.len() - i,
    {
        lines.push(clusters(all[i].as_str()));
        i += 1;
    }
    proof {
        let got = lines@.map_values(|line: Vec<String>| texts(line@));
        let want = clusters_by_line(text@);
        assert(texts(all@).len() == all@.len());
        assert forall|j: int| 0 <= j < got.len() implies got[j] == want[j] by {
            assert(texts(lines@[j]@) == grapheme_clusters(all@[j]@));
            assert(texts(all@)[j] == all@[j]@);
        }
        assert(got =~= want);
    }
    lines
}

/// The grapheme clusters of a label, to be drawn one by one.
pub fn label_clusters(label: &str) -> (parts: Vec<String>)
    ensures
        texts(parts@) == grapheme_clusters(label@),
        joined(texts(parts@)) == label@,
{
    clusters(label)
}

/// The columns that a list of drawn clusters takes up together.
pub open spec fn total_width(shown: Seq<String>) -> nat {
    total(shown.map_values(|part: String| display_width(part@)))
}

/// The sum of some widths.
pub open spec fn total(widths: Seq<nat>) -> nat
    decreases widths.len(),
{
    if widths.len() == 0 {
        0
    } else {
        total(widths.drop_last()) + widths.last()
    }
}

/// A width, or the greatest number there is.
pub open spec fn capped(width: nat) -> nat {
    if width <= usize::MAX { width } else { usize::MAX as nat }
}

/// The columns that clusters of these widths take up together, or the greatest
/// number there is.
pub fn total_columns(widths: &Vec<usize>) -> (width: usize)
    ensures
        width == capped(total(widths@.map_values(|size: usize| size as nat))),
{
    let mut width: usize = 0;
    let mut i: usize = 0;
    let ghost sizes = widths@.map_values(|size: usize| size as nat);
    while i < widths.len()
        invariant
            i <= widths.len(),
            sizes == widths@.map_values(|size: usize| size as nat),
            width == capped(total(sizes.take(i as int))),
        decreases widths.len() - i,
    {
        let size: usize = widths[i];
        width = if size <= usize::MAX - width { width + size } else { usize::MAX };
        assert(sizes.take(i + 1).drop_last() =~= sizes.take(i as int));
        assert(sizes.take(i + 1).last() == sizes[i as int]);
        i += 1;
    }
    assert(sizes.take(i as int) =~= sizes);
    width
}

/// The columns that the drawn clusters of a label take up, or the greatest
/// number there is.
pub fn label_columns(shown: &Vec<String>) -> (width: usize)
    ensures
        width == capped(total_width(shown@)),
{
    let mut widths: Vec<usize> = Vec::new();
    let mut i: usize = 0;
    while i < shown.len()
        invariant
            i <= shown.len(),
            widths.len() == i,
            forall|j: int| 0 <= j < i ==> #[trigger] widths@[j] == display_width(shown@[j]@),
        decreases shown.len() - i,
    {
        widths.push(columns(shown[i].as_str()));
        i += 1;
    }
    assert(widths@.map_values(|size: usize| size as nat) =~= shown@.map_values(
        |part: String| display_width(part@),
    ));
    total_columns(&widths)
}

/// The rows that the rest of a line fills, when `out` stands on the current
/// row and takes up `column` columns.
pub open spec fn filled(
    cells: Seq<Part>,
    width: nat,
    out: Seq<char>,
    column: nat,
) -> Seq<Seq<char>>
    decreases cells.len(),
{
    if cells.len() == 0 {
        seq![out]
    } else if column + cells[0].size > width {
        seq![out] + filled(cells.drop_first(), width, cells[0].text, cells[0].size)
    } else {
        filled(cells.drop_first(), width, out + cells[0].text, column + cells[0].size)
    }
}

/// The rows that the lines fill, however many there are.
pub open spec fn all_rows(lines: Seq<Seq<Part>>, width: nat) -> Seq<Seq<char>>
    decreases lines.len(),
{
    if lines.len() == 0 {
        seq![]
    } else {
        filled(lines[0], width, seq![], 0) + all_rows(lines.drop_first(), width)
    }
}

/// The first `limit` of the rows; one at least, where there is any.
pub open spec fn first_rows(rows: Seq<Seq<char>>, limit: nat) -> Seq<Seq<char>> {
    let count = if limit == 0 { 1 } else { limit };
    if rows.len() <= count { rows } else { rows.take(count as int) }
}

/// Breaks lines of measured clusters into rows of `width` columns, each as full
/// as it can be, and returns the first of them.
pub fn fill_rows(lines: &Vec<Vec<Measured>>, width: usize, rows: usize) -> (wrapped: Vec<String>)
    ensures
        texts(wrapped@) == first_rows(
            all_rows(measured_parts(lines@), width as nat),
            rows as nat,
        ),
{
    let ghost parts = measured_parts(lines@);
    let mut done: Vec<String> = Vec::new();
    let ghost all = all_rows(parts, width as nat);
    let mut i: usize = 0;
    assert(texts(done@) =~= seq![]);
    assert(parts.skip(0) =~= parts);
    assert(texts(done@) + all =~= all);
    while i < lines.len()
        invariant
            i <= lines.len(),
            parts == measured_parts(lines@),
            all == all_rows(parts, width as nat),
            texts(done@) + all_rows(parts.skip(i as int), width as nat) == all,
            i == 0 ==> done@.len() == 0,
            i > 0 ==> done@.len() < rows,
        decreases lines.len() - i,
    {
        let line = &lines[i];
        let ghost row = parts[i as int];
        assert(row == line@.map_values(|part: Measured| part.part()));
        let ghost later = all_rows(parts.skip(i + 1), width as nat);
        assert(parts.skip(i as int).drop_first() =~= parts.skip(i + 1));
        assert(parts.skip(i as int)[0] == row);
        let mut out = String::new();
        let mut column: usize = 0;
        let mut j: usize = 0;
        assert(row.skip(0) =~= row);
        assert(out@ =~= seq![]);
        assert(texts(done@) + (filled(row, width as nat, out@, 0) + later) =~= all);
        while j < line.len()
            invariant
                j <= line.len(),
                parts == measured_parts(lines@),
                row == line@.map_values(|part: Measured| part.part()),
                all == all_rows(parts, width as nat),
                texts(done@) + (filled(row.skip(j as int), width as nat, out@, column as nat)
                    + later) == all,
                done@.len() == 0 || done@.len() < rows,
            decreases line.len() - j,
        {
            let ghost rest = row.skip(j as int);
            assert(rest.drop_first() =~= row.skip(j + 1));
            assert(rest[0] == line@[j as int].part());
            let size: usize = line[j].size;
            if column > width || size > width - column {
                let ghost before = texts(done@);
                let ghost full = out@;
                done.push(out);
                assert(texts(done@) =~= before.push(full));
                proof {
                    let tail = filled(
                        rest.drop_first(),
                        width as nat,
                        rest[0].text,
                        rest[0].size,
                    ) + later;
                    assert(texts(done@) + tail =~= all) by {
                        assert(before + ((seq![full] + filled(
                            rest.drop_first(),
                            width as nat,
                            rest[0].text,
                            rest[0].size,
                        )) + later) =~= before.push(full) + tail);
                    }
                    if done@.len() >= rows {
                        assert(texts(done@) =~= first_rows(all, rows as nat));
                    }
                }
                if done.len() >= rows {
                    return done;
                }
                out = line[j].text.clone();
                column = size;
            } else {
                out.append(line[j].text.as_str());
                column += size;
            }
            j += 1;
        }
        assert(row.skip(j as int) =~= seq![]);
        let ghost before = texts(done@);
        let ghost full = out@;
        done.push(out);
        assert(texts(done@) =~= before.push(full));
        assert(before + (seq![full] + later) =~= before.push(full) + later);
        i += 1;
        if done.len() >= rows {
            assert(texts(done@) =~= first_rows(all, rows as nat));
            return done;
        }
    }
    assert(parts.skip(i as int) =~= seq![]);
    assert(texts(done@) =~= all);
    assert(texts(done@) =~= first_rows(all, rows as nat));
    done
}

/// Breaks lines into rows of `width` columns, each as full as it can be, and
/// returns the first of them.
pub fn wrap(lines: &Vec<Vec<Cell>>, width: usize, rows: usize) -> (wrapped: Vec<String>)
    ensures
        texts(wrapped@) == first_rows(all_rows(cell_parts(lines@), width as nat), rows as nat),
{
    let mut measured: Vec<Vec<Measured>> = Vec::new();
    let mut i: usize = 0;
    while i < lines.len()
        invariant
            i <= lines.len(),
            measured.len() == i,
            forall|k: int|
                0 <= k < i ==> measured_parts(measured@)[k] == #[trigger] cell_parts(lines@)[k],
        decreases lines.len() - i,
    {
        let line = measure(&lines[i]);
        let ghost before = measured@;
        measured.push(line);
        i += 1;
        proof {
            assert forall|k: int| 0 <= k < i implies measured_parts(measured@)[k]
                == #[trigger] cell_parts(lines@)[k] by {
                if k < i - 1 {
                    assert(measured_parts(before)[k] == cell_parts(lines@)[k]);
                    assert(measured@[k] == before[k]);
                }
            }
        }
    }
    assert(measured_parts(measured@) =~= cell_parts(lines@));
    fill_rows(&measured, width, rows)
}

/// The clusters of a line, with the columns that they take up.
fn measure(cells: &Vec<Cell>) -> (line: Vec<Measured>)
    ensures
        line@.map_values(|part: Measured| part.part()) == cells@.map_values(
            |cell: Cell| cell.part(),
        ),
{
    let mut line: Vec<Measured> = Vec::new();
    let mut i: usize = 0;
    while i < cells.len()
        invariant
            i <= cells.len(),
            line.len() == i,
            forall|k: int| 0 <= k < i ==> (#[trigger] line@[k]).part() == cells@[k].part(),
        decreases cells.len() - i,
    {
        let size: usize = columns(cells[i].shown.as_str());
        line.push(Measured { text: cells[i].text.clone(), size });
        i += 1;
    }
    assert(line@.map_values(|part: Measured| part.part()) =~= cells@.map_values(
        |cell: Cell| cell.part(),
    ));
    line
}

/// The text of a line's cells, one behind the other.
pub open spec fn line_text(cells: Seq<Part>) -> Seq<char>
    decreases cells.len(),
{
    if cells.len() == 0 {
        seq![]
    } else {
        cells[0].text + line_text(cells.drop_first())
    }
}

proof fn lemma_joined_first(parts: Seq<Seq<char>>)
    requires
        parts.len() > 0,
    ensures
        joined(parts) == parts[0] + joined(parts.drop_first()),
    decreases parts.len(),
{
    if parts.len() == 1 {
        assert(parts.drop_last() =~= seq![]);
        assert(parts.drop_first() =~= seq![]);
        assert(joined(parts) =~= parts[0] + joined(parts.drop_first()));
    } else {
        lemma_joined_first(parts.drop_last());
        assert(parts.drop_last().drop_first() =~= parts.drop_first().drop_last());
        assert(joined(parts) =~= parts[0] + joined(parts.drop_first()));
    }
}

/// Wrapping loses and adds nothing: the rows of a line make up its text.
pub proof fn law_wrapping_keeps_the_text(
    cells: Seq<Part>,
    width: nat,
    out: Seq<char>,
    column: nat,
)
    ensures
        joined(filled(cells, width, out, column)) == out + line_text(cells),
    decreases cells.len(),
{
    let rows = filled(cells, width, out, column);
    if cells.len() == 0 {
        lemma_joined_first(rows);
        assert(rows.drop_first() =~= seq![]);
        assert(joined(rows) =~= out + line_text(cells));
    } else if column + cells[0].size > width {
        law_wrapping_keeps_the_text(cells.drop_first(), width, cells[0].text, cells[0].size);
        lemma_joined_first(rows);
        assert(rows.drop_first() =~= filled(
            cells.drop_first(),
            width,
            cells[0].text,
            cells[0].size,
        ));
        assert(joined(rows) =~= out + line_text(cells));
    } else {
        law_wrapping_keeps_the_text(
            cells.drop_first(),
            width,
            out + cells[0].text,
            column + cells[0].size,
        );
        assert(joined(rows) =~= out + line_text(cells));
    }
}

/// The columns that cells take up, one behind the other.
pub open spec fn run_size(cells: Seq<Part>) -> nat
    decreases cells.len(),
{
    if cells.len() == 0 {
        0
    } else {
        run_size(cells.drop_last()) + cells.last().size
    }
}

/// The cells on each row that the rest of a line fills, when `run` stands on the
/// current row.
pub open spec fn runs(cells: Seq<Part>, width: nat, run: Seq<Part>) -> Seq<Seq<Part>>
    decreases cells.len(),
{
    if cells.len() == 0 {
        seq![run]
    } else if run_size(run) + cells[0].size > width {
        seq![run] + runs(cells.drop_first(), width, seq![cells[0]])
    } else {
        runs(cells.drop_first(), width, run.push(cells[0]))
    }
}

/// The texts of rows.
pub open spec fn row_texts(rows: Seq<Seq<Part>>) -> Seq<Seq<char>> {
    rows.map_values(|row: Seq<Part>| line_text(row))
}

proof fn lemma_line_text_push(cells: Seq<Part>, cell: Part)
    ensures
        line_text(cells.push(cell)) == line_text(cells) + cell.text,
    decreases cells.len(),
{
    let all = cells.push(cell);
    if cells.len() == 0 {
        reveal_with_fuel(line_text, 2);
        assert(all.drop_first() =~= seq![]);
        assert(line_text(all) =~= line_text(cells) + cell.text);
    } else {
        lemma_line_text_push(cells.drop_first(), cell);
        assert(all.drop_first() =~= cells.drop_first().push(cell));
        assert(line_text(all) =~= line_text(cells) + cell.text);
    }
}

proof fn lemma_runs(cells: Seq<Part>, width: nat, run: Seq<Part>)
    requires
        run_size(run) <= width,
        forall|i: int| 0 <= i < cells.len() ==> (#[trigger] cells[i]).size <= width,
    ensures
        row_texts(runs(cells, width, run)) == filled(cells, width, line_text(run), run_size(run)),
        forall|i: int|
            0 <= i < runs(cells, width, run).len() ==> run_size(
                #[trigger] runs(cells, width, run)[i],
            ) <= width,
    decreases cells.len(),
{
    let rows = runs(cells, width, run);
    if cells.len() == 0 {
        assert(row_texts(rows) =~= seq![line_text(run)]);
    } else {
        let rest = cells.drop_first();
        assert forall|i: int| 0 <= i < rest.len() implies (#[trigger] rest[i]).size <= width by {
            assert(rest[i] == cells[i + 1]);
        }
        let cell = cells[0];
        assert(cell.size <= width);
        if run_size(run) + cell.size > width {
            let one = seq![cell];
            reveal_with_fuel(line_text, 2);
            reveal_with_fuel(run_size, 2);
            assert(one.drop_last() =~= seq![]);
            assert(one.drop_first() =~= seq![]);
            assert(run_size(one) == cell.size);
            assert(line_text(one) =~= cell.text);
            lemma_runs(rest, width, one);
            let later = runs(rest, width, one);
            assert(row_texts(rows) =~= seq![line_text(run)] + row_texts(later));
            assert forall|i: int| 0 <= i < rows.len() implies run_size(#[trigger] rows[i])
                <= width by {
                if i > 0 {
                    assert(rows[i] == later[i - 1]);
                }
            }
        } else {
            let more = run.push(cell);
            assert(more.drop_last() =~= run);
            lemma_line_text_push(run, cell);
            lemma_runs(rest, width, more);
        }
    }
}

/// The rows of a line keep to their width, where none of its clusters is wider.
pub proof fn law_rows_keep_to_their_width(cells: Seq<Part>, width: nat)
    requires
        forall|i: int| 0 <= i < cells.len() ==> (#[trigger] cells[i]).size <= width,
    ensures
        row_texts(runs(cells, width, seq![])) == filled(cells, width, seq![], 0),
        forall|i: int|
            0 <= i < runs(cells, width, seq![]).len() ==> run_size(
                #[trigger] runs(cells, width, seq![])[i],
            ) <= width,
{
    lemma_runs(cells, width, seq![]);
}

} // verus!
