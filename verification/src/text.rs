//! Small operations on text that the other modules share.

use vstd::prelude::*;
use vstd::utf8::encode_utf8;

verus! {

broadcast use vstd::string::group_string_axioms;

/// Appends one character to a string; stands for `String::push`.
pub assume_specification[ String::push ](text: &mut String, c: char)
    ensures
        final(text)@ == old(text)@.push(c),
;

/// Whether a character is a letter or a number, as `char::is_alphanumeric`
/// says.
pub uninterp spec fn alphanumeric(c: char) -> bool;

/// Whether a character is white space, that is, has the White_Space property of
/// Unicode.
pub open spec fn white_space(c: char) -> bool {
    ||| '\u{9}' <= c <= '\u{d}'
    ||| c == ' '
    ||| c == '\u{85}'
    ||| c == '\u{a0}'
    ||| c == '\u{1680}'
    ||| '\u{2000}' <= c <= '\u{200a}'
    ||| c == '\u{2028}'
    ||| c == '\u{2029}'
    ||| c == '\u{202f}'
    ||| c == '\u{205f}'
    ||| c == '\u{3000}'
}

/// Whether a character is a control code, that is, in the general category Cc
/// of Unicode.
pub open spec fn control_code(c: char) -> bool {
    c <= '\u{1f}' || '\u{7f}' <= c <= '\u{9f}'
}

/// `char::is_alphanumeric` depends on the character alone. In ASCII the digits
/// and the letters of both cases are alphanumeric, and nothing else is.
pub assume_specification[ char::is_alphanumeric ](c: char) -> (yes: bool)
    ensures
        yes == alphanumeric(c),
        c <= '\u{7f}' ==> yes == ('0' <= c <= '9' || 'A' <= c <= 'Z' || 'a' <= c <= 'z'),
;

/// `char::is_whitespace` says whether a character has the White_Space property.
pub assume_specification[ char::is_whitespace ](c: char) -> (yes: bool)
    ensures
        yes == white_space(c),
;

/// `char::is_control` says whether a character is in the general category Cc.
pub assume_specification[ char::is_control ](c: char) -> (yes: bool)
    ensures
        yes == control_code(c),
;

/// A text in lower case, as `str::to_lowercase` gives it.
pub uninterp spec fn lowercase(text: Seq<char>) -> Seq<char>;

/// `str::to_lowercase` depends on the text alone.
pub assume_specification[ str::to_lowercase ](text: &str) -> (lower: String)
    ensures
        lower@ == lowercase(text@),
;

/// The number of bytes that text takes up in UTF-8.
pub open spec fn byte_length(text: Seq<char>) -> nat {
    encode_utf8(text).len()
}

/// The number of bytes that `text` takes up in UTF-8.
pub fn bytes_in(text: &str) -> (bytes: usize)
    ensures
        bytes == byte_length(text@),
{
    text.as_bytes().len()
}

/// Whether two texts are equal.
pub fn same_text(a: &str, b: &str) -> (same: bool)
    ensures
        same == (a@ == b@),
{
    a.to_owned() == b.to_owned()
}

/// The characters of a text.
pub fn chars_of(text: &str) -> (chars: Vec<char>)
    ensures
        chars@ == text@,
{
    let mut chars = Vec::new();
    for c in it: text.chars()
        invariant
            it.seq() == text@,
            chars@ == text@.take(it.index()),
    {
        chars.push(c);
        assert(chars@ =~= text@.take(it.index() + 1));
    }
    assert(chars@ =~= text@);
    chars
}

/// The text made of characters `from..to`.
pub fn text_between(chars: &[char], from: usize, to: usize) -> (text: String)
    requires
        from <= to <= chars@.len(),
    ensures
        text@ == chars@.subrange(from as int, to as int),
{
    let mut text = String::new();
    let mut i: usize = from;
    assert(text@ =~= chars@.subrange(from as int, i as int));
    while i < to
        invariant
            from <= i <= to <= chars@.len(),
            text@ == chars@.subrange(from as int, i as int),
        decreases to - i,
    {
        text.push(chars[i]);
        i += 1;
        assert(text@ =~= chars@.subrange(from as int, i as int));
    }
    text
}

/// The decimal digits of a number, without leading zeros.
pub open spec fn decimal(n: nat) -> Seq<char>
    decreases n,
{
    if n < 10 {
        seq![digit(n)]
    } else {
        decimal(n / 10).push(digit(n % 10))
    }
}

/// The character for a number below ten.
pub open spec fn digit(n: nat) -> char {
    if n == 0 {
        '0'
    } else if n == 1 {
        '1'
    } else if n == 2 {
        '2'
    } else if n == 3 {
        '3'
    } else if n == 4 {
        '4'
    } else if n == 5 {
        '5'
    } else if n == 6 {
        '6'
    } else if n == 7 {
        '7'
    } else if n == 8 {
        '8'
    } else {
        '9'
    }
}

fn digit_of(n: u64) -> (c: char)
    requires
        n < 10,
    ensures
        c == digit(n as nat),
{
    if n == 0 {
        '0'
    } else if n == 1 {
        '1'
    } else if n == 2 {
        '2'
    } else if n == 3 {
        '3'
    } else if n == 4 {
        '4'
    } else if n == 5 {
        '5'
    } else if n == 6 {
        '6'
    } else if n == 7 {
        '7'
    } else if n == 8 {
        '8'
    } else {
        '9'
    }
}

/// The decimal digits of a number.
pub fn number(n: u64) -> (text: String)
    ensures
        text@ == decimal(n as nat),
    decreases n,
{
    if n < 10 {
        let mut text = String::new();
        text.push(digit_of(n));
        assert(text@ =~= decimal(n as nat));
        text
    } else {
        let mut text = number(n / 10);
        text.push(digit_of(n % 10));
        text
    }
}

/// A word as a list of one, or nothing where it is empty.
pub open spec fn word_list(word: Seq<char>) -> Seq<Seq<char>> {
    if word.len() > 0 { seq![word] } else { seq![] }
}

/// The words of a text that `current` stands in front of.
pub open spec fn words_from(text: Seq<char>, current: Seq<char>) -> Seq<Seq<char>>
    decreases text.len(),
{
    if text.len() == 0 {
        word_list(current)
    } else if white_space(text[0]) {
        word_list(current) + words_from(text.drop_first(), seq![])
    } else {
        words_from(text.drop_first(), current.push(text[0]))
    }
}

/// The words of a text: what white space separates.
pub open spec fn words_of(text: Seq<char>) -> Seq<Seq<char>> {
    words_from(text, seq![])
}

/// The texts that a list of strings holds.
pub open spec fn texts(strings: Seq<String>) -> Seq<Seq<char>> {
    strings.map_values(|string: String| string@)
}

/// The words of a text.
pub fn words(text: &str) -> (words: Vec<String>)
    ensures
        texts(words@) == words_of(text@),
{
    let chars = chars_of(text);
    let mut words: Vec<String> = Vec::new();
    let mut current = String::new();
    let mut i: usize = 0;
    assert(texts(words@) =~= seq![]);
    assert(chars@.skip(0) =~= chars@);
    assert(current@ =~= seq![]);
    assert(texts(words@) + words_from(chars@, current@) =~= words_of(chars@));
    while i < chars.len()
        invariant
            i <= chars.len(),
            texts(words@) + words_from(chars@.skip(i as int), current@) == words_of(chars@),
        decreases chars.len() - i,
    {
        let c = chars[i];
        let ghost rest = chars@.skip(i as int);
        assert(rest.drop_first() =~= chars@.skip(i + 1));
        assert(rest[0] == c);
        let ghost before = texts(words@);
        if c.is_whitespace() {
            let ghost word = current@;
            if !current.as_str().is_empty() {
                words.push(current);
                assert(texts(words@) =~= before.push(word));
            }
            current = String::new();
            assert(current@ =~= seq![]);
            assert(texts(words@) + words_from(chars@.skip(i + 1), current@) =~= before + (
            word_list(word) + words_from(chars@.skip(i + 1), seq![])));
        } else {
            current.push(c);
        }
        i += 1;
    }
    assert(chars@.skip(i as int) =~= seq![]);
    let ghost before = texts(words@);
    let ghost word = current@;
    if !current.as_str().is_empty() {
        words.push(current);
        assert(texts(words@) =~= before.push(word));
    }
    assert(texts(words@) =~= before + word_list(word));
    words
}

/// The number below ten that a digit stands for.
pub open spec fn digit_value(c: char) -> Option<nat> {
    if '0' <= c && c <= '9' { Some((c as u32 - '0' as u32) as nat) } else { None }
}

/// The number that a run of digits stands for.
pub open spec fn digits_value(digits: Seq<char>) -> Option<nat>
    decreases digits.len(),
{
    if digits.len() == 0 {
        Some(0)
    } else {
        match (digits_value(digits.drop_last()), digit_value(digits.last())) {
            (Some(front), Some(last)) => Some(10 * front + last),
            _ => None,
        }
    }
}

/// The number that a text stands for: digits, one at least, behind an optional
/// plus sign.
pub open spec fn number_value(text: Seq<char>) -> Option<nat> {
    let digits = if text.len() > 0 && text[0] == '+' { text.drop_first() } else { text };
    if digits.len() == 0 { None } else { digits_value(digits) }
}

proof fn lemma_digits_grow(digits: Seq<char>, n: int)
    requires
        0 <= n <= digits.len(),
    ensures
        digits_value(digits.take(n)) is None ==> digits_value(digits) is None,
        digits_value(digits) is Some ==> digits_value(digits.take(n)) is Some && digits_value(
            digits.take(n),
        )->0 <= digits_value(digits)->0,
    decreases digits.len(),
{
    if n == digits.len() {
        assert(digits.take(n) =~= digits);
    } else {
        lemma_digits_grow(digits.drop_last(), n);
        assert(digits.drop_last().take(n) =~= digits.take(n));
    }
}

/// The number that a text stands for, where it is no greater than `limit`.
pub fn parse_number(text: &str, limit: u64) -> (number: Option<u64>)
    requires
        limit <= 1_000_000,
    ensures
        number == match number_value(text@) {
            Some(value) => if value <= limit { Some(value as u64) } else { None },
            None => None,
        },
{
    let chars = chars_of(text);
    let start: usize = if chars.len() > 0 && chars[0] == '+' { 1 } else { 0 };
    let ghost digits = chars@.skip(start as int);
    assert(chars@.skip(0) =~= chars@);
    assert(start == 1 ==> digits =~= chars@.drop_first());
    if start == chars.len() {
        return None;
    }
    let mut value: u64 = 0;
    let mut i: usize = start;
    assert(digits.take(0) =~= seq![]);
    while i < chars.len()
        invariant
            start <= i <= chars.len(),
            limit <= 1_000_000,
            value <= limit,
            chars@ == text@,
            digits == chars@.skip(start as int),
            digits.len() > 0,
            number_value(text@) == digits_value(digits),
            digits_value(digits.take(i - start)) == Some(value as nat),
        decreases chars.len() - i,
    {
        let c = chars[i];
        proof {
            let longer = digits.take(i - start + 1);
            assert(longer.drop_last() =~= digits.take(i - start));
            assert(longer.last() == c);
            lemma_digits_grow(digits, i - start + 1);
        }
        if c < '0' || c > '9' {
            return None;
        }
        let next: u64 = 10 * value + (c as u32 - '0' as u32) as u64;
        if next > limit {
            return None;
        }
        value = next;
        i += 1;
    }
    assert(digits.take(i - start) =~= digits);
    Some(value)
}

/// What may be cut from the ends of a text.
#[derive(Clone, Copy, Debug, PartialEq, Eq, Structural)]
pub enum Trim {
    White,
    Quotes,
}

impl Trim {
    /// Whether a character is cut.
    pub open spec fn cuts(self, c: char) -> bool {
        match self {
            Trim::White => white_space(c),
            Trim::Quotes => c == '"' || c == '\'' || c == '`',
        }
    }

    fn cuts_char(self, c: char) -> (cuts: bool)
        ensures
            cuts == self.cuts(c),
    {
        match self {
            Trim::White => c.is_whitespace(),
            Trim::Quotes => c == '"' || c == '\'' || c == '`',
        }
    }
}

/// A text without what is cut from its front.
pub open spec fn cut_front(text: Seq<char>, trim: Trim) -> Seq<char>
    decreases text.len(),
{
    if text.len() > 0 && trim.cuts(text[0]) { cut_front(text.drop_first(), trim) } else { text }
}

/// A text without what is cut from its back.
pub open spec fn cut_back(text: Seq<char>, trim: Trim) -> Seq<char>
    decreases text.len(),
{
    if text.len() > 0 && trim.cuts(text.last()) { cut_back(text.drop_last(), trim) } else { text }
}

/// A text without what is cut from its ends.
pub open spec fn trimmed(text: Seq<char>, trim: Trim) -> Seq<char> {
    cut_back(cut_front(text, trim), trim)
}

/// The part of `from..to` that is left when its ends are cut.
pub fn trim_range(chars: &[char], from: usize, to: usize, trim: Trim) -> (range: (usize, usize))
    requires
        from <= to <= chars@.len(),
    ensures
        from <= range.0 <= range.1 <= to,
        chars@.subrange(range.0 as int, range.1 as int) == trimmed(
            chars@.subrange(from as int, to as int),
            trim,
        ),
{
    let ghost whole = chars@.subrange(from as int, to as int);
    let mut start: usize = from;
    while start < to && trim.cuts_char(chars[start])
        invariant
            from <= start <= to <= chars@.len(),
            cut_front(whole, trim) == cut_front(chars@.subrange(start as int, to as int), trim),
        decreases to - start,
    {
        assert(chars@.subrange(start as int, to as int).drop_first() =~= chars@.subrange(
            start + 1,
            to as int,
        ));
        start += 1;
    }
    let ghost front = chars@.subrange(start as int, to as int);
    assert(cut_front(whole, trim) == front);
    let mut end: usize = to;
    while end > start && trim.cuts_char(chars[end - 1])
        invariant
            from <= start <= end <= to <= chars@.len(),
            cut_back(front, trim) == cut_back(chars@.subrange(start as int, end as int), trim),
        decreases end - start,
    {
        assert(chars@.subrange(start as int, end as int).drop_last() =~= chars@.subrange(
            start as int,
            end - 1,
        ));
        end -= 1;
    }
    (start, end)
}

/// A text without white space at its ends.
pub fn trim_white(text: &str) -> (left: String)
    ensures
        left@ == trimmed(text@, Trim::White),
{
    let chars = chars_of(text);
    let (start, end) = trim_range(chars.as_slice(), 0, chars.len(), Trim::White);
    assert(chars@.subrange(0, chars@.len() as int) =~= chars@);
    text_between(chars.as_slice(), start, end)
}

/// Whether a text ends with another.
pub open spec fn has_suffix(text: Seq<char>, suffix: Seq<char>) -> bool {
    suffix.len() <= text.len() && text.skip(text.len() - suffix.len()) == suffix
}

/// Whether a text ends with another.
pub fn ends_with(text: &str, suffix: &str) -> (yes: bool)
    ensures
        yes == has_suffix(text@, suffix@),
{
    let chars = chars_of(text);
    let tail = chars_of(suffix);
    if tail.len() > chars.len() {
        return false;
    }
    let start: usize = chars.len() - tail.len();
    let mut i: usize = 0;
    while i < tail.len()
        invariant
            i <= tail.len(),
            start + tail.len() == chars.len(),
            chars@ == text@,
            tail@ == suffix@,
            forall|j: int| 0 <= j < i ==> chars@[start + j] == tail@[j],
        decreases tail.len() - i,
    {
        if chars[start + i] != tail[i] {
            assert(text@.skip(start as int)[i as int] != suffix@[i as int]);
            return false;
        }
        i += 1;
    }
    assert(text@.skip(start as int) =~= suffix@);
    true
}

} // verus!
