//! Words, numbers and settings as they are typed.

use crate::app::{ActivePrompt, App, PromptKind};
use crate::completion::completion_configured;
use crate::editor::{SearchStatus, Time};
use crate::effect::Effect;
use crate::error::Error;
use crate::input::{prompt_followed, search_ended};
use crate::message::Message;
use crate::prompt::{of_register, recordable, Entry};
use crate::status_keys::{section_toggled, unbroken};
use crate::text::{
    decimal, digit, digit_value, digits_value, number_value, white_space, word_list, words_from,
    words_of,
};
use vstd::prelude::*;

verus! {

/// A number that was written reads back as the same number.
pub proof fn law_written_numbers_read_back(n: nat)
    ensures
        digits_value(decimal(n)) == Some(n),
        number_value(decimal(n)) == Some(n),
        decimal(n).len() > 0,
        decimal(n).len() > 1 ==> decimal(n)[0] != '0',
    decreases n,
{
    lemma_digit(n % 10);
    if n < 10 {
        lemma_digit(n);
        let one = decimal(n);
        assert(one.drop_last() =~= Seq::<char>::empty());
        assert(digits_value(one.drop_last()) == Some(0nat));
        assert(one.last() == digit(n));
    } else {
        law_written_numbers_read_back(n / 10);
        let all = decimal(n);
        assert(all.drop_last() =~= decimal(n / 10));
        assert(all.last() == digit(n % 10));
        assert(all[0] == decimal(n / 10)[0]);
        if decimal(n / 10).len() == 1 {
            lemma_first_digit(n / 10);
        }
    }
    lemma_no_sign(n);
}

proof fn lemma_digit(n: nat)
    requires
        n < 10,
    ensures
        digit_value(digit(n)) == Some(n),
        digit(n) != '+',
        n > 0 ==> digit(n) != '0',
{
}

proof fn lemma_first_digit(n: nat)
    requires
        n > 0,
    ensures
        decimal(n).len() > 0,
        decimal(n)[0] != '0',
    decreases n,
{
    if n < 10 {
        lemma_digit(n);
    } else {
        lemma_first_digit(n / 10);
    }
}

proof fn lemma_no_sign(n: nat)
    ensures
        decimal(n).len() > 0,
        decimal(n)[0] != '+',
    decreases n,
{
    if n < 10 {
        lemma_digit(n);
    } else {
        lemma_no_sign(n / 10);
    }
}

/// Texts one after the other.
pub open spec fn joined(parts: Seq<Seq<char>>) -> Seq<char>
    decreases parts.len(),
{
    if parts.len() == 0 { seq![] } else { parts[0] + joined(parts.drop_first()) }
}

/// What is left of a text without its white space.
pub open spec fn visible(text: Seq<char>) -> Seq<char>
    decreases text.len(),
{
    if text.len() == 0 {
        seq![]
    } else if white_space(text[0]) {
        visible(text.drop_first())
    } else {
        seq![text[0]] + visible(text.drop_first())
    }
}

/// The words of a text hold all of it but the white space, in order; none of them
/// is empty or holds any.
pub proof fn law_words_are_what_is_visible(text: Seq<char>, i: int, j: int)
    ensures
        joined(words_of(text)) == visible(text),
        0 <= i < words_of(text).len() ==> words_of(text)[i].len() > 0,
        0 <= i < words_of(text).len() && 0 <= j < words_of(text)[i].len() ==> !white_space(
            words_of(text)[i][j],
        ),
{
    lemma_words(text, seq![], i, j);
    assert(Seq::<char>::empty() + visible(text) =~= visible(text));
}

proof fn lemma_words(text: Seq<char>, current: Seq<char>, i: int, j: int)
    requires
        forall|k: int| 0 <= k < current.len() ==> !white_space(#[trigger] current[k]),
    ensures
        joined(words_from(text, current)) == current + visible(text),
        0 <= i < words_from(text, current).len() ==> words_from(text, current)[i].len() > 0,
        0 <= i < words_from(text, current).len() && 0 <= j < words_from(text, current)[i].len()
            ==> !white_space(words_from(text, current)[i][j]),
    decreases text.len(),
{
    let first = word_list(current);
    if text.len() == 0 {
        if current.len() > 0 {
            assert(first.drop_first() =~= Seq::<Seq<char>>::empty());
            assert(joined(first.drop_first()) =~= Seq::<char>::empty());
            assert(joined(first) =~= current);
        } else {
            assert(joined(first) =~= current);
        }
        assert(current + visible(text) =~= current);
    } else if white_space(text[0]) {
        let rest = words_from(text.drop_first(), seq![]);
        lemma_words(text.drop_first(), seq![], i - first.len(), j);
        assert(joined(rest) =~= visible(text.drop_first()));
        let all = first + rest;
        if current.len() > 0 {
            assert(all.drop_first() =~= rest);
            assert(all[0] == current);
        } else {
            assert(all =~= rest);
            assert(current + visible(text) =~= visible(text));
        }
    } else {
        lemma_words(text.drop_first(), current.push(text[0]), i, j);
        assert(current.push(text[0]) + visible(text.drop_first()) =~= current + visible(text));
    }
}

/// `on` and `off` turn automatic completion on and off, `delay` and `min-length`
/// set what they name to a number within their bounds; anything else is refused
/// and changes nothing. Each leaves the other settings alone.
pub proof fn law_completion_settings_are_what_they_name(
    before: App,
    argument: Seq<char>,
    after: App,
    asked: Seq<Effect>,
    asks: Seq<Effect>,
    result: Result<(), Error>,
)
    requires
        completion_configured(before, argument, after, asked, asks, result),
    ensures
        ({
            let words = words_of(argument);
            let old = before.completion.config;
            let new = after.completion.config;
            &&& result is Err ==> after == before && asks == asked && result->Err_0
                is AutoCompletionUsage
            &&& words.len() == 0 ==> result is Ok && new == old
            &&& words.len() == 1 && words[0] == "on"@ ==> result is Ok && new.enabled && new.delay
                == old.delay && new.min_length == old.min_length
            &&& words.len() == 1 && words[0] == "off"@ ==> result is Ok && !new.enabled && new.delay
                == old.delay && new.min_length == old.min_length
            &&& words.len() == 2 && words[0] == "delay"@ && (number_value(words[1]) matches Some(n)
                && n <= 10_000) ==> result is Ok && new.delay == number_value(words[1])->0
                && new.enabled == old.enabled && new.min_length == old.min_length
            &&& words.len() == 2 && words[0] == "min-length"@ && (
            number_value(words[1]) matches Some(n) && 1 <= n <= 256) ==> result is Ok
                && new.min_length == number_value(words[1])->0 && new.enabled == old.enabled
                && new.delay == old.delay
            &&& new.enabled != old.enabled ==> words.len() == 1
            &&& new.delay != old.delay ==> words.len() == 2 && words[0] == "delay"@
            &&& new.min_length != old.min_length ==> words.len() == 2 && words[0] == "min-length"@
            &&& words.len() > 2 ==> result is Err
            &&& result is Ok ==> (after.message matches Message::Completion {
                enabled,
                characters,
                milliseconds,
            } && enabled == new.enabled && characters == new.min_length && milliseconds
                == new.delay)
        }),
{
    reveal_strlit("on");
    reveal_strlit("off");
    reveal_strlit("delay");
    reveal_strlit("min-length");
    assert("on"@.len() == 2 && "off"@.len() == 3 && "delay"@.len() == 5);
    assert("min-length"@.len() == 10);
}

/// A search that was accepted with nothing typed goes back to where it began, one
/// that still runs keeps its prompt, and one that failed says why.
pub proof fn law_accepted_searches_end(
    before: App,
    prompt: ActivePrompt,
    empty: bool,
    outcome: Result<(), Error>,
    after: App,
)
    requires
        search_ended(before, prompt, empty, outcome, after),
        prompt.kind is Search,
    ensures
        outcome is Ok && empty ==> (prompt.kind matches PromptKind::Search { viewport, .. }
            && after.viewport == viewport),
        outcome is Ok && !empty ==> after.viewport == before.viewport,
        outcome is Ok && before.editor.search_pending ==> after.prompt == Some(prompt),
        outcome is Ok && !before.editor.search_pending ==> after.prompt == before.prompt,
        outcome matches Err(error) ==> after.error && after.message == (Message::Failed { error })
            && after.viewport == before.viewport,
        outcome is Err && before.editor.search_prompt is Some ==> after.prompt == Some(prompt),
        outcome is Err && before.editor.search_prompt is None ==> after.prompt == before.prompt,
{
}

/// What is typed at a search prompt is searched for from where the search began;
/// at other prompts nothing is searched for.
pub proof fn law_typing_at_a_search_searches(
    before: App,
    changed: bool,
    error: Option<Error>,
    after: App,
    asked: Seq<Effect>,
    asks: Seq<Effect>,
)
    requires
        prompt_followed(before, changed, error, after, asked, asks),
        before.prompt is Some,
    ensures
        ({
            let prompt = before.prompt->0;
            &&& changed && prompt.kind is Search ==> {
                &&& asks == asked.push(Effect::PreviewSearch(prompt.input.text))
                &&& prompt.kind matches PromptKind::Search { viewport, .. } && after.viewport
                    == viewport
            }
            &&& !(changed && prompt.kind is Search) ==> asks == asked && after.viewport
                == before.viewport
            &&& !changed && prompt.kind is Search && before.editor.search_status == Some(
                SearchStatus::NoMatch,
            ) ==> (after.message matches Message::Failed { error } && error is NoMatches)
            &&& !changed && error is Some && !(prompt.kind is Search) ==> after.message
                == (Message::Failed { error: error->0 })
            &&& after.prompt == before.prompt
        }),
{
    let prompt = before.prompt->0;
    assert(asked + seq![Effect::PreviewSearch(prompt.input.text)] =~= asked.push(
        Effect::PreviewSearch(prompt.input.text),
    ));
    assert(asked + Seq::<Effect>::empty() =~= asked);
}

/// Opening or closing a section reads the repository again where that is needed,
/// and only in a repository view.
pub proof fn law_sections_are_read_when_needed(
    before: App,
    outcome: Result<bool, Error>,
    time: Time,
    after: App,
    asked: Seq<Effect>,
    asks: Seq<Effect>,
    result: Result<(), Error>,
)
    requires
        section_toggled(before, outcome, time, after, asked, asks, result),
    ensures
        before.screen().git_view() is None ==> (result matches Err(error) && error is NoGitStatus
            && after == before),
        before.screen().git_view() is Some && outcome is Err ==> (result matches Err(error)
            && outcome == Err::<bool, Error>(error) && after == before),
        before.screen().git_view() is Some && outcome == Ok::<bool, Error>(false) ==> result is Ok
            && after == before && asks == asked,
        before.screen().git_view() is Some && outcome is Ok ==> result is Ok,
        after.editor == before.editor,
{
}

/// The line that a change was on is known by its text, whatever ends it.
pub proof fn law_lines_are_known_by_their_text(line: Seq<char>)
    ensures
        ({
            let bare = unbroken(line);
            &&& bare.len() <= line.len()
            &&& bare == line.take(bare.len() as int)
            &&& bare.len() > 0 ==> bare.last() != '\n' && bare.last() != '\r'
            &&& forall|i: int|
                bare.len() <= i < line.len() ==> (#[trigger] line[i]) == '\n' || line[i] == '\r'
        }),
    decreases line.len(),
{
    if line.len() > 0 && (line.last() == '\r' || line.last() == '\n') {
        let rest = line.drop_last();
        law_lines_are_known_by_their_text(rest);
        let bare = unbroken(rest);
        assert(bare =~= line.take(bare.len() as int));
        assert forall|i: int| bare.len() <= i < line.len() implies (#[trigger] line[i]) == '\n'
            || line[i] == '\r' by {
            if i < rest.len() {
                assert(rest[i] == line[i]);
            }
        }
    } else {
        assert(line.take(line.len() as int) =~= line);
    }
}

/// Only texts that are not empty, are kept short and differ from the newest of
/// their register are recorded.
pub proof fn law_repeated_texts_are_recorded_once(
    entries: Seq<Entry>,
    register: char,
    text: Seq<char>,
)
    requires
        recordable(entries, register, text),
    ensures
        text.len() > 0,
        of_register(entries, register).len() > 0 ==> of_register(entries, register).last() != text,
{
}

} // verus!
