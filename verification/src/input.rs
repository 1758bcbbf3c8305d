//! From a line of console text to a validated choice: trimming,
//! lowercasing, and matching against the three labels.

use vstd::prelude::*;
use crate::choice::{Choice, lemma_names_distinct, name_of};
use crate::text::same_text;

verus! {

/// Whether `c` carries the Unicode property White_Space, the notion of
/// whitespace that `str::trim` strips.
pub uninterp spec fn is_white_space(c: char) -> bool;

/// The lowercase equivalent of `text` as `str::to_lowercase` of the standard
/// library computes it from the Unicode case mappings.
pub uninterp spec fn lowercase(text: Seq<char>) -> Seq<char>;

/// `text` without its leading whitespace.
pub open spec fn trimmed_start(text: Seq<char>) -> Seq<char>
    decreases text.len(),
{
    if text.len() > 0 && is_white_space(text.first()) {
        trimmed_start(text.drop_first())
    } else {
        text
    }
}

/// `text` without its trailing whitespace.
pub open spec fn trimmed_end(text: Seq<char>) -> Seq<char>
    decreases text.len(),
{
    if text.len() > 0 && is_white_space(text.last()) {
        trimmed_end(text.drop_last())
    } else {
        text
    }
}

/// `text` without its leading and trailing whitespace.
pub open spec fn trimmed(text: Seq<char>) -> Seq<char> {
    trimmed_end(trimmed_start(text))
}

/// The normal form of a line of input: surrounding whitespace removed, then
/// lowercased.
pub open spec fn normalized(raw: Seq<char>) -> Seq<char> {
    lowercase(trimmed(raw))
}

/// Trimming at the front leaves a suffix that does not start with
/// whitespace.
pub proof fn lemma_trimmed_start(text: Seq<char>)
    ensures
        trimmed_start(text).len() <= text.len(),
        trimmed_start(text) == text.subrange(
            text.len() - trimmed_start(text).len(),
            text.len() as int,
        ),
        forall|i: int|
            0 <= i < text.len() - trimmed_start(text).len() ==> is_white_space(#[trigger] text[i]),
        trimmed_start(text).len() > 0 ==> !is_white_space(trimmed_start(text).first()),
    decreases text.len(),
{
    if text.len() > 0 && is_white_space(text.first()) {
        let rest = text.drop_first();
        lemma_trimmed_start(rest);
        let kept = trimmed_start(rest);
        let cut = rest.len() - kept.len();
        assert(rest.subrange(cut, rest.len() as int) =~= text.subrange(cut + 1, text.len() as int));
        assert forall|i: int| 0 <= i < text.len() - kept.len() implies is_white_space(
            #[trigger] text[i],
        ) by {
            if i > 0 {
                assert(text[i] == rest[i - 1]);
            }
        }
    } else {
        assert(text.subrange(0, text.len() as int) =~= text);
    }
}

/// Trimming at the back leaves a prefix that does not end with whitespace.
pub proof fn lemma_trimmed_end(text: Seq<char>)
    ensures
        trimmed_end(text).len() <= text.len(),
        trimmed_end(text) == text.subrange(0, trimmed_end(text).len() as int),
        forall|i: int|
            trimmed_end(text).len() <= i < text.len() ==> is_white_space(#[trigger] text[i]),
        trimmed_end(text).len() > 0 ==> !is_white_space(trimmed_end(text).last()),
    decreases text.len(),
{
    if text.len() > 0 && is_white_space(text.last()) {
        let rest = text.drop_last();
        lemma_trimmed_end(rest);
        let kept = trimmed_end(rest);
        assert(rest.subrange(0, kept.len() as int) =~= text.subrange(0, kept.len() as int));
        assert forall|i: int| kept.len() <= i < text.len() implies is_white_space(
            #[trigger] text[i],
        ) by {
            if i < text.len() - 1 {
                assert(text[i] == rest[i]);
            }
        }
    } else {
        assert(text.subrange(0, text.len() as int) =~= text);
    }
}

/// What trimming leaves is a stretch of the text that neither starts nor
/// ends with whitespace, and all that it drops is whitespace.
pub proof fn lemma_trimmed(text: Seq<char>)
    ensures
        exists|from: int, to: int|
            0 <= from <= to <= text.len() && trimmed(text) == #[trigger] text.subrange(from, to)
                && (forall|i: int|
                (0 <= i < from || to <= i < text.len()) ==> is_white_space(#[trigger] text[i])),
        trimmed(text).len() > 0 ==> !is_white_space(trimmed(text).first()) && !is_white_space(
            trimmed(text).last(),
        ),
{
    lemma_trimmed_start(text);
    let front = trimmed_start(text);
    lemma_trimmed_end(front);
    let from = text.len() - front.len();
    let to = from + trimmed(text).len();
    assert(trimmed(text) =~= text.subrange(from, to));
    assert forall|i: int| (0 <= i < from || to <= i < text.len()) implies is_white_space(
        #[trigger] text[i],
    ) by {
        if i >= to {
            assert(text[i] == front[i - from]);
        }
    }
    if trimmed(text).len() > 0 {
        assert(trimmed(text).first() == front.first());
    }
}

/// A text that neither starts nor ends with whitespace is left as it is.
pub proof fn lemma_trimmed_keeps(text: Seq<char>)
    requires
        text.len() > 0 ==> !is_white_space(text.first()) && !is_white_space(text.last()),
    ensures
        trimmed(text) == text,
{
}

/// Trimming twice is trimming once.
pub proof fn lemma_trimmed_idempotent(text: Seq<char>)
    ensures
        trimmed(trimmed(text)) == trimmed(text),
{
    lemma_trimmed(text);
    lemma_trimmed_keeps(trimmed(text));
}

/// A text of whitespace alone, the empty text among them, trims to the
/// empty text.
pub proof fn lemma_trimmed_blank(text: Seq<char>)
    requires
        forall|i: int| 0 <= i < text.len() ==> is_white_space(#[trigger] text[i]),
    ensures
        trimmed(text).len() == 0,
{
    lemma_trimmed(text);
    if trimmed(text).len() > 0 {
        let (from, to) = choose|from: int, to: int|
            0 <= from <= to <= text.len() && trimmed(text) == #[trigger] text.subrange(from, to);
        assert(trimmed(text).first() == text[from]);
    }
}

/// Calls `str::trim` of the standard library, which returns the sub-slice
/// left after all leading and all trailing White_Space characters are
/// removed, so that what is left neither starts nor ends with one. Trusted,
/// not proved.
#[verifier::external_body]
fn trim(text: &str) -> (inner: &str)
    ensures
        inner@ == trimmed(text@),
        inner@.len() > 0 ==> !is_white_space(inner@.first()) && !is_white_space(inner@.last()),
{
    text.trim()
}

/// Calls `str::to_lowercase` of the standard library. The contract only
/// gives the result its name. Trusted, not proved.
#[verifier::external_body]
fn to_lowercase(text: &str) -> (lowered: String)
    ensures
        lowered@ == lowercase(text@),
{
    text.to_lowercase()
}

/// Brings a raw line of input into normal form: strips the surrounding
/// whitespace, the line terminator included, and lowercases the rest.
pub fn normalize_input(raw: &str) -> (text: String)
    ensures
        text@ == normalized(raw@),
{
    to_lowercase(trim(raw))
}

/// The choice that a normalized text names, if it names one.
pub open spec fn parsed(text: Seq<char>) -> Option<Choice> {
    if text == name_of(Choice::Rock) {
        Some(Choice::Rock)
    } else if text == name_of(Choice::Paper) {
        Some(Choice::Paper)
    } else if text == name_of(Choice::Scissors) {
        Some(Choice::Scissors)
    } else {
        None
    }
}

/// Validates a normalized text against the three labels. A text that is
/// none of them is an expected case and gives `None`.
pub fn parse_choice(normalized: &str) -> (choice: Option<Choice>)
    ensures
        choice == parsed(normalized@),
        forall|c: Choice| choice == Some(c) <==> normalized@ == name_of(c),
        choice is None <==> (normalized@ != "rock"@ && normalized@ != "paper"@ && normalized@
            != "scissors"@),
{
    proof {
        lemma_parsed_some_iff(normalized@);
    }
    if same_text(normalized, Choice::Rock.name()) {
        Some(Choice::Rock)
    } else if same_text(normalized, Choice::Paper.name()) {
        Some(Choice::Paper)
    } else if same_text(normalized, Choice::Scissors.name()) {
        Some(Choice::Scissors)
    } else {
        None
    }
}

/// A text is accepted as a choice exactly when it is that choice's label.
pub proof fn lemma_parsed_some_iff(text: Seq<char>)
    ensures
        forall|c: Choice| parsed(text) == Some(c) <==> text == name_of(c),
{
    assert forall|c: Choice| parsed(text) == Some(c) <==> text == name_of(c) by {
        lemma_names_distinct(c, Choice::Rock);
        lemma_names_distinct(c, Choice::Paper);
        lemma_names_distinct(c, Choice::Scissors);
    }
}

/// Parsing a label gives back the choice it belongs to.
pub proof fn lemma_parsed_name(choice: Choice)
    ensures
        parsed(name_of(choice)) == Some(choice),
{
    lemma_parsed_some_iff(name_of(choice));
}

/// Whatever is not one of the three labels is rejected.
pub proof fn lemma_parsed_none_iff(text: Seq<char>)
    ensures
        parsed(text) is None <==> (text != "rock"@ && text != "paper"@ && text != "scissors"@),
{
}

/// The empty text is rejected.
pub proof fn lemma_parsed_rejects_empty()
    ensures
        parsed(Seq::<char>::empty()) is None,
{
    lemma_parsed_rejects_length(Seq::<char>::empty());
}

/// A text whose length is that of no label is rejected.
pub proof fn lemma_parsed_rejects_length(text: Seq<char>)
    requires
        text.len() != 4 && text.len() != 5 && text.len() != 8,
    ensures
        parsed(text) is None,
{
    reveal_strlit("rock");
    reveal_strlit("paper");
    reveal_strlit("scissors");
}

/// A text that holds anything but the lowercase letters `a` to `z`, an
/// uppercase letter or a punctuation mark for one, is rejected.
pub proof fn lemma_parsed_rejects_foreign(text: Seq<char>, at: int)
    requires
        0 <= at < text.len(),
        !('a' <= text[at] <= 'z'),
    ensures
        parsed(text) is None,
{
    reveal_strlit("rock");
    reveal_strlit("paper");
    reveal_strlit("scissors");
}

/// A label followed by anything more is rejected.
pub proof fn lemma_parsed_rejects_longer(choice: Choice, more: Seq<char>)
    requires
        more.len() > 0,
    ensures
        parsed(name_of(choice) + more) is None,
{
    reveal_strlit("rock");
    reveal_strlit("paper");
    reveal_strlit("scissors");
    let text = name_of(choice) + more;
    assert(text[0] == name_of(choice)[0]);
    assert("rock"@[0] == 'r');
    assert("paper"@[0] == 'p');
    assert("scissors"@[0] == 's');
}

} // verus!
