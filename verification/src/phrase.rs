//! Searching a text for a fixed phrase, character by character.

use vstd::prelude::*;

verus! {

/// `phrase` stands in `text` at position `at`.
pub open spec fn occurs_at(text: Seq<char>, phrase: Seq<char>, at: int) -> bool {
    &&& 0 <= at
    &&& at + phrase.len() <= text.len()
    &&& text.subrange(at, at + phrase.len()) == phrase
}

/// `phrase` stands somewhere in `text`.
pub open spec fn occurs(text: Seq<char>, phrase: Seq<char>) -> bool {
    exists|at: int| occurs_at(text, phrase, at)
}

/// `at` is the leftmost position at which `phrase` stands in `text`.
pub open spec fn is_first_occurrence(text: Seq<char>, phrase: Seq<char>, at: int) -> bool {
    &&& occurs_at(text, phrase, at)
    &&& forall|earlier: int| 0 <= earlier < at ==> !occurs_at(text, phrase, earlier)
}

/// The leftmost position at which `phrase` stands in `text`, where it stands
/// there at all.
pub open spec fn first_occurrence(text: Seq<char>, phrase: Seq<char>) -> int {
    choose|at: int| is_first_occurrence(text, phrase, at)
}

/// A text has at most one leftmost occurrence of a phrase, and
/// `first_occurrence` names it.
pub proof fn lemma_first_occurrence_is_unique(text: Seq<char>, phrase: Seq<char>, at: int)
    requires
        is_first_occurrence(text, phrase, at),
    ensures
        first_occurrence(text, phrase) == at,
        occurs(text, phrase),
{
    let chosen = first_occurrence(text, phrase);
    assert(is_first_occurrence(text, phrase, chosen));
    if chosen < at {
        assert(!occurs_at(text, phrase, chosen));
    } else if at < chosen {
        assert(!occurs_at(text, phrase, at));
    }
}

/// The characters of a string slice, one by one.
pub fn chars_of(text: &str) -> (chars: Vec<char>)
    ensures
        chars@ == text@,
{
    let mut chars: Vec<char> = Vec::new();
    for c in it: text.chars()
        invariant
            chars@ == it.seq().take(it.index()),
            it.seq() == text@,
    {
        chars.push(c);
    }
    chars
}

/// Whether `phrase` stands in `text` at position `at`.
pub fn stands_at(text: &[char], phrase: &[char], at: usize) -> (stands: bool)
    ensures
        stands == occurs_at(text@, phrase@, at as int),
{
    if at > text.len() || phrase.len() > text.len() - at {
        return false;
    }
    let mut k: usize = 0;
    while k < phrase.len()
        invariant
            k <= phrase@.len(),
            at + phrase@.len() <= text@.len() == text.len(),
            forall|j: int| 0 <= j < k ==> text@[at + j] == phrase@[j],
        decreases phrase@.len() - k,
    {
        if text[at + k] != phrase[k] {
            assert(text@.subrange(at as int, at + phrase@.len())[k as int] != phrase@[k as int]);
            return false;
        }
        k += 1;
    }
    assert(text@.subrange(at as int, at + phrase@.len()) =~= phrase@);
    true
}

/// The leftmost position at which `phrase` stands in `text`, or `None` where it
/// stands nowhere.
pub fn find_phrase(text: &[char], phrase: &[char]) -> (found: Option<usize>)
    ensures
        match found {
            Some(at) => is_first_occurrence(text@, phrase@, at as int),
            None => !occurs(text@, phrase@),
        },
{
    if phrase.len() > text.len() {
        return None;
    }
    let last: usize = text.len() - phrase.len();
    let mut at: usize = 0;
    loop
        invariant
            phrase@.len() <= text@.len(),
            last == text@.len() - phrase@.len(),
            at <= last,
            forall|earlier: int| 0 <= earlier < at ==> !occurs_at(text@, phrase@, earlier),
        decreases last - at,
    {
        if stands_at(text, phrase, at) {
            return Some(at);
        }
        if at == last {
            return None;
        }
        at += 1;
    }
}

/// Whether `phrase` stands somewhere in `text`.
pub fn contains_phrase(text: &str, phrase: &str) -> (found: bool)
    ensures
        found == occurs(text@, phrase@),
{
    let text_chars = chars_of(text);
    let phrase_chars = chars_of(phrase);
    let found = find_phrase(text_chars.as_slice(), phrase_chars.as_slice());
    proof {
        if let Some(at) = found {
            assert(occurs_at(text@, phrase@, at as int));
        }
    }
    found.is_some()
}

} // verus!
