//! Texts as sequences of characters: lower case, prefixes, suffixes and
//! words inside a text.

use vstd::prelude::*;
use vstd::std_specs::iter::IteratorSpec;
use vstd::string::*;

verus! {

/// The lower-case form of a text, as Unicode defines it.
pub uninterp spec fn lowercase(text: Seq<char>) -> Seq<char>;

/// `str::to_lowercase`: the lower-case form of a text.
#[verifier::external_body]
pub(crate) fn to_lowercase(text: &str) -> (lower: String)
    ensures
        lower@ == lowercase(text@),
{
    text.to_lowercase()
}

/// True when `word` stands in `text` at position `at`.
pub open spec fn occurs_at(text: Seq<char>, word: Seq<char>, at: int) -> bool {
    0 <= at && at + word.len() <= text.len() && text.subrange(at, at + word.len()) == word
}

/// True when `text` begins with `word`.
pub open spec fn starts_with(text: Seq<char>, word: Seq<char>) -> bool {
    occurs_at(text, word, 0)
}

/// True when `text` ends with `word`.
pub open spec fn ends_with(text: Seq<char>, word: Seq<char>) -> bool {
    occurs_at(text, word, text.len() - word.len())
}

/// True when `word` stands somewhere in `text`.
pub open spec fn contains(text: Seq<char>, word: Seq<char>) -> bool {
    exists|at: int| occurs_at(text, word, at)
}

/// The characters of a text.
pub fn chars_of(text: &str) -> (chars: Vec<char>)
    ensures
        chars@ == text@,
{
    let mut chars: Vec<char> = Vec::new();
    let source = text.chars();
    for c in it: source
        invariant
            it.seq() == text@,
            chars@ == it.seq().subrange(0, it.index()),
    {
        chars.push(c);
    }
    assert(chars@ =~= text@);
    chars
}

/// Tells whether `word` stands in `text` at position `at`.
pub fn has_at(text: &[char], word: &[char], at: usize) -> (yes: bool)
    ensures
        yes == occurs_at(text@, word@, at as int),
{
    if at > text.len() || word.len() > text.len() - at {
        return false;
    }
    let mut i: usize = 0;
    while i < word.len()
        invariant
            i <= word.len(),
            at + word.len() <= text.len(),
            text@.subrange(at as int, at + i) == word@.subrange(0, i as int),
        decreases word.len() - i,
    {
        if text[at + i] != word[i] {
            assert(text@.subrange(at as int, at + word.len())[i as int] != word@[i as int]);
            return false;
        }
        i = i + 1;
        assert(text@.subrange(at as int, at + i) =~= text@.subrange(at as int, at + i - 1).push(
            text@[at + i - 1],
        ));
        assert(word@.subrange(0, i as int) =~= word@.subrange(0, i - 1).push(word@[i - 1]));
    }
    assert(word@.subrange(0, i as int) =~= word@);
    true
}

/// Tells whether `text` begins with `word`.
pub fn has_prefix(text: &[char], word: &[char]) -> (yes: bool)
    ensures
        yes == starts_with(text@, word@),
{
    has_at(text, word, 0)
}

/// Tells whether `text` ends with `word`.
pub fn has_suffix(text: &[char], word: &[char]) -> (yes: bool)
    ensures
        yes == ends_with(text@, word@),
{
    if word.len() > text.len() {
        return false;
    }
    has_at(text, word, text.len() - word.len())
}

/// Tells whether `word` stands somewhere in `text`.
pub fn has_word(text: &[char], word: &[char]) -> (yes: bool)
    ensures
        yes == contains(text@, word@),
{
    if word.len() > text.len() {
        return false;
    }
    let last: usize = text.len() - word.len();
    let mut at: usize = 0;
    while at < last
        invariant
            at <= last,
            last == text.len() - word.len(),
            forall|earlier: int| 0 <= earlier < at ==> !occurs_at(text@, word@, earlier),
        decreases last - at,
    {
        if has_at(text, word, at) {
            return true;
        }
        at = at + 1;
    }
    has_at(text, word, last)
}

} // verus!
