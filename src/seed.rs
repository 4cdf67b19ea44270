//! The seed phrase and its word-count rule.

use vstd::prelude::*;

verus! {

/// Number of words a seed phrase must have for a login to go ahead.
pub const SEED_WORDS: usize = 12;

/// The characters with the Unicode `White_Space` property.
pub open spec fn is_white_space(c: char) -> bool {
    ('\u{0009}' <= c && c <= '\u{000D}')
        || c == '\u{0020}'
        || c == '\u{0085}'
        || c == '\u{00A0}'
        || c == '\u{1680}'
        || ('\u{2000}' <= c && c <= '\u{200A}')
        || c == '\u{2028}'
        || c == '\u{2029}'
        || c == '\u{202F}'
        || c == '\u{205F}'
        || c == '\u{3000}'
}

/// Whether a word starts at position `i` of `s`: a character that is not
/// white space, at the start or right after white space.
pub open spec fn starts_word(s: Seq<char>, i: int) -> bool {
    &&& 0 <= i < s.len()
    &&& !is_white_space(s[i])
    &&& (i == 0 || is_white_space(s[i - 1]))
}

/// Number of words of `s`: maximal runs of characters that are not white space.
pub open spec fn word_count(s: Seq<char>) -> nat
    decreases s.len(),
{
    if s.len() == 0 {
        0
    } else {
        word_count(s.drop_last()) + if starts_word(s, s.len() - 1) { 1nat } else { 0nat }
    }
}

/// Relies on `char::is_whitespace`, documented to return true exactly for the
/// characters with the Unicode `White_Space` property.
#[verifier::external_body]
fn char_is_whitespace(c: char) -> (r: bool)
    ensures
        r == is_white_space(c),
{
    c.is_whitespace()
}

/// Whether `s` has exactly [`SEED_WORDS`] words, words being separated by runs
/// of white space.
pub fn has_seed_word_count(s: &str) -> (r: bool)
    ensures
        r == (word_count(s@) == SEED_WORDS),
{
    // The count stops one past the target: only equality with it matters.
    let mut count: usize = 0;
    let mut after_space: bool = true;
    let ghost mut seen: Seq<char> = Seq::empty();
    for c in it: s.chars()
        invariant
            it.seq() == s@,
            seen == s@.take(it.index() as int),
            after_space == (seen.len() == 0 || is_white_space(seen.last())),
            count == if word_count(seen) > SEED_WORDS { SEED_WORDS + 1 } else { word_count(seen) as int },
    {
        let space = char_is_whitespace(c);
        proof {
            let next = seen.push(c);
            assert(next.drop_last() == seen);
            seen = next;
        }
        if !space && after_space && count <= SEED_WORDS {
            count = count + 1;
        }
        after_space = space;
    }
    proof {
        assert(seen == s@);
    }
    count == SEED_WORDS
}

} // verus!
