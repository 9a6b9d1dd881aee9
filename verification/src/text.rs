//! Text as a sequence of characters: where a character first occurs in it,
//! and two operations of the standard library on it.

use vstd::prelude::*;

verus! {

/// The place of the first `c` in `text`, or the length of `text` where it holds none.
pub open spec fn first_index(text: Seq<char>, c: char) -> int
    decreases text.len(),
{
    if text.len() == 0 {
        0
    } else if text[0] == c {
        0
    } else {
        1 + first_index(text.drop_first(), c)
    }
}

/// Calls `String::push`. The contract claims what its documentation says: the
/// character is appended to the end of the text.
#[verifier::external_body]
pub(crate) fn push_char(text: &mut String, c: char)
    ensures
        final(text)@ == old(text)@.push(c),
{
    text.push(c)
}

/// Calls `str::split_once` with a character as the delimiter. The contract
/// claims what its documentation says: the text is split at the first
/// occurrence of the delimiter, into what stands before it and what stands
/// after it, and there is no result where the delimiter does not occur.
#[verifier::external_body]
pub(crate) fn split_once(text: &str, delimiter: char) -> (parts: Option<(&str, &str)>)
    ensures
        match parts {
            Some((before, after)) => {
                &&& text@ == before@ + seq![delimiter] + after@
                &&& !before@.contains(delimiter)
            },
            None => !text@.contains(delimiter),
        },
{
    text.split_once(delimiter)
}

/// `first_index` lies within the text, no `c` stands before it, and where it
/// is not the length of the text a `c` stands there.
pub proof fn lemma_first_index(text: Seq<char>, c: char)
    ensures
        0 <= first_index(text, c) <= text.len(),
        first_index(text, c) < text.len() ==> text[first_index(text, c)] == c,
        forall|i: int| 0 <= i < first_index(text, c) ==> #[trigger] text[i] != c,
    decreases text.len(),
{
    if text.len() > 0 && text[0] != c {
        let rest = text.drop_first();
        lemma_first_index(rest, c);
        assert forall|i: int| 0 <= i < first_index(text, c) implies #[trigger] text[i] != c by {
            if i > 0 {
                assert(text[i] == rest[i - 1]);
            }
        }
    }
}

/// In a text whose first `n` characters are not `c` and whose next one, if
/// there is one, is `c`, the first `c` stands at `n`.
pub proof fn lemma_first_index_at(text: Seq<char>, c: char, n: int)
    requires
        0 <= n <= text.len(),
        forall|i: int| 0 <= i < n ==> #[trigger] text[i] != c,
        n < text.len() ==> text[n] == c,
    ensures
        first_index(text, c) == n,
{
    lemma_first_index(text, c);
    let found = first_index(text, c);
    if found < n {
        assert(text[found] == c);
    }
    if n < found {
        assert(text[n] == c);
    }
}

/// A text that is split at a `c` with none before it has its first `c` there;
/// a text without `c` has none.
pub proof fn lemma_first_index_split(text: Seq<char>, c: char, before: Seq<char>, after: Seq<char>)
    requires
        text == before + seq![c] + after,
        !before.contains(c),
    ensures
        first_index(text, c) == before.len(),
        text.take(before.len() as int) == before,
        text.skip(before.len() as int) == seq![c] + after,
{
    assert forall|i: int| 0 <= i < before.len() implies #[trigger] text[i] != c by {
        assert(text[i] == before[i]);
        assert(before.contains(before[i]));
    }
    assert(text[before.len() as int] == c);
    lemma_first_index_at(text, c, before.len() as int);
}

/// A text that holds no `c` has its `first_index` at its end.
pub proof fn lemma_first_index_none(text: Seq<char>, c: char)
    requires
        !text.contains(c),
    ensures
        first_index(text, c) == text.len(),
        text.take(text.len() as int) == text,
        text.skip(text.len() as int) == Seq::<char>::empty(),
{
    lemma_first_index(text, c);
    if first_index(text, c) < text.len() {
        assert(text.contains(text[first_index(text, c)]));
    }
}

} // verus!
