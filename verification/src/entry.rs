//! Finding the BibTeX entry in the body of a reply.
//!
//! The endpoint answers with some lines of preamble and then the entry,
//! which begins at the first `@` that directly follows a newline. A body
//! without such a place holds no entry.

use vstd::prelude::*;
use vstd::string::*;

verus! {

/// Whether the delimiter, a newline directly followed by `@`, stands at
/// position `i` of `body`.
pub open spec fn delimiter_at(body: Seq<char>, i: int) -> bool {
    &&& 0 <= i
    &&& i + 1 < body.len()
    &&& body[i] == '\n'
    &&& body[i + 1] == '@'
}

/// Whether the delimiter stands anywhere in `body`.
pub open spec fn has_delimiter(body: Seq<char>) -> bool {
    exists|i: int| delimiter_at(body, i)
}

/// Whether position `i` is where the delimiter stands first in `body`.
pub open spec fn first_delimiter(body: Seq<char>, i: int) -> bool {
    &&& delimiter_at(body, i)
    &&& forall|j: int| 0 <= j < i ==> !delimiter_at(body, j)
}

/// The entry that `body` holds: everything from the `@` of the first
/// delimiter to the end, the `@` included; `None` where `body` has no
/// delimiter.
pub open spec fn entry_of(body: Seq<char>) -> Option<Seq<char>> {
    if has_delimiter(body) {
        let i = choose|i: int| first_delimiter(body, i);
        Some(body.subrange(i + 1, body.len() as int))
    } else {
        None
    }
}

/// The first delimiter is at one place only.
pub proof fn lemma_first_delimiter_unique(body: Seq<char>, i: int, j: int)
    requires
        first_delimiter(body, i),
        first_delimiter(body, j),
    ensures
        i == j,
{
}

/// A body with a delimiter has a first one.
pub proof fn lemma_first_delimiter_exists(body: Seq<char>, i: int)
    requires
        delimiter_at(body, i),
    ensures
        exists|k: int| 0 <= k <= i && first_delimiter(body, k),
    decreases i,
{
    if exists|j: int| 0 <= j < i && delimiter_at(body, j) {
        let j = choose|j: int| 0 <= j < i && delimiter_at(body, j);
        lemma_first_delimiter_exists(body, j);
    } else {
        assert(first_delimiter(body, i));
    }
}

/// Where the first delimiter stands at `i`, the entry is the rest of the
/// body from position `i + 1`.
pub proof fn lemma_entry_at(body: Seq<char>, i: int)
    requires
        first_delimiter(body, i),
    ensures
        entry_of(body) == Some(body.subrange(i + 1, body.len() as int)),
{
    assert(has_delimiter(body));
    let k = choose|k: int| first_delimiter(body, k);
    lemma_first_delimiter_unique(body, i, k);
}

/// A body made of a preamble without delimiter, then the delimiter, then
/// any text, holds the entry that begins at the `@` of that delimiter,
/// whatever the text holds.
pub proof fn lemma_entry_after_preamble(preamble: Seq<char>, rest: Seq<char>)
    requires
        !has_delimiter(preamble),
    ensures
        entry_of(preamble + seq!['\n', '@'] + rest) == Some(seq!['@'] + rest),
{
    let body = preamble + seq!['\n', '@'] + rest;
    let at = preamble.len() as int;
    assert(delimiter_at(body, at));
    assert forall|j: int| 0 <= j < at implies !delimiter_at(body, j) by {
        if j + 1 < at {
            assert(!delimiter_at(preamble, j));
        }
    }
    lemma_entry_at(body, at);
    assert(body.subrange(at + 1, body.len() as int) =~= seq!['@'] + rest);
}

/// An entry begins with `@` and is the end of the body it was found in.
pub proof fn lemma_entry_is_suffix(body: Seq<char>)
    requires
        has_delimiter(body),
    ensures
        entry_of(body) is Some,
        ({
            let entry = entry_of(body)->0;
            &&& 1 <= entry.len() < body.len()
            &&& entry[0] == '@'
            &&& body[body.len() - entry.len() - 1] == '\n'
            &&& entry == body.subrange(body.len() - entry.len(), body.len() as int)
        }),
{
    let i = choose|i: int| delimiter_at(body, i);
    lemma_first_delimiter_exists(body, i);
    let k = choose|k: int| first_delimiter(body, k);
    lemma_entry_at(body, k);
}

/// Reads the entry out of a body.
///
/// The result is the text from the first `@` that directly follows a
/// newline to the end of the body, or `None` where no `@` follows a
/// newline. The body is read once, from its start.
pub fn extract_entry(body: &str) -> (entry: Option<String>)
    ensures
        entry.deep_view() == entry_of(body@),
        entry is None <==> !has_delimiter(body@),
        entry matches Some(text) ==> text@.len() >= 1 && text@[0] == '@',
{
    let total = body.unicode_len();
    let mut after_newline = false;
    let mut at: usize = 0;
    for c in it: body.chars()
        invariant
            it.seq() == body@,
            at == it.index(),
            total == body@.len(),
            after_newline <==> (at > 0 && body@[at - 1] == '\n'),
            forall|j: int| 0 <= j && j + 1 < at ==> !delimiter_at(body@, j),
    {
        if after_newline && c == '@' {
            proof {
                lemma_entry_at(body@, at - 1);
                lemma_entry_is_suffix(body@);
            }
            return Some(body.substring_char(at, total).to_owned());
        }
        after_newline = c == '\n';
        at += 1;
    }
    None
}

} // verus!
