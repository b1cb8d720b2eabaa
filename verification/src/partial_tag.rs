//! Recognising templates that include other templates.
//!
//! A handlebars template includes another one with a partial tag: an
//! opening `{{`, optionally `~`, optionally `#`, then `>`, with whitespace
//! allowed between them. Templates that include one another can make the
//! engine recurse without end, so the renderer takes no template that
//! holds such a tag.

use vstd::prelude::*;

verus! {

/// What may stand between the opening braces of a tag and the `>` of a
/// partial tag: whitespace, the tilde that trims whitespace, and the hash
/// that opens a block.
pub open spec fn tag_filler(c: char) -> bool {
    c == ' ' || c == '\t' || c == '\n' || c == '\r' || c == '~' || c == '#'
}

/// From position `j` on, the text holds only filler up to a `>`.
pub open spec fn partial_mark_follows(s: Seq<char>, j: int) -> bool
    decreases s.len() - j,
{
    if j < 0 || j >= s.len() {
        false
    } else if s[j] == '>' {
        true
    } else if tag_filler(s[j]) {
        partial_mark_follows(s, j + 1)
    } else {
        false
    }
}

/// A partial tag opens at position `i`: two opening braces, then filler,
/// then `>`. Every partial tag of the engine's grammar has this shape; so
/// do a few texts that the engine would refuse to parse or would take as
/// plain text.
pub open spec fn partial_tag_at(s: Seq<char>, i: int) -> bool {
    &&& 0 <= i
    &&& i + 1 < s.len()
    &&& s[i] == '{'
    &&& s[i + 1] == '{'
    &&& partial_mark_follows(s, i + 2)
}

/// The text holds a partial tag somewhere.
pub open spec fn holds_partial_tag(s: Seq<char>) -> bool {
    exists|i: int| partial_tag_at(s, i)
}

/// Whether only filler stands between position `start` and a `>`.
fn mark_follows(source: &str, start: usize) -> (found: bool)
    requires
        start <= source@.len(),
    ensures
        found == partial_mark_follows(source@, start as int),
{
    let n = source.unicode_len();
    let mut j: usize = start;
    while j < n
        invariant
            start <= j <= n,
            n == source@.len(),
            partial_mark_follows(source@, start as int) == partial_mark_follows(source@, j as int),
        decreases n - j,
    {
        let c = source.get_char(j);
        if c == '>' {
            return true;
        }
        if !(c == ' ' || c == '\t' || c == '\n' || c == '\r' || c == '~' || c == '#') {
            return false;
        }
        j = j + 1;
    }
    false
}

/// Tells whether a template source holds a partial tag.
pub fn has_partial_tag(source: &str) -> (found: bool)
    ensures
        found == holds_partial_tag(source@),
{
    let n = source.unicode_len();
    let mut i: usize = 0;
    while i < n
        invariant
            i <= n,
            n == source@.len(),
            forall|k: int| 0 <= k < i ==> !partial_tag_at(source@, k),
        decreases n - i,
    {
        if i + 1 < n {
            if source.get_char(i) == '{' && source.get_char(i + 1) == '{' {
                if mark_follows(source, i + 2) {
                    assert(partial_tag_at(source@, i as int));
                    return true;
                }
            }
        }
        i = i + 1;
    }
    assert forall|k: int| !partial_tag_at(source@, k) by {
        if 0 <= k && k + 1 < n {
            assert(k < i);
        }
    }
    false
}

/// A text without two opening braces in a row holds no partial tag.
pub proof fn lemma_no_braces_no_tag(s: Seq<char>)
    requires
        forall|i: int| 0 <= i && i + 1 < s.len() ==> !(#[trigger] s[i] == '{' && s[i + 1] == '{'),
    ensures
        !holds_partial_tag(s),
{
}

/// The plain forms of a partial tag are recognised: `{{>` and `{{#>`
/// at the start of a text.
pub proof fn lemma_plain_tags_recognised(s: Seq<char>)
    requires
        s.len() >= 3,
        s[0] == '{',
        s[1] == '{',
        s[2] == '>' || (s.len() >= 4 && s[2] == '#' && s[3] == '>'),
    ensures
        holds_partial_tag(s),
{
    reveal_with_fuel(partial_mark_follows, 3);
    assert(partial_tag_at(s, 0));
}

} // verus!
