//! Text as sequences of characters: lines, surrounding white space, prefixes.

use vstd::prelude::*;
use vstd::string::StringExecFns;

verus! {

/// The lines of `text`: the stretches between its line feeds, in order.
///
/// A text without a line feed is one line, and what follows the last line feed is a line
/// even when it is empty.
pub open spec fn lines(text: Seq<char>) -> Seq<Seq<char>>
    decreases text.len(),
{
    if text.len() == 0 {
        seq![Seq::empty()]
    } else {
        let rest = lines(text.drop_first());
        if text[0] == '\n' {
            seq![Seq::empty()] + rest
        } else {
            seq![seq![text[0]] + rest[0]] + rest.drop_first()
        }
    }
}

/// Whether `c` has the Unicode property `White_Space`.
pub open spec fn is_white_space(c: char) -> bool {
    let code = c as u32;
    ||| 0x09 <= code <= 0x0d
    ||| code == 0x20
    ||| code == 0x85
    ||| code == 0xa0
    ||| code == 0x1680
    ||| 0x2000 <= code <= 0x200a
    ||| code == 0x2028
    ||| code == 0x2029
    ||| code == 0x202f
    ||| code == 0x205f
    ||| code == 0x3000
}

/// `text` without the white space it begins with.
pub open spec fn trimmed_start(text: Seq<char>) -> Seq<char>
    decreases text.len(),
{
    if text.len() > 0 && is_white_space(text[0]) {
        trimmed_start(text.drop_first())
    } else {
        text
    }
}

/// `text` without the white space it ends with.
pub open spec fn trimmed_end(text: Seq<char>) -> Seq<char>
    decreases text.len(),
{
    if text.len() > 0 && is_white_space(text.last()) {
        trimmed_end(text.drop_last())
    } else {
        text
    }
}

/// `text` without the white space around it.
pub open spec fn trimmed(text: Seq<char>) -> Seq<char> {
    trimmed_end(trimmed_start(text))
}

/// `text` without `prefix`, if it begins with `prefix`.
pub open spec fn without_prefix(text: Seq<char>, prefix: Seq<char>) -> Option<Seq<char>> {
    if prefix.is_prefix_of(text) {
        Some(text.skip(prefix.len() as int))
    } else {
        None
    }
}

/// A text has at least one line.
pub proof fn lemma_lines_nonempty(text: Seq<char>)
    ensures
        lines(text).len() >= 1,
    decreases text.len(),
{
    if text.len() > 0 {
        lemma_lines_nonempty(text.drop_first());
    }
}

/// A text without line feeds is its own only line.
pub proof fn lemma_single_line(text: Seq<char>)
    requires
        !text.contains('\n'),
    ensures
        lines(text) == seq![text],
    decreases text.len(),
{
    if text.len() == 0 {
        assert(text =~= Seq::<char>::empty());
    } else {
        assert forall|c: char| text.drop_first().contains(c) implies text.contains(c) by {
            let i = text.drop_first().index_of(c);
            assert(text[i + 1] == c);
        }
        lemma_single_line(text.drop_first());
        assert(text.contains(text[0]));
        assert(seq![text[0]] + text.drop_first() =~= text);
        assert(lines(text) =~= seq![text]);
    }
}

/// Two texts joined by a line feed have the lines of the first, then those of the second.
pub proof fn lemma_lines_joined(first: Seq<char>, second: Seq<char>)
    ensures
        lines(first + seq!['\n'] + second) == lines(first) + lines(second),
    decreases first.len(),
{
    let joined = first + seq!['\n'] + second;
    if first.len() == 0 {
        assert(joined.drop_first() =~= second);
        assert(lines(joined) =~= lines(first) + lines(second));
    } else {
        lemma_lines_joined(first.drop_first(), second);
        lemma_lines_nonempty(first.drop_first());
        assert(joined.drop_first() =~= first.drop_first() + seq!['\n'] + second);
        assert(lines(joined) =~= lines(first) + lines(second));
    }
}

/// `str::split_once` with a character as the delimiter.
///
/// Claims what its documentation says: the text is split at the first occurrence of the
/// delimiter into what stands before it and what stands after it, and the result is `None`
/// when the delimiter does not occur.
#[verifier::external_body]
pub(crate) fn split_once<'a>(text: &'a str, delimiter: char) -> (parts: Option<(&'a str, &'a str)>)
    ensures
        parts is None <==> !text@.contains(delimiter),
        parts matches Some((before, after)) ==> {
            &&& text@ == before@ + seq![delimiter] + after@
            &&& !before@.contains(delimiter)
        },
{
    text.split_once(delimiter)
}

/// `str::trim`.
///
/// Claims what its documentation says: the leading and trailing characters with the
/// Unicode property `White_Space` are gone, and nothing else is.
#[verifier::external_body]
pub(crate) fn trim<'a>(text: &'a str) -> (inner: &'a str)
    ensures
        inner@ == trimmed(text@),
{
    text.trim()
}

/// `str::strip_prefix` with a string as the prefix.
///
/// Claims what its documentation says: the text after the prefix if the text begins with
/// it, and `None` if it does not.
#[verifier::external_body]
pub(crate) fn strip_prefix<'a>(text: &'a str, prefix: &str) -> (rest: Option<&'a str>)
    ensures
        match rest {
            Some(after) => without_prefix(text@, prefix@) == Some(after@),
            None => without_prefix(text@, prefix@) is None,
        },
{
    text.strip_prefix(prefix)
}

/// Whether the character `wanted` occurs in `text`.
pub fn contains_char(text: &str, wanted: char) -> (found: bool)
    ensures
        found == text@.contains(wanted),
{
    for c in it: text.chars()
        invariant
            it.seq() == text@,
            forall|i: int| 0 <= i < it.index() ==> text@[i] != wanted,
    {
        if c == wanted {
            assert(text@[it.index()] == wanted);
            return true;
        }
    }
    false
}

/// `first` with `second` behind it.
pub fn joined(first: &str, second: &str) -> (whole: String)
    ensures
        whole@ == first@ + second@,
{
    let mut whole = first.to_owned();
    whole.append(second);
    whole
}

/// Whether two texts hold the same characters.
pub fn same_text(first: &str, second: &str) -> (same: bool)
    ensures
        same == (first@ == second@),
{
    first.to_owned() == second.to_owned()
}

} // verus!
