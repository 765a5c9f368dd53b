//! Text helpers shared by the topic and identifier builders.
//!
//! Every string in this crate is viewed as its sequence of characters; the
//! helpers below are stated over those sequences.

use vstd::prelude::*;
use vstd::string::*;

verus! {

/// The text with every occurrence of the character `from` replaced by `to`.
pub open spec fn replaced(text: Seq<char>, from: char, to: Seq<char>) -> Seq<char>
    decreases text.len(),
{
    if text.len() == 0 {
        Seq::empty()
    } else {
        replaced(text.drop_last(), from, to) + (if text.last() == from {
            to
        } else {
            seq![text.last()]
        })
    }
}

/// The fields of `text` between occurrences of `sep`. There is always at
/// least one field, and two separators in a row enclose an empty one.
pub open spec fn split_on(text: Seq<char>, sep: char) -> Seq<Seq<char>>
    decreases text.len(),
{
    if text.len() == 0 {
        seq![Seq::empty()]
    } else {
        let head = split_on(text.drop_last(), sep);
        if text.last() == sep {
            head.push(Seq::empty())
        } else {
            head.drop_last().push(head.last().push(text.last()))
        }
    }
}

/// The views of a vector of strings, in order.
pub open spec fn views(items: Seq<String>) -> Seq<Seq<char>> {
    Seq::new(items.len(), |i: int| items[i]@)
}

/// The lower-case form that `str::to_lowercase` gives to a text.
pub uninterp spec fn lowercase_of(text: Seq<char>) -> Seq<char>;

/// Calls `str::to_lowercase` of the standard library, which maps the text to
/// its Unicode lower-case form. Nothing is proved of that mapping: the
/// result is only given the name `lowercase_of`.
#[verifier::external_body]
pub(crate) fn to_lowercase(text: &str) -> (lower: String)
    ensures
        lower@ == lowercase_of(text@),
{
    text.to_lowercase()
}

/// `head` followed by `tail`.
pub fn join2(head: &str, tail: &str) -> (out: String)
    ensures
        out@ == head@ + tail@,
{
    let mut out = head.to_owned();
    out.append(tail);
    out
}

/// `head`, `middle` and `tail` in a row.
pub fn join3(head: &str, middle: &str, tail: &str) -> (out: String)
    ensures
        out@ == head@ + middle@ + tail@,
{
    let mut out = head.to_owned();
    out.append(middle);
    out.append(tail);
    out
}

/// Replaces every occurrence of the character `from` in `text` by `to`.
pub fn replace_char(text: &str, from: char, to: &str) -> (out: String)
    ensures
        out@ == replaced(text@, from, to@),
{
    let n: usize = text.unicode_len();
    let mut out = String::new();
    let mut i: usize = 0;
    while i < n
        invariant
            n == text@.len(),
            i <= n,
            out@ == replaced(text@.subrange(0, i as int), from, to@),
        decreases n - i,
    {
        let c = text.get_char(i);
        proof {
            assert(text@.subrange(0, i + 1).drop_last() == text@.subrange(0, i as int));
        }
        if c == from {
            out.append(to);
        } else {
            out.append(text.substring_char(i, i + 1));
        }
        i += 1;
    }
    proof {
        assert(text@.subrange(0, n as int) == text@);
    }
    out
}

/// A split has at least one field, whatever the text.
pub proof fn lemma_split_on_nonempty(text: Seq<char>, sep: char)
    ensures
        split_on(text, sep).len() >= 1,
    decreases text.len(),
{
    if text.len() > 0 {
        lemma_split_on_nonempty(text.drop_last(), sep);
    }
}

/// Splits `text` at every occurrence of `sep`.
pub fn split_char(text: &str, sep: char) -> (fields: Vec<String>)
    ensures
        views(fields@) == split_on(text@, sep),
{
    let n: usize = text.unicode_len();
    let mut fields: Vec<String> = Vec::new();
    let mut start: usize = 0;
    let mut i: usize = 0;
    proof {
        assert(text@.subrange(0, 0) == Seq::<char>::empty());
        assert(views(fields@) == Seq::<Seq<char>>::empty());
        assert(seq![Seq::<char>::empty()] == Seq::<Seq<char>>::empty().push(Seq::empty()));
    }
    while i < n
        invariant
            n == text@.len(),
            start <= i <= n,
            split_on(text@.subrange(0, i as int), sep) == views(fields@).push(
                text@.subrange(start as int, i as int),
            ),
        decreases n - i,
    {
        let c = text.get_char(i);
        proof {
            let before = text@.subrange(0, i as int);
            let now = text@.subrange(0, i + 1);
            assert(now.drop_last() == before);
            assert(now.last() == c);
            let head = split_on(before, sep);
            assert(head.last() == text@.subrange(start as int, i as int));
            assert(head.drop_last() == views(fields@));
            if c != sep {
                assert(text@.subrange(start as int, i as int).push(c) == text@.subrange(
                    start as int,
                    i + 1,
                ));
            }
        }
        if c == sep {
            let field = text.substring_char(start, i).to_owned();
            proof {
                assert(views(fields@.push(field)) == views(fields@).push(field@));
                assert(text@.subrange(i + 1, i + 1) == Seq::<char>::empty());
            }
            fields.push(field);
            start = i + 1;
        }
        i += 1;
    }
    let field = text.substring_char(start, n).to_owned();
    proof {
        assert(text@.subrange(0, n as int) == text@);
        assert(views(fields@.push(field)) == views(fields@).push(field@));
    }
    fields.push(field);
    fields
}

} // verus!
