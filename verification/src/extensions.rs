//! Small additions to the standard string type.

use crate::text::{lowercase_of, replace_char, replaced, to_lowercase};
use vstd::prelude::*;

verus! {

/// The slug of a text: its lower-case form with `-` for every space.
pub open spec fn slug_of(text: Seq<char>) -> Seq<char> {
    replaced(lowercase_of(text), ' ', "-"@)
}

pub trait StringExt {
    /// A form of the text that can stand in a topic or an identifier.
    fn to_slug(&self) -> String;
}

impl StringExt for String {
    fn to_slug(&self) -> (slug: String)
        ensures
            slug@ == slug_of(self@),
    {
        let lower = to_lowercase(self.as_str());
        replace_char(lower.as_str(), ' ', "-")
    }
}

/// Replacing a character by a text that does not hold it leaves none of it.
pub proof fn lemma_replaced_is_free(text: Seq<char>, from: char, to: Seq<char>)
    requires
        !to.contains(from),
    ensures
        !replaced(text, from, to).contains(from),
    decreases text.len(),
{
    if text.len() > 0 {
        lemma_replaced_is_free(text.drop_last(), from, to);
        let head = replaced(text.drop_last(), from, to);
        let tail = if text.last() == from {
            to
        } else {
            seq![text.last()]
        };
        assert forall|i: int| 0 <= i < (head + tail).len() implies (head + tail)[i] != from by {
            if i < head.len() {
                assert(head.contains(head[i]));
            } else {
                assert(tail.contains(tail[i - head.len()]));
            }
        }
    }
}

/// A slug holds no space.
pub proof fn lemma_slug_has_no_space(text: Seq<char>)
    ensures
        !slug_of(text).contains(' '),
{
    reveal_strlit("-");
    assert(!"-"@.contains(' ')) by {
        assert forall|i: int| 0 <= i < "-"@.len() implies "-"@[i] != ' ' by {}
    }
    lemma_replaced_is_free(lowercase_of(text), ' ', "-"@);
}

} // verus!
