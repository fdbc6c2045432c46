//! Strings and their mathematical form.

use vstd::prelude::*;

verus! {

/// The character sequences that a vector of strings stands for.
pub open spec fn texts_of(v: Seq<String>) -> Seq<Seq<char>> {
    Seq::new(v.len(), |i: int| v[i]@)
}

/// The character sequence that an optional string stands for.
pub open spec fn opt_text(s: Option<String>) -> Option<Seq<char>> {
    match s {
        Some(t) => Some(t@),
        None => None,
    }
}

/// Whether a string reads exactly as `literal`.
pub fn text_is(text: &String, literal: &str) -> (yes: bool)
    ensures
        yes == (text@ == literal@),
{
    let lit = literal.to_owned();
    *text == lit
}

/// Pushing a string pushes its character sequence.
pub proof fn lemma_texts_push(v: Seq<String>, s: String)
    ensures
        texts_of(v.push(s)) == texts_of(v).push(s@),
{
    assert(texts_of(v.push(s)) =~= texts_of(v).push(s@));
}

/// The texts of two vectors, one after the other, are the texts of their
/// concatenation.
pub proof fn lemma_texts_add(a: Seq<String>, b: Seq<String>)
    ensures
        texts_of(a + b) == texts_of(a) + texts_of(b),
{
    assert(texts_of(a + b) =~= texts_of(a) + texts_of(b));
}

} // verus!
