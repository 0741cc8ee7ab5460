use vstd::prelude::*;

verus! {

/// What `str::to_lowercase` returns for a text.
pub uninterp spec fn lower_of(s: Seq<char>) -> Seq<char>;

/// What `str::split_whitespace` yields for a text, in order.
pub uninterp spec fn words_of(s: Seq<char>) -> Seq<Seq<char>>;

/// Relies on str::to_lowercase: the result depends on the characters alone,
/// and the empty text stays empty.
#[verifier::external_body]
pub(crate) fn to_lower(s: &str) -> (r: String)
    ensures
        r@ == lower_of(s@),
        s@.len() == 0 ==> r@.len() == 0,
{
    s.to_lowercase()
}

/// Relies on str::split_whitespace: the words of the text, in order, none of
/// them empty; a text without characters has none.
#[verifier::external_body]
pub(crate) fn split_words(s: &str) -> (r: Vec<String>)
    ensures
        r@.len() == words_of(s@).len(),
        forall|i: int| 0 <= i < r@.len() ==> #[trigger] r@[i]@ == words_of(s@)[i],
        forall|i: int| 0 <= i < r@.len() ==> #[trigger] r@[i]@.len() > 0,
        s@.len() == 0 ==> r@.len() == 0,
{
    s.split_whitespace().map(|w| w.to_string()).collect()
}

/// Whether `w` occurs in `t` as a contiguous run of characters.
pub open spec fn has_infix(t: Seq<char>, w: Seq<char>) -> bool {
    exists|i: int| 0 <= i <= t.len() - w.len() && #[trigger] t.subrange(i, i + w.len()) == w
}

/// Relies on str::contains with a `&str` pattern: whether the pattern occurs in the text.
#[verifier::external_body]
pub(crate) fn contains_text(t: &str, w: &str) -> (r: bool)
    ensures
        r == has_infix(t@, w@),
{
    t.contains(w)
}

} // verus!
