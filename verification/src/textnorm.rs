use vstd::prelude::*;

verus! {

/// The characters of `s` mapped to lowercase by the Unicode lowercasing
/// that `str::to_lowercase` implements.  The result depends on the
/// characters alone; its full definition is not restated here.
pub uninterp spec fn lower_of(s: Seq<char>) -> Seq<char>;

/// Relies on str::to_lowercase: returns the lowercase equivalent of the
/// string, a pure function of its characters.
#[verifier::external_body]
pub fn lowercase(s: &String) -> (r: String)
    ensures
        r@ == lower_of(s@),
{
    s.to_lowercase()
}

} // verus!
