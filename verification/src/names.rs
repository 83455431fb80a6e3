use vstd::prelude::*;
use convert_case::Case;
use convert_case::Casing;

verus! {

/// The upper-camel-case rendering that the case converter gives an
/// identifier; generated column identifiers carry this shape.
pub uninterp spec fn pascal_of(s: Seq<char>) -> Seq<char>;

/// The lower-snake-case rendering that the case converter gives an
/// identifier; generated module identifiers carry this shape.
pub uninterp spec fn snake_of(s: Seq<char>) -> Seq<char>;

/// Relies on convert_case::Casing::to_case with Case::Pascal: the result is a
/// pure function of the input characters alone.
#[verifier::external_body]
pub(crate) fn pascal_case(s: &str) -> (r: String)
    ensures
        r@ == pascal_of(s@),
{
    s.to_case(Case::Pascal)
}

/// Relies on convert_case::Casing::to_case with Case::Snake: the result is a
/// pure function of the input characters alone.
#[verifier::external_body]
pub(crate) fn snake_case(s: &str) -> (r: String)
    ensures
        r@ == snake_of(s@),
{
    s.to_case(Case::Snake)
}

} // verus!
