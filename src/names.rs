//! Identifier spellings, from the `stringcase` crate.
use vstd::prelude::*;

verus! {

/// What `stringcase::snake_case` makes of a name.
pub uninterp spec fn snake_case_of(s: Seq<char>) -> Seq<char>;

/// What `stringcase::pascal_case` makes of a name.
pub uninterp spec fn pascal_case_of(s: Seq<char>) -> Seq<char>;

/// What `stringcase::macro_case` makes of a name.
pub uninterp spec fn macro_case_of(s: Seq<char>) -> Seq<char>;

/// Relies on `stringcase::snake_case`: the lower_snake spelling of a name, a function of
/// the name alone.
#[verifier::external_body]
pub(crate) fn snake_case(s: &str) -> (r: String)
    ensures
        r@ == snake_case_of(s@),
{
    stringcase::snake_case(s)
}

/// Relies on `stringcase::pascal_case`: the UpperCamel spelling of a name, a function of
/// the name alone.
#[verifier::external_body]
pub(crate) fn pascal_case(s: &str) -> (r: String)
    ensures
        r@ == pascal_case_of(s@),
{
    stringcase::pascal_case(s)
}

/// Relies on `stringcase::macro_case`: the UPPER_SNAKE spelling of a name, a function of
/// the name alone.
#[verifier::external_body]
pub(crate) fn macro_case(s: &str) -> (r: String)
    ensures
        r@ == macro_case_of(s@),
{
    stringcase::macro_case(s)
}

} // verus!
