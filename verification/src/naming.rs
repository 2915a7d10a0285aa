use vstd::prelude::*;

use convert_case::Casing;

verus! {

/// The identifier conventions that names are converted to.
#[derive(Clone, Copy, Debug, PartialEq, Eq, Structural)]
pub enum TargetCase {
    /// `UpperCamelCase`, for type names.
    Pascal,
    /// `lower_snake_case`, for field names.
    Snake,
}

/// What `convert_case` gives for `text` converted to `case`, with the
/// default word boundaries.
pub uninterp spec fn case_converted(text: Seq<char>, case: TargetCase) -> Seq<char>;

/// `Casing::to_case` of `convert_case`: splits `text` into words at the
/// default boundaries and joins them in the convention of `case`.
#[verifier::external_body]
pub(crate) fn to_case(text: &str, case: TargetCase) -> (res: String)
    ensures
        res@ == case_converted(text@, case),
{
    match case {
        TargetCase::Pascal => text.to_case(convert_case::Case::Pascal),
        TargetCase::Snake => text.to_case(convert_case::Case::Snake),
    }
}

} // verus!
