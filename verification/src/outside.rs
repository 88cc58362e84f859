//! Declarations of the outside types that the library's values carry.
//! Verus sees none of their contents; the library only moves them around.

use vstd::prelude::*;

verus! {

/// An insertion-ordered map (`indexmap::IndexMap`), carried opaquely.
#[verifier::external_type_specification]
#[verifier::external_body]
#[verifier::reject_recursive_types(K)]
#[verifier::reject_recursive_types(V)]
#[verifier::reject_recursive_types(S)]
pub struct ExIndexMap<K, V, S>(indexmap::IndexMap<K, V, S>);

/// `IndexMap::clone`, which the derived `Clone` of the library's types calls;
/// nothing is claimed of the copy.
pub assume_specification<K, V, S>[ <indexmap::IndexMap<K, V, S> as std::clone::Clone>::clone ](
    map: &indexmap::IndexMap<K, V, S>,
) -> indexmap::IndexMap<K, V, S>
    where
        K: std::clone::Clone,
        S: std::clone::Clone,
        V: std::clone::Clone,
;

/// The error that `url::Url::parse` reports.
#[verifier::external_type_specification]
#[verifier::external_body]
pub struct ExUrlParseError(url::ParseError);

/// The error that `fancy_regex` reports for a bad pattern or an exhausted search.
#[verifier::external_type_specification]
#[verifier::external_body]
pub struct ExRegexError(fancy_regex::Error);

} // verus!
