//! Texts: how they are compared and made from literals.

use vstd::prelude::*;

verus! {

/// `String::from` on a text that is borrowed copies it.
pub assume_specification<'a>[ <String as From<&'a str>>::from ](text: &str) -> (copy: String)
    ensures
        copy@ == text@,
;

/// Whether two texts are the same.
pub fn same_text(left: &str, right: &str) -> (same: bool)
    ensures
        same <==> left@ == right@,
{
    left.to_owned() == right.to_owned()
}

} // verus!
