//! Small string helpers used by name parsing and file lookup.

use vstd::prelude::*;

verus! {

/// String-slice equality, decided by comparing the two views.
pub fn str_eq(a: &str, b: &str) -> (r: bool)
    ensures
        r == (a@ == b@),
{
    let sa = a.to_owned();
    let sb = b.to_owned();
    sa == sb
}

} // verus!
