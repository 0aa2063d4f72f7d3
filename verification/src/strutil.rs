//! Small string helpers shared by the parsers.

use vstd::prelude::*;

verus! {

/// String equality on `&str`, with the equality of the views in its contract.
pub fn str_eq(a: &str, b: &str) -> (r: bool)
    ensures
        r == (a@ == b@),
{
    let x: String = a.to_owned();
    let y: String = b.to_owned();
    x == y
}

} // verus!
