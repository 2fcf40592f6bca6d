//! Defaults of the HTTP request body.
use vstd::prelude::*;

verus! {

/// The number of years projected when a request names none.
pub fn default_years() -> (r: i32)
    ensures
        r == 5,
{
    5
}

} // verus!
