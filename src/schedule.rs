//! The yearly periods a projection runs over.
use vstd::prelude::*;
use crate::error::Failure;

verus! {

/// Whether `years` is a valid number of years: a negative one is invalid input.
pub fn check_years(years: i32) -> (r: Result<(), Failure>)
    ensures
        years < 0 ==> r == Err::<(), Failure>(Failure::InvalidInput),
        years >= 0 ==> r is Ok,
{
    if years < 0 {
        Err(Failure::InvalidInput)
    } else {
        Ok(())
    }
}

/// The 1-based year indices of a projection over `years` years, one per
/// snapshot and in order; a negative number of years is invalid input.
pub fn year_periods(years: i32) -> (r: Result<Vec<i32>, Failure>)
    ensures
        years < 0 ==> r == Err::<Vec<i32>, Failure>(Failure::InvalidInput),
        years >= 0 ==> r is Ok,
        r matches Ok(v) ==> v@.len() == years && forall|i: int|
            0 <= i < v@.len() ==> #[trigger] v@[i] == i + 1,
{
    if years < 0 {
        return Err(Failure::InvalidInput);
    }
    let mut v: Vec<i32> = Vec::new();
    let mut n: i32 = 0;
    while n < years
        invariant
            0 <= n <= years,
            v@.len() == n,
            forall|i: int| 0 <= i < v@.len() ==> #[trigger] v@[i] == i + 1,
        decreases years - n,
    {
        n = n + 1;
        v.push(n);
    }
    Ok(v)
}

} // verus!
