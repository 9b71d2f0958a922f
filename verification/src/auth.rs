use vstd::prelude::*;

use crate::errors::ApiError;

verus! {

/// The authorization gate in front of every mutating operation: a pure
/// predicate over the presented credential. It passes exactly when a
/// credential is presented and equals the expected secret; a missing or
/// wrong credential is rejected before any handler runs — fail closed.
pub fn authorize(credential: Option<&String>, expected: &String) -> (r: Result<(), ApiError>)
    ensures
        r is Ok <==> (credential matches Some(c) && c@ == expected@),
        r is Err ==> r == Err::<(), ApiError>(ApiError::Unauthorized),
{
    match credential {
        Some(c) => {
            if *c == *expected {
                Ok(())
            } else {
                Err(ApiError::Unauthorized)
            }
        },
        None => Err(ApiError::Unauthorized),
    }
}

} // verus!
