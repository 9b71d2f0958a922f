use vstd::prelude::*;

use crate::errors::ApiError;
use crate::errors::StoreError;
use crate::store::Link;

verus! {

/// Fixed time budget, in milliseconds, granted to every store call a
/// handler makes.
pub const STORE_DEADLINE_MS: u64 = 300;

/// What came back from running one store call under the deadline: the
/// call's own result, or expiry of the budget with the call abandoned. The
/// caller that ran the clock hands this in; expiry does not promise that the
/// underlying operation was cancelled, only that nobody waits for it.
pub enum StoreCallOutcome {
    Completed(Result<Link, StoreError>),
    Expired,
}

/// Map a supervised store call's outcome to the handler-level result:
/// expiry becomes the timeout failure, a completed call keeps its row, and
/// each store error maps to exactly one handler error. The caller always
/// gets a terminal answer; nothing is retried here.
pub fn resolve_store_call(o: StoreCallOutcome) -> (r: Result<Link, ApiError>)
    ensures
        o is Expired ==> r == Err::<Link, ApiError>(ApiError::TimedOut),
        o matches StoreCallOutcome::Completed(c) ==> match c {
            Ok(l) => r == Ok::<Link, ApiError>(l),
            Err(StoreError::DuplicateKey) => r == Err::<Link, ApiError>(ApiError::DuplicateKey),
            Err(StoreError::NotFound) => r == Err::<Link, ApiError>(ApiError::NotFound),
            Err(StoreError::Backend) => r == Err::<Link, ApiError>(ApiError::StoreFailure),
        },
{
    match o {
        StoreCallOutcome::Expired => Err(ApiError::TimedOut),
        StoreCallOutcome::Completed(Ok(l)) => Ok(l),
        StoreCallOutcome::Completed(Err(StoreError::DuplicateKey)) => Err(ApiError::DuplicateKey),
        StoreCallOutcome::Completed(Err(StoreError::NotFound)) => Err(ApiError::NotFound),
        StoreCallOutcome::Completed(Err(StoreError::Backend)) => Err(ApiError::StoreFailure),
    }
}

} // verus!
