use vstd::prelude::*;

verus! {

/// A storage-layer outcome, as the backing store reports it: the identifier
/// was already present on an insert, no row matched on a lookup or update,
/// or the backend failed for some other reason.
#[derive(Clone, Copy, Debug, PartialEq, Eq, Structural)]
pub enum StoreError {
    DuplicateKey,
    NotFound,
    Backend,
}

/// The closed set of failure outcomes a handler can produce. Each variant
/// maps to exactly one response status; nothing else ever reaches a client.
#[derive(Clone, Copy, Debug, PartialEq, Eq, Structural)]
pub enum ApiError {
    /// The submitted target URL does not parse as an absolute URL.
    Validation,
    /// No link row exists for the requested identifier.
    NotFound,
    /// The chosen identifier already exists in the store.
    DuplicateKey,
    /// The store call did not complete within its deadline.
    TimedOut,
    /// The request failed the authorization gate.
    Unauthorized,
    /// The backing store failed for a reason other than the above.
    StoreFailure,
}

impl ApiError {
    /// The one response status each failure outcome maps to.
    pub open spec fn spec_status(self) -> u16 {
        match self {
            ApiError::Validation => 422,
            ApiError::NotFound => 404,
            ApiError::DuplicateKey => 409,
            ApiError::TimedOut => 500,
            ApiError::Unauthorized => 401,
            ApiError::StoreFailure => 500,
        }
    }

    /// True of the statuses that blame the client, false of server failures.
    pub open spec fn spec_is_client_error(self) -> bool {
        400 <= self.spec_status() < 500
    }

    pub fn status(&self) -> (s: u16)
        ensures
            s == self.spec_status(),
    {
        match self {
            ApiError::Validation => 422,
            ApiError::NotFound => 404,
            ApiError::DuplicateKey => 409,
            ApiError::TimedOut => 500,
            ApiError::Unauthorized => 401,
            ApiError::StoreFailure => 500,
        }
    }

    /// A fixed client-facing message per outcome; store-side detail is never
    /// leaked verbatim.
    pub fn message(&self) -> (m: &'static str)
        ensures
            self is Validation ==> m@ == "url malformed"@,
            self is NotFound ==> m@ == "Not found fourhundreadandfour"@,
            self is DuplicateKey ==> m@ == "identifier already taken"@,
            self is TimedOut ==> m@ == "internal error"@,
            self is Unauthorized ==> m@ == "unauthorized"@,
            self is StoreFailure ==> m@ == "internal error"@,
    {
        match self {
            ApiError::Validation => "url malformed",
            ApiError::NotFound => "Not found fourhundreadandfour",
            ApiError::DuplicateKey => "identifier already taken",
            ApiError::TimedOut => "internal error",
            ApiError::Unauthorized => "unauthorized",
            ApiError::StoreFailure => "internal error",
        }
    }
}

} // verus!
