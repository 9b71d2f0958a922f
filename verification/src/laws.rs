use vstd::prelude::*;

use crate::errors::ApiError;
use crate::handlers::spec_create;
use crate::handlers::spec_redirect;
use crate::handlers::spec_update;
use crate::handlers::LinkMap;
use crate::urls::url_normal;
use crate::urls::url_valid;

verus! {

/// A successful creation stores and returns exactly the normalized form of
/// the submitted URL under the chosen identifier.
pub proof fn law_create_normalizes(m: LinkMap, id: Seq<char>, u: Seq<char>)
    requires
        url_valid(u),
        !m.contains_key(id),
    ensures
        ({
            let (res, m2) = spec_create(m, id, u);
            &&& res == Ok::<(Seq<char>, Seq<char>), ApiError>((id, url_normal(u)->Some_0))
            &&& m2 == m.insert(id, url_normal(u)->Some_0)
            &&& m2[id] == url_normal(u)->Some_0
        }),
{
}

/// Round trip: redirecting an identifier just created serves exactly the
/// normalized form of the URL it was created with.
pub proof fn law_create_then_redirect(m: LinkMap, id: Seq<char>, u: Seq<char>)
    requires
        spec_create(m, id, u).0 is Ok,
    ensures
        spec_redirect(spec_create(m, id, u).1, id) == Ok::<Seq<char>, ApiError>(
            url_normal(u)->Some_0,
        ),
{
}

/// Updating is idempotent: one update makes redirects serve the new target,
/// and repeating the same update changes neither the result nor the store.
pub proof fn law_update_idempotent(m: LinkMap, id: Seq<char>, u: Seq<char>)
    requires
        m.contains_key(id),
        url_valid(u),
    ensures
        ({
            let (r1, m1) = spec_update(m, id, u);
            &&& r1 == Ok::<(Seq<char>, Seq<char>), ApiError>((id, url_normal(u)->Some_0))
            &&& spec_redirect(m1, id) == Ok::<Seq<char>, ApiError>(url_normal(u)->Some_0)
            &&& spec_update(m1, id, u) == (r1, m1)
        }),
{
    let n = url_normal(u)->Some_0;
    assert(m.insert(id, n).insert(id, n) =~= m.insert(id, n));
}

/// An identifier never created redirects to not found — a client error,
/// never a server failure.
pub proof fn law_redirect_missing_is_not_found(m: LinkMap, id: Seq<char>)
    requires
        !m.contains_key(id),
    ensures
        spec_redirect(m, id) == Err::<Seq<char>, ApiError>(ApiError::NotFound),
        ApiError::NotFound.spec_status() == 404,
        ApiError::NotFound.spec_is_client_error(),
{
}

/// A malformed URL is rejected as a client error and persists nothing,
/// whatever identifier would have been drawn.
pub proof fn law_create_invalid_persists_nothing(m: LinkMap, id: Seq<char>, u: Seq<char>)
    requires
        !url_valid(u),
    ensures
        spec_create(m, id, u) == (Err::<(Seq<char>, Seq<char>), ApiError>(ApiError::Validation), m),
        ApiError::Validation.spec_is_client_error(),
{
}

/// A colliding insert is refused as a duplicate: the existing row keeps its
/// target, and nothing is silently overwritten.
pub proof fn law_duplicate_insert_rejected(m: LinkMap, id: Seq<char>, u: Seq<char>)
    requires
        m.contains_key(id),
        url_valid(u),
    ensures
        ({
            let (res, m2) = spec_create(m, id, u);
            &&& res == Err::<(Seq<char>, Seq<char>), ApiError>(ApiError::DuplicateKey)
            &&& m2 == m
            &&& m2[id] == m[id]
        }),
{
}

} // verus!
