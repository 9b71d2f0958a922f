use vstd::prelude::*;

use crate::errors::ApiError;
use crate::ids::generate_id;
use crate::ids::id_wf;
use crate::store::Link;
use crate::store::LinkStore;
use crate::store::LinkTarget;
use crate::urls::url_normal;
use crate::urls::url_valid;
use crate::urls::validate_target;

verus! {

/// The mapping a store holds, as the handler models see it.
pub type LinkMap = Map<Seq<char>, Seq<char>>;

/// How many identifiers creation tries before surfacing a collision.
pub const CREATE_ATTEMPTS: usize = 3;

/// What one creation step does, for a chosen identifier: reject a malformed
/// URL and change nothing; refuse a taken identifier and change nothing; or
/// add the row and return it.
pub open spec fn spec_create(m: LinkMap, id: Seq<char>, u: Seq<char>) -> (Result<
    (Seq<char>, Seq<char>),
    ApiError,
>, LinkMap) {
    match url_normal(u) {
        Option::None => (Err(ApiError::Validation), m),
        Option::Some(n) => if m.contains_key(id) {
            (Err(ApiError::DuplicateKey), m)
        } else {
            (Ok((id, n)), m.insert(id, n))
        },
    }
}

/// What an update does: reject a malformed URL, report an unknown identifier
/// as not found, or replace the target of the existing row — each leaving
/// the store unchanged except in the last case.
pub open spec fn spec_update(m: LinkMap, id: Seq<char>, u: Seq<char>) -> (Result<
    (Seq<char>, Seq<char>),
    ApiError,
>, LinkMap) {
    match url_normal(u) {
        Option::None => (Err(ApiError::Validation), m),
        Option::Some(n) => if m.contains_key(id) {
            (Ok((id, n)), m.insert(id, n))
        } else {
            (Err(ApiError::NotFound), m)
        },
    }
}

/// What a redirect serves: the stored target for a known identifier, not
/// found for any other.
pub open spec fn spec_redirect(m: LinkMap, id: Seq<char>) -> Result<Seq<char>, ApiError> {
    if m.contains_key(id) {
        Ok(m[id])
    } else {
        Err(ApiError::NotFound)
    }
}

/// The pair a handler result stands for.
pub open spec fn result_model(r: Result<Link, ApiError>) -> Result<
    (Seq<char>, Seq<char>),
    ApiError,
> {
    match r {
        Ok(l) => Ok(l.model()),
        Err(e) => Err(e),
    }
}

/// The bounded shared-cache directive attached to every redirect response.
pub open spec fn spec_cache_control() -> Seq<char> {
    "public, max-age=300, s-maxage=300, stale-while-revalidate=300, stale-if-error=300"@
}

pub fn cache_control_value() -> (r: &'static str)
    ensures
        r@ == spec_cache_control(),
{
    "public, max-age=300, s-maxage=300, stale-while-revalidate=300, stale-if-error=300"
}

/// A temporary redirect: status, `Location` header value, and the
/// cache-control directive. A redirect carries no body; these three fields
/// are the whole response.
#[derive(Debug)]
pub struct RedirectResponse {
    pub status: u16,
    pub location: String,
    pub cache_control: String,
}

/// Health probe: always the same status and fixed text.
pub fn heatlh() -> (r: (u16, &'static str))
    ensures
        r.0 == 200,
        r.1@ == "Looking healthy"@,
{
    (200, "Looking healthy")
}

/// Create a new link under a caller-chosen identifier: the deterministic
/// core of creation, behaving exactly as `spec_create` says.
pub fn create_link_with_id(store: &mut LinkStore, id: String, req: &LinkTarget) -> (r: Result<
    Link,
    ApiError,
>)
    requires
        old(store).wf(),
    ensures
        final(store).wf(),
        ({
            let (res, m2) = spec_create(old(store).contents(), id@, req.target_url@);
            &&& final(store).contents() == m2
            &&& result_model(r) == res
        }),
{
    match validate_target(&req.target_url) {
        Err(e) => Err(e),
        Ok(url) => {
            let row = Link { id, target_url: url };
            let ret = row.duplicate();
            match store.insert(row) {
                Ok(()) => Ok(ret),
                Err(_) => Err(ApiError::DuplicateKey),
            }
        },
    }
}

/// Create a new link: validate and normalize the URL, then insert it under a
/// freshly generated identifier, regenerating on a collision a bounded
/// number of times before surfacing the duplicate. Succeeds whenever the URL
/// is well-formed and some drawn identifier is fresh; only the random draws
/// decide between success and the duplicate-key outcome, and a duplicate can
/// be reported only when a well-formed identifier already sits in the store
/// — on a store without one, a well-formed URL is always created.
pub fn create_link(store: &mut LinkStore, req: &LinkTarget) -> (r: Result<Link, ApiError>)
    requires
        old(store).wf(),
    ensures
        final(store).wf(),
        !url_valid(req.target_url@) ==> r == Err::<Link, ApiError>(ApiError::Validation)
            && *final(store) == *old(store),
        r matches Ok(l) ==> {
            &&& url_normal(req.target_url@) == Some(l.target_url@)
            &&& id_wf(l.id@)
            &&& !old(store).contents().contains_key(l.id@)
            &&& final(store).contents() == old(store).contents().insert(l.id@, l.target_url@)
        },
        r is Err ==> *final(store) == *old(store),
        url_valid(req.target_url@) ==> (r is Ok || r == Err::<Link, ApiError>(
            ApiError::DuplicateKey,
        )),
        r == Err::<Link, ApiError>(ApiError::DuplicateKey) ==> exists|k: Seq<char>|
            old(store).contents().contains_key(k) && id_wf(k),
{
    let url = match validate_target(&req.target_url) {
        Ok(u) => u,
        Err(e) => {
            return Err(e);
        },
    };
    let mut attempts: usize = 0;
    while attempts < CREATE_ATTEMPTS
        invariant
            store.wf(),
            *store == *old(store),
            url_normal(req.target_url@) == Some(url@),
            attempts > 0 ==> exists|k: Seq<char>|
                old(store).contents().contains_key(k) && id_wf(k),
        decreases CREATE_ATTEMPTS - attempts,
    {
        let id = generate_id();
        let row = Link { id, target_url: url.clone() };
        let ret = row.duplicate();
        match store.insert(row) {
            Ok(()) => {
                return Ok(ret);
            },
            Err(_) => {
                attempts += 1;
            },
        }
    }
    Err(ApiError::DuplicateKey)
}

/// Update the target of an existing link: validation exactly as in creation,
/// and an unknown identifier reported as not found — distinct from any
/// server failure. Behaves exactly as `spec_update` says.
pub fn update_link(store: &mut LinkStore, id: &String, req: &LinkTarget) -> (r: Result<
    Link,
    ApiError,
>)
    requires
        old(store).wf(),
    ensures
        final(store).wf(),
        ({
            let (res, m2) = spec_update(old(store).contents(), id@, req.target_url@);
            &&& final(store).contents() == m2
            &&& result_model(r) == res
        }),
{
    match validate_target(&req.target_url) {
        Err(e) => Err(e),
        Ok(url) => match store.update_target_url(id, &url) {
            Ok(l) => Ok(l),
            Err(_) => Err(ApiError::NotFound),
        },
    }
}

/// Serve a redirect: a temporary-redirect response to the stored target with
/// the bounded cache window, or not found for an identifier never created.
/// Behaves exactly as `spec_redirect` says.
pub fn redirect(store: &LinkStore, id: &String) -> (r: Result<RedirectResponse, ApiError>)
    requires
        store.wf(),
    ensures
        ({
            let res = spec_redirect(store.contents(), id@);
            match r {
                Ok(resp) => res == Ok::<Seq<char>, ApiError>(resp.location@) && resp.status == 307
                    && resp.cache_control@ == spec_cache_control(),
                Err(e) => res == Err::<Seq<char>, ApiError>(e),
            }
        }),
{
    match store.fetch_by_id(id) {
        Some(l) => Ok(
            RedirectResponse {
                status: 307,
                location: l.target_url,
                cache_control: cache_control_value().to_owned(),
            },
        ),
        None => Err(ApiError::NotFound),
    }
}

} // verus!
