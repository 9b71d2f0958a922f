use link_shortener::auth::authorize;
use link_shortener::deadline::resolve_store_call;
use link_shortener::deadline::StoreCallOutcome;
use link_shortener::deadline::STORE_DEADLINE_MS;
use link_shortener::errors::ApiError;
use link_shortener::errors::StoreError;
use link_shortener::handlers::cache_control_value;
use link_shortener::handlers::create_link;
use link_shortener::handlers::create_link_with_id;
use link_shortener::handlers::heatlh;
use link_shortener::handlers::redirect;
use link_shortener::handlers::update_link;
use link_shortener::ids::generate_id;
use link_shortener::ids::u32_to_decimal;
use link_shortener::store::Link;
use link_shortener::store::LinkStore;
use link_shortener::store::LinkTarget;
use link_shortener::urls::validate_target;

fn target(u: &str) -> LinkTarget {
    LinkTarget { target_url: u.to_string() }
}

#[test]
fn scenario_create_redirect_update_redirect() {
    let mut store = LinkStore::new();

    let created = create_link(&mut store, &target("https://example.com/page")).unwrap();
    assert_eq!(created.target_url, "https://example.com/page");

    let resp = redirect(&store, &created.id).unwrap();
    assert_eq!(resp.status, 307);
    assert_eq!(resp.location, "https://example.com/page");
    assert_eq!(
        resp.cache_control,
        "public, max-age=300, s-maxage=300, stale-while-revalidate=300, stale-if-error=300"
    );

    let updated = update_link(&mut store, &created.id, &target("https://example.org")).unwrap();
    assert_eq!(updated.id, created.id);
    assert_eq!(updated.target_url, "https://example.org/");

    let resp2 = redirect(&store, &created.id).unwrap();
    assert_eq!(resp2.status, 307);
    assert_eq!(resp2.location, "https://example.org/");
}

#[test]
fn create_returns_normalized_url_and_wellformed_id() {
    let mut store = LinkStore::new();
    let created = create_link(&mut store, &target("HTTPS://EXAMPLE.COM")).unwrap();
    assert_eq!(created.target_url, "https://example.com/");
    assert!(created.id.len() >= 2 && created.id.len() <= 14);
    for c in created.id.chars() {
        assert!(
            c.is_ascii_alphanumeric() || c == '-' || c == '_',
            "unexpected identifier character {c:?}"
        );
    }
}

#[test]
fn create_malformed_url_is_client_error_and_persists_nothing() {
    let mut store = LinkStore::new();
    let r = create_link(&mut store, &target("not-a-url"));
    assert_eq!(r.unwrap_err(), ApiError::Validation);
    assert_eq!(ApiError::Validation.status(), 422);

    // Nothing was persisted: no identifier redirects.
    let miss = redirect(&store, &"anything".to_string());
    assert_eq!(miss.unwrap_err(), ApiError::NotFound);
}

#[test]
fn redirect_unknown_id_is_not_found_not_server_error() {
    let store = LinkStore::new();
    let r = redirect(&store, &"never-created".to_string());
    let e = r.unwrap_err();
    assert_eq!(e, ApiError::NotFound);
    assert_eq!(e.status(), 404);
    assert!(e.status() < 500);
}

#[test]
fn duplicate_id_is_rejected_and_first_row_kept() {
    let mut store = LinkStore::new();
    let id = "fixed-id".to_string();
    let first = create_link_with_id(&mut store, id.clone(), &target("https://first.example/"));
    assert!(first.is_ok());

    let second = create_link_with_id(&mut store, id.clone(), &target("https://second.example/"));
    assert_eq!(second.unwrap_err(), ApiError::DuplicateKey);
    assert_eq!(ApiError::DuplicateKey.status(), 409);

    // The first row is intact, not silently overwritten.
    let resp = redirect(&store, &id).unwrap();
    assert_eq!(resp.location, "https://first.example/");
}

#[test]
fn update_unknown_id_is_not_found() {
    let mut store = LinkStore::new();
    let r = update_link(&mut store, &"missing".to_string(), &target("https://example.com/"));
    assert_eq!(r.unwrap_err(), ApiError::NotFound);
    assert_eq!(ApiError::NotFound.status(), 404);
}

#[test]
fn update_malformed_url_is_client_error() {
    let mut store = LinkStore::new();
    let created = create_link(&mut store, &target("https://example.com/")).unwrap();
    let r = update_link(&mut store, &created.id, &target("%%%"));
    assert_eq!(r.unwrap_err(), ApiError::Validation);

    // The stored target is unchanged.
    let resp = redirect(&store, &created.id).unwrap();
    assert_eq!(resp.location, "https://example.com/");
}

#[test]
fn repeated_update_is_idempotent() {
    let mut store = LinkStore::new();
    let created = create_link(&mut store, &target("https://example.com/")).unwrap();

    let u1 = update_link(&mut store, &created.id, &target("https://example.org/x")).unwrap();
    let r1 = redirect(&store, &created.id).unwrap();
    let u2 = update_link(&mut store, &created.id, &target("https://example.org/x")).unwrap();
    let r2 = redirect(&store, &created.id).unwrap();

    assert_eq!(u1.id, u2.id);
    assert_eq!(u1.target_url, u2.target_url);
    assert_eq!(r1.location, "https://example.org/x");
    assert_eq!(r2.location, "https://example.org/x");
}

#[test]
fn validate_target_normalizes_through_the_url_parser() {
    // Scheme and host are lowercased and a path slash is added: the result
    // differs from the input, so parsing really happened.
    let r = validate_target(&"HTTP://Example.Com".to_string()).unwrap();
    assert_eq!(r, "http://example.com/");

    let bad = validate_target(&"no scheme at all".to_string());
    assert_eq!(bad.unwrap_err(), ApiError::Validation);

    // A relative reference is not an absolute URL.
    let rel = validate_target(&"/just/a/path".to_string());
    assert_eq!(rel.unwrap_err(), ApiError::Validation);
}

#[test]
fn generated_ids_decode_to_a_32_bit_decimal() {
    for _ in 0..100 {
        let id = generate_id();
        assert!(id.len() >= 2 && id.len() <= 14);
        let bytes = base64::Engine::decode(&base64::engine::general_purpose::URL_SAFE_NO_PAD, &id)
            .expect("identifier is not unpadded URL-safe base64");
        let digits = String::from_utf8(bytes).expect("identifier does not decode to ASCII");
        let n: u64 = digits.parse().expect("identifier does not decode to a decimal");
        assert!(n <= u32::MAX as u64);
    }
}

#[test]
fn creates_on_a_fresh_store_succeed_with_distinct_ids() {
    // No identifier sits in an empty store, so each creation is owed
    // success, and every accepted identifier is distinct from the others.
    let mut store = LinkStore::new();
    let mut ids: Vec<String> = Vec::new();
    for i in 0..50 {
        let url = format!("https://example.com/page/{i}");
        let created = create_link(&mut store, &target(&url)).unwrap();
        assert!(!ids.contains(&created.id), "identifier handed out twice");
        let resp = redirect(&store, &created.id).unwrap();
        assert_eq!(resp.location, url);
        ids.push(created.id);
    }
}

#[test]
fn decimal_conversion_matches_expected_values() {
    assert_eq!(u32_to_decimal(0), "0");
    assert_eq!(u32_to_decimal(7), "7");
    assert_eq!(u32_to_decimal(10), "10");
    assert_eq!(u32_to_decimal(1234567890), "1234567890");
    assert_eq!(u32_to_decimal(4294967294), "4294967294");
}

#[test]
fn authorize_is_fail_closed() {
    let secret = "expected-secret".to_string();
    assert!(authorize(Some(&secret), &secret).is_ok());

    let wrong = "guess".to_string();
    let r = authorize(Some(&wrong), &secret);
    assert_eq!(r.unwrap_err(), ApiError::Unauthorized);
    assert_eq!(ApiError::Unauthorized.status(), 401);

    let missing = authorize(None, &secret);
    assert_eq!(missing.unwrap_err(), ApiError::Unauthorized);
}

#[test]
fn expired_store_call_resolves_to_timeout() {
    let r = resolve_store_call(StoreCallOutcome::Expired);
    let e = r.unwrap_err();
    assert_eq!(e, ApiError::TimedOut);
    assert_eq!(e.status(), 500);
    assert_eq!(STORE_DEADLINE_MS, 300);
}

#[test]
fn completed_store_calls_map_one_to_one() {
    let row = Link { id: "a".to_string(), target_url: "https://example.com/".to_string() };
    let ok = resolve_store_call(StoreCallOutcome::Completed(Ok(row))).unwrap();
    assert_eq!(ok.id, "a");

    let dup = resolve_store_call(StoreCallOutcome::Completed(Err(StoreError::DuplicateKey)));
    assert_eq!(dup.unwrap_err(), ApiError::DuplicateKey);

    let nf = resolve_store_call(StoreCallOutcome::Completed(Err(StoreError::NotFound)));
    assert_eq!(nf.unwrap_err(), ApiError::NotFound);

    let be = resolve_store_call(StoreCallOutcome::Completed(Err(StoreError::Backend)));
    assert_eq!(be.unwrap_err(), ApiError::StoreFailure);
}

#[test]
fn store_insert_fetch_update() {
    let mut store = LinkStore::new();
    assert!(store.fetch_by_id(&"k".to_string()).is_none());

    let row = Link { id: "k".to_string(), target_url: "https://example.com/".to_string() };
    assert!(store.insert(row).is_ok());

    let fetched = store.fetch_by_id(&"k".to_string()).unwrap();
    assert_eq!(fetched.id, "k");
    assert_eq!(fetched.target_url, "https://example.com/");

    let dup = Link { id: "k".to_string(), target_url: "https://other.example/".to_string() };
    assert_eq!(store.insert(dup).unwrap_err(), StoreError::DuplicateKey);

    let updated = store
        .update_target_url(&"k".to_string(), &"https://example.org/".to_string())
        .unwrap();
    assert_eq!(updated.id, "k");
    assert_eq!(updated.target_url, "https://example.org/");

    let missing = store.update_target_url(&"nope".to_string(), &"https://example.org/".to_string());
    assert_eq!(missing.unwrap_err(), StoreError::NotFound);
}

#[test]
fn health_and_messages() {
    let (status, body) = heatlh();
    assert_eq!(status, 200);
    assert_eq!(body, "Looking healthy");

    assert_eq!(ApiError::Validation.message(), "url malformed");
    assert_eq!(ApiError::NotFound.message(), "Not found fourhundreadandfour");
    assert_eq!(ApiError::TimedOut.message(), "internal error");
    assert_eq!(ApiError::StoreFailure.message(), "internal error");
    assert_eq!(ApiError::DuplicateKey.message(), "identifier already taken");
    assert_eq!(ApiError::Unauthorized.message(), "unauthorized");

    assert_eq!(
        cache_control_value(),
        "public, max-age=300, s-maxage=300, stale-while-revalidate=300, stale-if-error=300"
    );
}
