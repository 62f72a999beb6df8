//! The session subsystem end to end: sealing, opening, tampering, deadlines,
//! namespaces, logout and login, through the real cookie crate.

use tagify::errors::DBError;
use tagify::handlers;
use tagify::my_cookie_policy::{CookiePair, CookieValue, MyCookieIdentityPolicy, SameSite};
use tagify::my_identity_service::{Identity, IdentityItem, IdentityService, login_user};
use tagify::user_models::{LoginData, User};

const MASTER: &[u8] = b"an-example-master-secret-of-32b!";
const NOW: u64 = 1_600_000_000;

fn structured_policy(name: &str) -> MyCookieIdentityPolicy {
    MyCookieIdentityPolicy::new(MASTER)
        .name(name)
        .path("/")
        .secure(true)
        .max_age(30 * 24 * 60 * 60)
        .same_site(SameSite::Strict)
        .login_deadline(3600)
        .visit_deadline(600)
}

fn legacy_policy(name: &str) -> MyCookieIdentityPolicy {
    MyCookieIdentityPolicy::new(MASTER).name(name).path("/").secure(true)
}

fn alice(role: &str) -> User {
    let mut u = User {
        id: 7,
        username: "alice".to_string(),
        nickname: "al".to_string(),
        password: "wonderland".to_string(),
        role: role.to_string(),
    };
    tagify::user_models::Hash::hash_password(&mut u).expect("hashing failed");
    u
}

#[test]
fn round_trip_structured() {
    let p = structured_policy("user");
    let payload = CookieValue {
        identity: "alice".to_string(),
        login_timestamp: Some(NOW - 10),
        visit_timestamp: Some(NOW - 5),
    };
    let cookie = p.set_cookie(Some(&payload), "user");
    assert_eq!(cookie.name, "user");
    assert_eq!(cookie.path, "/");
    assert!(cookie.secure);
    assert!(cookie.http_only);
    assert_eq!(cookie.max_age, Some(30 * 24 * 60 * 60));
    assert!(!cookie.expires_in_past);
    let opened = p.open_value(&cookie.value, NOW).expect("round trip failed");
    assert_eq!(opened.identity, "alice");
    assert_eq!(opened.login_timestamp, Some(NOW - 10));
    assert_eq!(opened.visit_timestamp, Some(NOW - 5));
}

#[test]
fn round_trip_is_idempotent_under_resealing() {
    let p = structured_policy("user");
    let payload = CookieValue {
        identity: "alice".to_string(),
        login_timestamp: Some(NOW - 10),
        visit_timestamp: Some(NOW - 5),
    };
    let first = p.set_cookie(Some(&payload), "user");
    let opened = p.open_value(&first.value, NOW).expect("first open failed");
    let second = p.set_cookie(Some(&opened), "user");
    let reopened = p.open_value(&second.value, NOW).expect("second open failed");
    assert_eq!(reopened.identity, "alice");
    assert_eq!(reopened.login_timestamp, Some(NOW - 10));
    assert_eq!(reopened.visit_timestamp, Some(NOW - 5));
}

#[test]
fn round_trip_legacy() {
    let p = legacy_policy("user");
    let payload = CookieValue {
        identity: "alice".to_string(),
        login_timestamp: None,
        visit_timestamp: None,
    };
    let cookie = p.set_cookie(Some(&payload), "user");
    let opened = p.open_value(&cookie.value, NOW).expect("legacy round trip failed");
    assert_eq!(opened.identity, "alice");
    assert_eq!(opened.login_timestamp, None);
    assert_eq!(opened.visit_timestamp, None);
}

#[test]
fn tampering_any_character_is_rejected() {
    let p = structured_policy("user");
    let payload = CookieValue {
        identity: "alice".to_string(),
        login_timestamp: Some(NOW - 10),
        visit_timestamp: Some(NOW - 5),
    };
    let cookie = p.set_cookie(Some(&payload), "user");
    let chars: Vec<char> = cookie.value.chars().collect();
    for i in 0..chars.len() {
        let mut mutated = chars.clone();
        mutated[i] = if mutated[i] == 'A' { 'B' } else { 'A' };
        let forged: String = mutated.into_iter().collect();
        if forged == cookie.value {
            continue;
        }
        assert!(
            p.open_value(&forged, NOW).is_none(),
            "mutated cookie at position {} was accepted",
            i
        );
    }
}

#[test]
fn legacy_cookie_still_decodes_when_no_deadline_is_active() {
    // Sealed under the legacy (bare-identity) form, with the legacy key.
    let sealer = legacy_policy("user");
    let payload = CookieValue {
        identity: "bob".to_string(),
        login_timestamp: None,
        visit_timestamp: None,
    };
    let cookie = sealer.set_cookie(Some(&payload), "user");

    // A separate instance over the same master secret still reads it.
    let reader = legacy_policy("user");
    let opened = reader.open_value(&cookie.value, NOW).expect("legacy cookie refused");
    assert_eq!(opened.identity, "bob");

    // Under an active deadline policy the bare form is not accepted.
    let strict = structured_policy("user");
    assert!(strict.open_value(&cookie.value, NOW).is_none());
}

#[test]
fn structured_cookie_is_accepted_under_legacy_policy() {
    // The opener tries the current key even where legacy decoding is allowed.
    let sealer = structured_policy("user");
    let payload = CookieValue {
        identity: "carol".to_string(),
        login_timestamp: Some(NOW),
        visit_timestamp: Some(NOW),
    };
    let cookie = sealer.set_cookie(Some(&payload), "user");
    let reader = legacy_policy("user");
    let opened = reader.open_value(&cookie.value, NOW).expect("structured cookie refused");
    assert_eq!(opened.identity, "carol");
}

#[test]
fn login_deadline_expiry() {
    let d = 3600;
    let p = MyCookieIdentityPolicy::new(MASTER).name("user").login_deadline(d);
    let stale = CookieValue {
        identity: "alice".to_string(),
        login_timestamp: Some(NOW - d - 1),
        visit_timestamp: None,
    };
    assert!(!p.validate(&stale, NOW));
    let fresh = CookieValue {
        identity: "alice".to_string(),
        login_timestamp: Some(NOW - d + 1),
        visit_timestamp: None,
    };
    assert!(p.validate(&fresh, NOW));
}

#[test]
fn visit_deadline_expiry() {
    let d = 600;
    let p = MyCookieIdentityPolicy::new(MASTER).name("user").visit_deadline(d);
    let stale = CookieValue {
        identity: "alice".to_string(),
        login_timestamp: None,
        visit_timestamp: Some(NOW - d - 1),
    };
    assert!(!p.validate(&stale, NOW));
    let fresh = CookieValue {
        identity: "alice".to_string(),
        login_timestamp: None,
        visit_timestamp: Some(NOW - d + 1),
    };
    assert!(p.validate(&fresh, NOW));
    // A timestamp a deadline asks for must be present.
    let missing = CookieValue {
        identity: "alice".to_string(),
        login_timestamp: None,
        visit_timestamp: None,
    };
    assert!(!p.validate(&missing, NOW));
}

#[test]
fn expired_cookie_is_refused_whole() {
    let p = structured_policy("user");
    let payload = CookieValue {
        identity: "alice".to_string(),
        login_timestamp: Some(NOW),
        visit_timestamp: Some(NOW),
    };
    let cookie = p.set_cookie(Some(&payload), "user");
    assert!(p.open_value(&cookie.value, NOW + 1).is_some());
    assert!(p.open_value(&cookie.value, NOW + 601).is_none());
}

#[test]
fn namespace_isolation() {
    let admin = structured_policy("admin");
    let user = structured_policy("user");
    let payload = CookieValue {
        identity: "root".to_string(),
        login_timestamp: Some(NOW),
        visit_timestamp: Some(NOW),
    };
    let admin_cookie = admin.set_cookie(Some(&payload), "admin");
    let jar = vec![CookiePair { name: "admin".to_string(), value: admin_cookie.value.clone() }];
    // The user-namespace middleware never reads the admin cookie.
    assert!(user.load(&jar, NOW).is_none());
    // The admin namespace reads its own.
    let opened = admin.load(&jar, NOW).expect("admin cookie refused by admin namespace");
    assert_eq!(opened.identity, "root");
}

#[test]
fn two_namespaces_in_one_browser() {
    let admin_service = IdentityService::new(structured_policy("admin"));
    let user_service = IdentityService::new(structured_policy("user"));

    let admin_cookie = login_user(&structured_policy("admin"), alice("admin"), NOW);
    let user_cookie = login_user(&structured_policy("user"), alice("user"), NOW);
    assert_eq!(admin_cookie.name, "admin");
    assert_eq!(user_cookie.name, "user");

    let jar = vec![
        CookiePair { name: "admin".to_string(), value: admin_cookie.value.clone() },
        CookiePair { name: "user".to_string(), value: user_cookie.value.clone() },
    ];
    let d1 = admin_service.begin_request(&jar, NOW + 1).expect("admin decode failed");
    assert_eq!(d1.identity, "alice");
    let d2 = user_service.begin_request(&jar, NOW + 1).expect("user decode failed");
    assert_eq!(d2.identity, "alice");

    // Only the admin cookie present: the user subtree stays unauthenticated.
    let admin_only = vec![CookiePair { name: "admin".to_string(), value: admin_cookie.value }];
    let refused = user_service.begin_request(&admin_only, NOW + 1).unwrap_err();
    assert_eq!(refused.status_code(), 401);
}

#[test]
fn logout_emits_clearing_cookie_and_old_cookie_stays_valid() {
    let p = structured_policy("user");
    let service = IdentityService::new(structured_policy("user"));
    let u = alice("user");
    let old_cookie = login_user(&p, u.clone(), NOW);

    // The handler logs out.
    let item = IdentityItem { user: Some(u), changed: false };
    let mut id = Identity::from_item(item);
    handlers::logout(&mut id);
    let item = id.into_item().expect("slot vanished");
    assert!(item.user.is_none());
    assert!(item.changed);

    // Finalizing emits the clearing form.
    let clearing = service
        .finalize(item, "user", None, NOW)
        .expect("logout attached no cookie");
    assert!(clearing.expires_in_past);

    // The pre-logout value is still cryptographically valid: the guarantee
    // is only that the client was told to drop it.
    assert!(p.open_value(&old_cookie.value, NOW + 1).is_some());
}

#[test]
fn login_scenario() {
    let p = structured_policy("user");
    let service = IdentityService::new(structured_policy("user"));
    let user = alice("user");
    let data = LoginData { username: "alice".to_string(), password: "wonderland".to_string() };

    let cookie = handlers::login(&data, Ok(user.clone()), &p, NOW).expect("login refused");
    assert_eq!(cookie.name, "user");

    // A follow-up request with that cookie decodes to alice and hydrates.
    let jar = vec![CookiePair { name: "user".to_string(), value: cookie.value }];
    let decoded = service.begin_request(&jar, NOW + 1).expect("decode failed");
    assert_eq!(decoded.identity, "alice");
    // The login deadline is active, so the decoded login timestamp is
    // carried along for the finalizing step.
    assert_eq!(decoded.login_timestamp, Some(NOW));
    let item = service.hydrate(Ok(user)).expect("hydrate failed");
    let hydrated = item.user.expect("no user in slot");
    assert_eq!(hydrated.username, "alice");
    assert_eq!(hydrated.nickname, "al");
}

#[test]
fn login_with_wrong_password_fails_as_auth() {
    let p = structured_policy("user");
    let user = alice("user");
    let data = LoginData { username: "alice".to_string(), password: "not-wonderland".to_string() };
    let e = handlers::login(&data, Ok(user), &p, NOW).unwrap_err();
    assert_eq!(e.status_code(), 401);
}

#[test]
fn login_store_errors_map_to_statuses() {
    let p = structured_policy("user");
    let data = LoginData { username: "alice".to_string(), password: "pw".to_string() };
    let e = handlers::login(&data, Err(DBError::PostgresError("no row".to_string())), &p, NOW)
        .unwrap_err();
    assert_eq!(e.status_code(), 401);
    let e = handlers::login(&data, Err(DBError::MapperError("bad row".to_string())), &p, NOW)
        .unwrap_err();
    assert_eq!(e.status_code(), 500);
    let e = handlers::login(&data, Err(DBError::BadArgs { err: "field".to_string() }), &p, NOW)
        .unwrap_err();
    assert_eq!(e.status_code(), 400);
}

#[test]
fn forged_cookie_of_valid_length_gets_401_not_500() {
    let p = structured_policy("user");
    let service = IdentityService::new(structured_policy("user"));
    let payload = CookieValue {
        identity: "alice".to_string(),
        login_timestamp: Some(NOW),
        visit_timestamp: Some(NOW),
    };
    let genuine = p.set_cookie(Some(&payload), "user");
    let forged: String =
        genuine.value.chars().map(|c| if c == 'Q' { 'R' } else { 'Q' }).collect();
    assert_eq!(forged.len(), genuine.value.len());
    let jar = vec![CookiePair { name: "user".to_string(), value: forged }];
    let e = service.begin_request(&jar, NOW).unwrap_err();
    assert_eq!(e.status_code(), 401);
}

#[test]
fn role_mismatch_is_permission_denied() {
    let admin_service = IdentityService::new(structured_policy("admin"));
    let e = admin_service.hydrate(Ok(alice("user"))).unwrap_err();
    assert_eq!(e.status_code(), 403);
}

#[test]
fn sliding_refresh_reseals_and_plain_policy_does_not() {
    let sliding = IdentityService::new(structured_policy("user"));
    let item = IdentityItem { user: Some(alice("user")), changed: false };
    let refreshed = sliding
        .finalize(item, "user", Some(NOW - 100), NOW)
        .expect("sliding policy attached no cookie");
    assert!(!refreshed.expires_in_past);
    let p = structured_policy("user");
    let opened = p.open_value(&refreshed.value, NOW).expect("refreshed cookie refused");
    assert_eq!(opened.visit_timestamp, Some(NOW));
    assert_eq!(opened.login_timestamp, Some(NOW - 100));

    let fixed = IdentityService::new(legacy_policy("user"));
    let item = IdentityItem { user: Some(alice("user")), changed: false };
    assert!(fixed.finalize(item, "user", None, NOW).is_none());
}

#[test]
fn accessor_reads_and_without_slot_stays_none() {
    let u = alice("user");
    let id = Identity::from_item(IdentityItem { user: Some(u), changed: false });
    let read = id.identity();
    assert_eq!(read.username, "alice");
    let send = handlers::get_user(&id);
    assert_eq!(send.username, "alice");
    assert_eq!(send.id, 7);

    let mut bare = Identity::without_slot();
    bare.logout();
    assert!(bare.into_item().is_none());
}
