use gablet_auth::claims::VALIDATE_ACCOUNT;
use gablet_auth::mail::{validation_link_text, validation_mail};
use gablet_auth::models::{get_error_from_string, ErrorResult, LoginResult, SimpleResult};
use gablet_auth::password::{generate_password_hash, hash_password_with_cost, verify_password};
use gablet_auth::session::{PendingRegistration, SessionError, SessionService, TokenPair};
use gablet_auth::store::RefreshTokenStore;
use gablet_auth::token_issuer::TokenIssuer;
use gablet_auth::users::{NewUser, UserDirectory, UserLevel};

fn service() -> SessionService {
    let issuer = TokenIssuer::new("access-secret".to_string(), "refresh-secret".to_string());
    SessionService::new(issuer).with_hash_cost(4)
}

fn register(s: &mut SessionService, name: &str, email: &str, pw: &str, source: &str, now: u64) -> TokenPair {
    let pending = s.prepare_registration(name, email, pw, source, now).unwrap();
    s.complete_registration(&pending, true, now).unwrap()
}

fn records_of(s: &SessionService) -> Vec<(String, String, String)> {
    s.store
        .records()
        .into_iter()
        .map(|r| (r.refresh_token, r.username, r.source))
        .collect()
}

#[test]
fn register_then_login_scenario() {
    let mut s = service();
    let pending = s.prepare_registration("alice", "a@x.com", "pw1", "app", 1_000).unwrap();
    assert_eq!(pending.mail.to, "a@x.com");
    let pair = s.complete_registration(&pending, true, 1_000).unwrap();

    assert_eq!(s.users.len(), 1);
    let alice = s.users.find_user(Some("alice"), None).unwrap();
    assert!(!alice.verified);
    assert_eq!(alice.id, 1);
    assert_eq!(alice.level, UserLevel::User);
    let recs = records_of(&s);
    assert_eq!(recs.len(), 2);
    assert_eq!(recs[0], (pending.validate_token.clone(), "alice".to_string(), "validate".to_string()));
    assert_eq!(recs[1], (pair.refresh_token.clone(), "alice".to_string(), "app".to_string()));

    assert_eq!(s.login("alice", "wrong", "app", 2_000).unwrap_err(), SessionError::Unauthorized);
    assert_eq!(records_of(&s), recs);

    let fresh = s.login("alice", "pw1", "app", 2_000).unwrap();
    let after = records_of(&s);
    assert!(!after.iter().any(|r| r.0 == pair.refresh_token));
    assert_eq!(after.iter().filter(|r| r.1 == "alice" && r.2 == "app").count(), 1);
    assert!(after.contains(&(fresh.refresh_token.clone(), "alice".to_string(), "app".to_string())));
    assert!(after.contains(&(pending.validate_token.clone(), "alice".to_string(), "validate".to_string())));
    let claims = s.issuer.validate_auth(&fresh.access_token, "alice", "app", 2_001).unwrap();
    assert_eq!(claims.user_id, 1);
    assert_eq!(s.users.find_user(Some("alice"), None).unwrap().last_login, 2_000);
}

#[test]
fn login_by_email_and_unknown_user() {
    let mut s = service();
    register(&mut s, "alice", "a@x.com", "pw1", "app", 0);
    assert!(s.login("a@x.com", "pw1", "web", 5).is_ok());
    assert_eq!(s.login("nobody", "pw1", "web", 5).unwrap_err(), SessionError::Unauthorized);
}

#[test]
fn registration_conflicts_on_username_or_email() {
    let mut s = service();
    register(&mut s, "alice", "a@x.com", "pw1", "app", 0);
    assert_eq!(
        s.prepare_registration("alice", "other@x.com", "pw", "app", 1).unwrap_err(),
        SessionError::Conflict
    );
    assert_eq!(
        s.prepare_registration("bob", "a@x.com", "pw", "app", 1).unwrap_err(),
        SessionError::Conflict
    );
}

#[test]
fn failed_mail_delivery_stores_nothing() {
    let mut s = service();
    let pending = s.prepare_registration("alice", "a@x.com", "pw1", "app", 0).unwrap();
    assert_eq!(s.complete_registration(&pending, false, 0).unwrap_err(), SessionError::Internal);
    assert_eq!(s.users.len(), 0);
    assert_eq!(s.store.len(), 0);
}

#[test]
fn registration_completed_twice_conflicts() {
    let mut s = service();
    let pending = s.prepare_registration("alice", "a@x.com", "pw1", "app", 0).unwrap();
    s.complete_registration(&pending, true, 0).unwrap();
    assert_eq!(s.complete_registration(&pending, true, 0).unwrap_err(), SessionError::Conflict);
    assert_eq!(s.users.len(), 1);
    assert_eq!(s.store.len(), 2);
}

#[test]
fn refresh_rotates_the_token() {
    let mut s = service();
    let first = register(&mut s, "alice", "a@x.com", "pw1", "app", 0);
    let second = s.refresh(&first.refresh_token, "app", 10).unwrap();
    assert_ne!(second.refresh_token, first.refresh_token);
    assert_eq!(s.refresh(&first.refresh_token, "app", 11).unwrap_err(), SessionError::Unauthorized);
    let third = s.refresh(&second.refresh_token, "app", 12).unwrap();
    assert!(s.issuer.validate_auth(&third.access_token, "alice", "app", 12).is_ok());
}

#[test]
fn concurrent_refreshes_have_one_winner() {
    let mut s = service();
    let first = register(&mut s, "alice", "a@x.com", "pw1", "app", 0);
    let a = s.refresh(&first.refresh_token, "app", 10);
    let b = s.refresh(&first.refresh_token, "app", 10);
    assert!(a.is_ok());
    assert_eq!(b.unwrap_err(), SessionError::Unauthorized);
    let live = records_of(&s).into_iter().filter(|r| r.1 == "alice" && r.2 == "app").count();
    assert_eq!(live, 1);
}

#[test]
fn refresh_is_scoped_to_its_source() {
    let mut s = service();
    let pair = register(&mut s, "alice", "a@x.com", "pw1", "app", 0);
    assert_eq!(s.refresh(&pair.refresh_token, "web", 1).unwrap_err(), SessionError::Unauthorized);
    assert_eq!(s.refresh("garbage", "app", 1).unwrap_err(), SessionError::Unauthorized);
}

#[test]
fn expired_refresh_token_is_refused() {
    let mut s = service();
    let pair = register(&mut s, "alice", "a@x.com", "pw1", "app", 0);
    assert_eq!(
        s.refresh(&pair.refresh_token, "app", 604800).unwrap_err(),
        SessionError::Unauthorized
    );
}

#[test]
fn refresh_for_a_vanished_user_is_not_found() {
    let mut s = service();
    let issuer_refresh = s.issuer.get_refresh_token("ghost", 0, 0).unwrap();
    s.store.save(&issuer_refresh, "ghost", "app", true);
    assert_eq!(s.refresh(&issuer_refresh, "app", 1).unwrap_err(), SessionError::NotFound);
}

#[test]
fn validate_account_succeeds_once() {
    let mut s = service();
    let pending = s.prepare_registration("alice", "a@x.com", "pw1", "app", 0).unwrap();
    s.complete_registration(&pending, true, 0).unwrap();
    s.validate_account(&pending.validate_token, "alice", 5).unwrap();
    assert!(s.users.find_user(Some("alice"), None).unwrap().verified);
    assert!(!records_of(&s).iter().any(|r| r.0 == pending.validate_token));
    assert_eq!(
        s.validate_account(&pending.validate_token, "alice", 6).unwrap_err(),
        SessionError::Unauthorized
    );
}

#[test]
fn validate_with_wrong_audience_scenario() {
    let mut s = service();
    let pair = register(&mut s, "alice", "a@x.com", "pw1", "app", 0);
    assert_eq!(
        s.validate_account(&pair.access_token, "alice", 5).unwrap_err(),
        SessionError::Unauthorized
    );
    assert!(!s.users.find_user(Some("alice"), None).unwrap().verified);
    assert_eq!(s.store.len(), 2);
}

#[test]
fn validate_for_another_user_is_refused() {
    let mut s = service();
    let pending = s.prepare_registration("alice", "a@x.com", "pw1", "app", 0).unwrap();
    s.complete_registration(&pending, true, 0).unwrap();
    assert_eq!(
        s.validate_account(&pending.validate_token, "bob", 5).unwrap_err(),
        SessionError::Unauthorized
    );
}

#[test]
fn validate_when_already_verified_or_absent() {
    let mut s = service();
    let pending = s.prepare_registration("alice", "a@x.com", "pw1", "app", 0).unwrap();
    s.complete_registration(&pending, true, 0).unwrap();
    let second = s.issuer.get_validate_token("alice", 1).unwrap();
    s.store.save(&second, "alice", VALIDATE_ACCOUNT, false);
    s.validate_account(&pending.validate_token, "alice", 5).unwrap();
    assert_eq!(s.validate_account(&second, "alice", 6).unwrap_err(), SessionError::AlreadyVerified);

    let orphan = s.issuer.get_validate_token("nobody", 1).unwrap();
    s.store.save(&orphan, "nobody", VALIDATE_ACCOUNT, false);
    assert_eq!(s.validate_account(&orphan, "nobody", 6).unwrap_err(), SessionError::NotFound);
}

#[test]
fn logout_deletes_the_refresh_token() {
    let mut s = service();
    let pair = register(&mut s, "alice", "a@x.com", "pw1", "app", 0);
    assert_eq!(s.logout("bad.token.here", &pair.refresh_token, 1).unwrap_err(), SessionError::Unauthorized);
    assert_eq!(s.store.len(), 2);
    s.logout(&pair.access_token, &pair.refresh_token, 1).unwrap();
    assert_eq!(s.store.len(), 1);
    s.logout(&pair.access_token, &pair.refresh_token, 2).unwrap();
    assert_eq!(s.store.len(), 1);
    assert_eq!(
        s.logout(&pair.access_token, &pair.refresh_token, 3600).unwrap_err(),
        SessionError::Unauthorized
    );
}

#[test]
fn validation_mail_carries_encoded_link() {
    let link = validation_link_text("http://h/validate", "a.b+c", "bo b");
    assert_eq!(link, "http://h/validate?token=a.b%2Bc&username=bo%20b");
    let mail = validation_mail("http://h/validate", "x@y.z", "t~_-", "é");
    assert_eq!(mail.to, "x@y.z");
    assert_eq!(mail.subject, "Validate Gablet Account");
    assert_eq!(mail.text_body, "http://h/validate?token=t~_-&username=%C3%A9");
    assert_eq!(
        mail.html_body,
        "<a href=\"http://h/validate?token=t~_-&username=%C3%A9\">Validate Account</a>"
    );
}

#[test]
fn pending_registration_mail_links_to_the_configured_page() {
    let s = service().with_validate_url("https://example.org/v");
    let pending: PendingRegistration = s.prepare_registration("alice", "a@x.com", "pw1", "app", 0).unwrap();
    assert!(pending.mail.text_body.starts_with("https://example.org/v?token="));
    assert!(pending.mail.text_body.ends_with("&username=alice"));
    assert!(s.issuer.check_validate_token(&pending.validate_token, "alice", 1).is_ok());
}

#[test]
fn password_hash_and_verify() {
    let hash = hash_password_with_cost("hunter2", 4).unwrap();
    assert!(hash.starts_with("$2b$04$"));
    assert!(verify_password("hunter2", &hash));
    assert!(!verify_password("hunter3", &hash));
    assert!(!verify_password("hunter2", "not a hash"));
}

#[test]
fn default_cost_hash() {
    let hash = generate_password_hash("hunter2").unwrap();
    assert!(hash.starts_with("$2b$12$"));
}

#[test]
fn new_user_is_unverified_plain_user() {
    let user = NewUser::new("u", "pw", "u@x");
    assert_eq!(user.username, "u");
    assert_eq!(user.email, "u@x");
    assert!(user.password.starts_with("$2b$12$"));
    assert!(!user.verified);
    assert_eq!(user.level, UserLevel::User);
}

#[test]
fn password_hash_fails_on_bad_cost() {
    let mut s = service().with_hash_cost(99);
    assert_eq!(
        s.prepare_registration("alice", "a@x.com", "pw1", "app", 0).unwrap_err(),
        SessionError::Internal
    );
    assert_eq!(s.users.len(), 0);
    let mut n = NewUser {
        username: "u".to_string(),
        password: "stored".to_string(),
        email: "u@x".to_string(),
        name: String::new(),
        verified: false,
        level: UserLevel::User,
    };
    let before = n.password.clone();
    assert!(!n.set_password("other", 99));
    assert_eq!(n.password, before);
    assert!(n.set_password("other", 4));
    assert!(n.verify_password("other"));
    let _ = &mut s;
}

#[test]
fn store_operations() {
    let mut store = RefreshTokenStore::new();
    store.save("t1", "alice", "app", false);
    store.save("t2", "alice", "app", false);
    store.save("t3", "alice", "web", false);
    store.save("t4", "bob", "app", false);
    assert_eq!(store.len(), 4);
    assert_eq!(store.find("t2", "app").unwrap().username, "alice");
    assert!(store.find("t2", "web").is_none());
    store.save("t5", "alice", "app", true);
    let names: Vec<String> = store.records().into_iter().map(|r| r.refresh_token).collect();
    assert_eq!(names, vec!["t3", "t4", "t5"]);
    store.delete("t4");
    store.delete("missing");
    let names: Vec<String> = store.records().into_iter().map(|r| r.refresh_token).collect();
    assert_eq!(names, vec!["t3", "t5"]);
    store.delete_all("alice", "web");
    assert_eq!(store.len(), 1);
}

#[test]
fn directory_operations() {
    let mut d = UserDirectory::new();
    let n = NewUser {
        username: "a".to_string(),
        password: "h".to_string(),
        email: "a@x".to_string(),
        name: String::new(),
        verified: false,
        level: UserLevel::Admin,
    };
    let u = d.insert(&n, 9).unwrap();
    assert_eq!(u.id, 1);
    assert_eq!(u.created, 9);
    assert!(u.enabled);
    assert_eq!(d.peek_next_id(), 2);
    assert!(d.find_user(None, Some("a@x")).is_some());
    assert!(d.find_user(None, None).is_none());
    let mut v = u.copy();
    v.verified = true;
    d.update(&v);
    assert!(d.find_user(Some("a"), None).unwrap().verified);
    assert_eq!(UserLevel::Admin.as_str(), "admin");
    assert_eq!(UserLevel::Superuser.to_string(), "superuser");
    assert_eq!(UserLevel::Mod.as_str(), "mod");
}

#[test]
fn error_bodies() {
    let e = ErrorResult::from_session_error(SessionError::Unauthorized);
    assert_eq!(e.error_code, 401);
    assert_eq!(e.error_message, "Invalid username, password or token");
    assert_eq!(ErrorResult::from_session_error(SessionError::Conflict).error_code, 409);
    assert_eq!(ErrorResult::from_session_error(SessionError::NotFound).error_code, 404);
    assert_eq!(ErrorResult::from_session_error(SessionError::AlreadyVerified).error_code, 409);
    let internal = ErrorResult::from_session_error(SessionError::Internal);
    assert_eq!(internal.error_code, 500);
    assert_eq!(internal.error_message, "Internal server error");
    let custom = get_error_from_string(418, "teapot".to_string());
    assert_eq!(custom.error_code, 418);
    assert!(custom.stack_trace.is_none());
}

#[test]
fn login_result_shapes() {
    let ok = LoginResult::new("a".to_string(), "r".to_string());
    assert_eq!(ok.access_token.as_deref(), Some("a"));
    assert!(ok.error.is_none());
    let err = LoginResult::error(get_error_from_string(401, "no".to_string()));
    assert!(err.access_token.is_none());
    assert_eq!(err.error.unwrap().error_code, 401);
    let from = LoginResult::from_outcome(Err(SessionError::Conflict));
    assert_eq!(from.error.unwrap().error_message, "Username or email already in use");
    let simple = SimpleResult::from_error("bad".to_string(), 400);
    assert_eq!(simple.status_code, Some(400));
    assert_eq!(SimpleResult::from_status(200).error_msg, None);
}

#[test]
fn cancellation_flag_is_shared() {
    let mut source = gablet_auth::cancellation_token::CancellationSource::new();
    let token = source.token();
    assert!(!token.is_cancellation_requested());
    source.request_cancellation();
    assert!(token.is_cancellation_requested());
    assert!(token.clone().is_cancellation_requested());
}

#[test]
fn postgres_connection_url() {
    let p = gablet_auth::models::Postgres {
        username: "u".to_string(),
        password: "p".to_string(),
        db: "gablet".to_string(),
        host: "db.local".to_string(),
        port: 5432,
    };
    assert_eq!(gablet_auth::models::get_postgres_connection(&p), "postgres://u:p@db.local:5432/gablet");
    assert_eq!(gablet_auth::models::decimal_text(0), "0");
    assert_eq!(gablet_auth::models::decimal_text(65535), "65535");
    assert_eq!(gablet_auth::models::decimal_text(10), "10");
}

#[test]
fn current_user_reads_the_access_token() {
    let mut s = service();
    let pair = register(&mut s, "alice", "a@x.com", "pw1", "app", 0);
    assert_eq!(s.current_user(&pair.access_token, "alice", "app", 1).unwrap().username, "alice");
    assert_eq!(
        s.current_user(&pair.access_token, "alice", "web", 1).unwrap_err(),
        SessionError::Unauthorized
    );
    assert_eq!(
        s.current_user(&pair.refresh_token, "alice", "app", 1).unwrap_err(),
        SessionError::Unauthorized
    );
}

#[test]
fn pending_registration_from_a_hash_result() {
    let s = service();
    assert_eq!(
        s.pending_registration("alice", "a@x.com", None, "app", 0).unwrap_err(),
        SessionError::Internal
    );
    let p = s
        .pending_registration("alice", "a@x.com", Some("stored-hash".to_string()), "app", 7)
        .unwrap();
    assert_eq!(p.password_hash, "stored-hash");
    assert_eq!(p.source, "app");
    assert_eq!(s.issuer.check_validate_token(&p.validate_token, "alice", 8).unwrap().exp, 7 + 864000);
    assert!(p.mail.html_body.contains(&p.mail.text_body));
}

#[test]
fn hashing_cost_bounds_and_empty_hash() {
    assert!(hash_password_with_cost("pw", 3).is_none());
    assert!(hash_password_with_cost("pw", 32).is_none());
    let h = hash_password_with_cost("pw", 4).unwrap();
    assert!(verify_password("pw", &h));
    assert!(!verify_password("pw", ""));
    assert!(!verify_password("", ""));
}

#[test]
fn new_user_password_verifies() {
    let user = NewUser::new("u", "secret-pw", "u@x");
    assert_ne!(user.password, "secret-pw");
    assert!(user.verify_password("secret-pw"));
}

#[test]
fn refresh_in_the_same_second_rotates() {
    let mut s = service();
    let first = register(&mut s, "alice", "a@x.com", "pw1", "app", 0);
    let second = s.refresh(&first.refresh_token, "app", 0).unwrap();
    assert_ne!(second.refresh_token, first.refresh_token);
    assert_eq!(s.refresh(&first.refresh_token, "app", 0).unwrap_err(), SessionError::Unauthorized);
    let third = s.refresh(&second.refresh_token, "app", 0).unwrap();
    assert_ne!(third.refresh_token, second.refresh_token);
    let live: Vec<_> = records_of(&s).into_iter().filter(|r| r.1 == "alice" && r.2 == "app").collect();
    assert_eq!(live.len(), 1);
    assert_eq!(live[0].0, third.refresh_token);
}

#[test]
fn login_in_the_registration_second_replaces_its_token() {
    let mut s = service();
    let registered = register(&mut s, "alice", "a@x.com", "pw1", "app", 7);
    let logged_in = s.login("alice", "pw1", "app", 7).unwrap();
    assert_ne!(logged_in.refresh_token, registered.refresh_token);
    let live: Vec<_> = records_of(&s).into_iter().filter(|r| r.1 == "alice" && r.2 == "app").collect();
    assert_eq!(live.len(), 1);
    assert_eq!(live[0].0, logged_in.refresh_token);
    assert_eq!(s.next_jti, 2);
}
