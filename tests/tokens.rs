use gablet_auth::claims::{AuthToken, RefreshToken, ACCESS_EXPIRY, REFRESH_EXPIRY, VALIDATE_EXPIRY};
use gablet_auth::claims::{current_timestamp, expiry_at};
use gablet_auth::jwt::split_at_last_dot;
use gablet_auth::token_issuer::{TokenError, TokenIssuer};

fn issuer() -> TokenIssuer {
    TokenIssuer::new("access-secret".to_string(), "refresh-secret".to_string())
}

#[test]
fn access_token_round_trip() {
    let issuer = issuer();
    let claims = AuthToken::issued_at("alice", 7, "user", "app", 1_000, ACCESS_EXPIRY);
    let jwt = issuer.get_auth(&claims).unwrap();
    let back = issuer.validate_auth(&jwt, "alice", "app", 1_000).unwrap();
    assert_eq!(back.sub, "alice");
    assert_eq!(back.user_id, 7);
    assert_eq!(back.role, "user");
    assert_eq!(back.aud, "app");
    assert_eq!(back.exp, 1_000 + 3600);
    assert_eq!(back.username(), "alice");
    assert_eq!(back.user_id(), 7);
    assert_eq!(back.role(), "user");
}

#[test]
fn access_token_expires_at_exp() {
    let issuer = issuer();
    let claims = AuthToken::issued_at("alice", 7, "user", "app", 1_000, 60);
    let jwt = issuer.get_auth(&claims).unwrap();
    assert!(issuer.validate_auth(&jwt, "alice", "app", 1_059).is_ok());
    assert_eq!(issuer.validate_auth(&jwt, "alice", "app", 1_060).unwrap_err(), TokenError::Expired);
    assert_eq!(issuer.validate_auth(&jwt, "alice", "app", 5_000).unwrap_err(), TokenError::Expired);
}

#[test]
fn refresh_token_round_trip_and_expiry() {
    let issuer = issuer();
    let claims = RefreshToken::issued_at("bob", 10, REFRESH_EXPIRY, 0);
    let jwt = issuer.get_refresh(&claims).unwrap();
    let back = issuer.validate_refresh(&jwt, "bob", 10).unwrap();
    assert_eq!(back.sub, "bob");
    assert_eq!(back.exp, 10 + 604800);
    assert_eq!(
        issuer.validate_refresh(&jwt, "bob", 10 + 604800).unwrap_err(),
        TokenError::Expired
    );
}

#[test]
fn subject_and_audience_mismatch_are_distinguished() {
    let issuer = issuer();
    let jwt = issuer.get_access_token("alice", 1, "admin", "web", 0).unwrap();
    assert_eq!(issuer.validate_auth(&jwt, "mallory", "web", 1).unwrap_err(), TokenError::SubjectMismatch);
    assert_eq!(issuer.validate_auth(&jwt, "alice", "app", 1).unwrap_err(), TokenError::AudienceMismatch);
    assert_eq!(issuer.validate_auth(&jwt, "alice", "web", 1).unwrap().role, "admin");
}

#[test]
fn tampered_signature_is_rejected() {
    let issuer = issuer();
    let jwt = issuer.get_access_token("alice", 1, "user", "app", 0).unwrap();
    let (message, signature) = split_at_last_dot(&jwt).unwrap();
    let mut chars: Vec<char> = signature.chars().collect();
    for i in [0, chars.len() / 2, chars.len() - 1] {
        let kept = chars[i];
        chars[i] = if kept == 'A' { 'B' } else { 'A' };
        let forged: String = chars.iter().collect();
        let tampered = format!("{}.{}", message, forged);
        assert_eq!(
            issuer.validate_auth(&tampered, "alice", "app", 1).unwrap_err(),
            TokenError::InvalidSignature
        );
        assert_eq!(issuer.authenticate(&tampered, 1).unwrap_err(), TokenError::InvalidSignature);
        chars[i] = kept;
    }
}

#[test]
fn keys_are_independent_per_kind() {
    let issuer = issuer();
    let refresh = issuer.get_refresh_token("alice", 0, 0).unwrap();
    assert_eq!(issuer.authenticate(&refresh, 1).unwrap_err(), TokenError::InvalidSignature);
    let access = issuer.get_access_token("alice", 1, "user", "app", 0).unwrap();
    assert_eq!(issuer.validate_refresh(&access, "alice", 1).unwrap_err(), TokenError::InvalidSignature);
    let other = TokenIssuer::new("another".to_string(), "refresh-secret".to_string());
    assert_eq!(other.authenticate(&access, 1).unwrap_err(), TokenError::InvalidSignature);
}

#[test]
fn malformed_tokens_are_rejected() {
    let issuer = issuer();
    assert_eq!(issuer.authenticate("no-dots-here", 0).unwrap_err(), TokenError::Malformed);
    assert_eq!(issuer.authenticate("", 0).unwrap_err(), TokenError::Malformed);
    assert_eq!(issuer.validate_refresh("a.b.c", "x", 0).unwrap_err(), TokenError::InvalidSignature);
}

#[test]
fn refresh_claims_lack_access_claims() {
    // A refresh token signed with the access key reads as malformed access claims.
    let same = TokenIssuer::new("k".to_string(), "k".to_string());
    let refresh = same.get_refresh_token("alice", 0, 0).unwrap();
    assert_eq!(same.authenticate(&refresh, 1).unwrap_err(), TokenError::Malformed);
}

#[test]
fn validate_token_has_validation_audience() {
    let issuer = issuer();
    let jwt = issuer.get_validate_token("carol", 100).unwrap();
    let claims = issuer.check_validate_token(&jwt, "carol", 101).unwrap();
    assert_eq!(claims.aud, "validate");
    assert_eq!(claims.role, "user");
    assert_eq!(claims.user_id, 0);
    assert_eq!(claims.exp, 100 + 864000);
    let access = issuer.get_access_token("carol", 3, "user", "app", 100).unwrap();
    assert_eq!(
        issuer.check_validate_token(&access, "carol", 101).unwrap_err(),
        TokenError::AudienceMismatch
    );
}

#[test]
fn configured_lifetimes_are_used() {
    let issuer = issuer().with_expiry(10, 20, 30);
    let a = issuer.get_access_token("d", 1, "user", "app", 5).unwrap();
    assert_eq!(issuer.authenticate(&a, 5).unwrap().exp, 15);
    let r = issuer.get_refresh_token("d", 5, 0).unwrap();
    assert_eq!(issuer.validate_refresh(&r, "d", 5).unwrap().exp, 25);
    let v = issuer.get_validate_token("d", 5).unwrap();
    assert_eq!(issuer.check_validate_token(&v, "d", 5).unwrap().exp, 35);
}

#[test]
fn default_lifetimes() {
    assert_eq!(ACCESS_EXPIRY, 3600);
    assert_eq!(REFRESH_EXPIRY, 604800);
    assert_eq!(VALIDATE_EXPIRY, 864000);
    let issuer = issuer();
    assert_eq!(issuer.access_ttl, 3600);
    assert_eq!(issuer.refresh_ttl, 604800);
    assert_eq!(issuer.validate_ttl, 864000);
}

#[test]
fn expiry_saturates_at_the_largest_timestamp() {
    assert_eq!(expiry_at(5, 10), 15);
    assert_eq!(expiry_at(u64::MAX - 1, 10), u64::MAX);
    let t = RefreshToken::issued_at("e", u64::MAX, 1, 0);
    assert_eq!(t.exp, u64::MAX);
    assert!(t.valid_at(u64::MAX - 1));
    assert!(!t.valid_at(u64::MAX));
}

#[test]
fn clock_based_constructors() {
    let before = current_timestamp();
    let t = AuthToken::new("f", 2, "mod", "app", 100);
    let r = RefreshToken::new("f", 100, 3);
    assert!(t.exp >= before + 100);
    assert!(r.exp >= before + 100);
    assert!(r.valid());
    assert_eq!(t.sub, "f");
}

#[test]
fn split_at_last_dot_splits_at_the_last_dot() {
    assert_eq!(
        split_at_last_dot("a.b.c"),
        Some(("a.b".to_string(), "c".to_string()))
    );
    assert_eq!(split_at_last_dot("abc."), Some(("abc".to_string(), "".to_string())));
    assert_eq!(split_at_last_dot("abc"), None);
}

#[test]
fn issued_tokens_have_three_segments() {
    let issuer = issuer();
    let jwt = issuer.get_access_token("alice", 1, "user", "app", 0).unwrap();
    assert_eq!(jwt.split('.').count(), 3);
    assert!(jwt.starts_with("eyJ"));
}

#[test]
fn signature_byte_changed_into_a_dot_is_rejected() {
    let issuer = issuer();
    let jwt = issuer.get_access_token("alice", 1, "user", "app", 0).unwrap();
    let refresh = issuer.get_refresh_token("alice", 0, 0).unwrap();
    for token in [jwt, refresh] {
        let (message, signature) = split_at_last_dot(&token).unwrap();
        let mut chars: Vec<char> = signature.chars().collect();
        for i in [0, chars.len() / 2, chars.len() - 1] {
            let kept = chars[i];
            chars[i] = '.';
            let forged: String = chars.iter().collect();
            let tampered = format!("{}.{}", message, forged);
            assert_eq!(issuer.authenticate(&tampered, 1).unwrap_err(), TokenError::InvalidSignature);
            assert_eq!(
                issuer.validate_refresh(&tampered, "alice", 1).unwrap_err(),
                TokenError::InvalidSignature
            );
            chars[i] = kept;
        }
    }
}

#[test]
fn equal_claims_give_equal_tokens() {
    let issuer = issuer();
    let a = AuthToken::issued_at("alice", 7, "user", "app", 1_000, 60);
    let b = AuthToken::issued_at("alice", 7, "user", "app", 1_000, 60);
    assert_eq!(issuer.get_auth(&a).unwrap(), issuer.get_auth(&b).unwrap());
    let c = AuthToken::issued_at("alice", 7, "user", "web", 1_000, 60);
    assert_ne!(issuer.get_auth(&a).unwrap(), issuer.get_auth(&c).unwrap());
    assert_eq!(
        issuer.get_refresh_token("bob", 5, 0).unwrap(),
        issuer.get_refresh(&RefreshToken::issued_at("bob", 5, REFRESH_EXPIRY, 0)).unwrap()
    );
}

#[test]
fn signature_segment_is_43_characters() {
    let issuer = issuer();
    let jwt = issuer.get_access_token("alice", 1, "user", "app", 0).unwrap();
    let (_, signature) = split_at_last_dot(&jwt).unwrap();
    assert_eq!(signature.chars().count(), 43);
}

#[test]
fn clock_reads_after_the_epoch() {
    assert!(current_timestamp() > 1_600_000_000);
}

#[test]
fn refresh_tokens_differ_by_number() {
    let issuer = issuer();
    let a = issuer.get_refresh_token("alice", 0, 1).unwrap();
    let b = issuer.get_refresh_token("alice", 0, 2).unwrap();
    assert_ne!(a, b);
    assert_eq!(issuer.validate_refresh(&b, "alice", 1).unwrap().jti, 2);
}

#[test]
fn header_naming_another_algorithm_is_refused() {
    let mut claims = serde_json::Map::new();
    claims.insert("sub".to_string(), serde_json::Value::from("alice"));
    claims.insert("role".to_string(), serde_json::Value::from("user"));
    claims.insert("aud".to_string(), serde_json::Value::from("app"));
    claims.insert("exp".to_string(), serde_json::Value::from(100u64));
    claims.insert("user_id".to_string(), serde_json::Value::from(1i64));
    let key = jsonwebtoken::EncodingKey::from_secret(b"access-secret");
    let hs384 = jsonwebtoken::encode(&jsonwebtoken::Header::new(jsonwebtoken::Algorithm::HS384), &claims, &key).unwrap();
    let (message, _) = split_at_last_dot(&hs384).unwrap();
    let signature = jsonwebtoken::crypto::sign(message.as_bytes(), &key, jsonwebtoken::Algorithm::HS256).unwrap();
    let forged = format!("{}.{}", message, signature);
    let issuer = issuer();
    assert_eq!(issuer.authenticate(&forged, 1).unwrap_err(), TokenError::InvalidAlgorithm);
    assert_eq!(issuer.authenticate(&hs384, 1).unwrap_err(), TokenError::InvalidSignature);
}
