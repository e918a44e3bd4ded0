//! The session flows: login, registration, refresh, logout and account
//! validation, each a fixed sequence of token, directory and table operations.
//!
//! A flow either ends with its changes made or fails with no change at all:
//! every fallible step (hashing, signing) comes before the first change.

use vstd::prelude::*;
use crate::claims::{expiry_after, VALIDATE_ACCOUNT};
use crate::models::CurrentUserResult;
use crate::mail::{validation_anchor, validation_link, validation_mail, MailMessage, VALIDATION_SUBJECT};
use crate::password::{bcrypt_accepts, hash_password_with_cost, DEFAULT_COST};
use crate::store::{
    drop_token, find_record, lemma_drop_session_keeps_absent, lemma_drop_token_absent,
    lemma_find_record_fields, lemma_saved_revoking, saved, session_count, RefreshTokenStore,
    TokenRecord,
};
use crate::token_issuer::{
    access_claims, access_token_text, auth_check, auth_claims_at, auth_numbers, auth_text, carries,
    lemma_refresh_claims_read_back, refresh_check, refresh_claims, refresh_numbers, refresh_text, refresh_token_text,
    validate_audience, validate_claims, TokenIssuer,
};
use crate::users::{
    by_name, lemma_by_name_has_name, level_name, lookup, replaced, NewUser, User, UserDirectory,
    UserLevel, UserRecord,
};

verus! {

/// Why a flow failed.
#[derive(Clone, Copy, Debug, PartialEq, Eq, Structural)]
pub enum SessionError {
    /// Bad credentials, or an invalid, expired, tampered or revoked token.
    Unauthorized,
    /// The username or email is already in use.
    Conflict,
    /// The account is absent where it was expected.
    NotFound,
    /// The account was validated before; not to be retried.
    AlreadyVerified,
    /// Signing, hashing, mail delivery or storage failed.
    Internal,
}

/// A freshly issued access token and refresh token.
#[derive(Clone, Debug)]
pub struct TokenPair {
    pub access_token: String,
    pub refresh_token: String,
}

/// A registration that has passed its checks and waits for its validation
/// mail to be delivered; nothing of it is stored yet.
#[derive(Clone, Debug)]
pub struct PendingRegistration {
    pub username: String,
    pub email: String,
    pub password_hash: String,
    pub source: String,
    pub validate_token: String,
    pub mail: MailMessage,
}

/// The state the flows act on: the issuer and its keys, the refresh-token
/// table, the user directory, the password work factor, the page that
/// validation links point to, and the number the next refresh token carries.
pub struct SessionService {
    pub issuer: TokenIssuer,
    pub store: RefreshTokenStore,
    pub users: UserDirectory,
    pub hash_cost: u32,
    pub validate_url: String,
    pub next_jti: u64,
}

/// The directory, the table and the token counter are as they were.
pub open spec fn unchanged(before: &SessionService, after: &SessionService) -> bool {
    &&& after.store@ == before.store@
    &&& after.users@ == before.users@
    &&& after.users.next_id() == before.users.next_id()
    &&& after.next_jti == before.next_jti
}

/// The token counter after one refresh token has been issued.
pub open spec fn jti_after(jti: u64) -> u64 {
    if jti == u64::MAX {
        0
    } else {
        (jti + 1) as u64
    }
}

/// A pair issued at `now` for `user` on `source`: the access token carries the
/// user's name, id and role scoped to `source`; the refresh token carries the
/// user's name and the number `jti`. Both are the tokens the issuer signs for
/// those claims.
pub open spec fn issued_pair(
    issuer: &TokenIssuer,
    pair: TokenPair,
    user: UserRecord,
    source: Seq<char>,
    now: u64,
    jti: u64,
) -> bool {
    let access = access_claims(
        user.username,
        user.id,
        level_name(user.level),
        source,
        now,
        issuer.access_ttl,
    );
    let refresh = refresh_claims(user.username, now, issuer.refresh_ttl, jti);
    &&& pair.access_token@ == access_token_text(
        issuer,
        user.username,
        user.id,
        level_name(user.level),
        source,
        now,
    )
    &&& pair.refresh_token@ == refresh_token_text(issuer, user.username, now, jti)
    &&& carries(pair.access_token@, issuer.auth_secret@, auth_text(access), auth_numbers(access))
    &&& carries(
        pair.refresh_token@,
        issuer.refresh_secret@,
        refresh_text(refresh),
        refresh_numbers(refresh),
    )
}

/// The account a login with these credentials is for, or why it is refused;
/// an unknown account and a wrong password are refused alike.
pub open spec fn login_outcome(users: Seq<UserRecord>, login: Seq<char>, password: Seq<char>) -> Result<
    UserRecord,
    SessionError,
> {
    match lookup(users, Some(login), Some(login)) {
        None => Err(SessionError::Unauthorized),
        Some(u) => if bcrypt_accepts(password, u.password) {
            Ok(u)
        } else {
            Err(SessionError::Unauthorized)
        },
    }
}

/// The account a refresh with `token` on `source` is for, or why it is
/// refused: the token must be live in the table for that source and carry,
/// unexpired, the username of its record, whose account must still exist.
pub open spec fn refresh_outcome(
    store: Seq<TokenRecord>,
    users: Seq<UserRecord>,
    secret: Seq<u8>,
    token: Seq<char>,
    source: Seq<char>,
    now: u64,
) -> Result<UserRecord, SessionError> {
    match find_record(store, token, source) {
        None => Err(SessionError::Unauthorized),
        Some(rec) => if refresh_check(token, secret, rec.username, now) is Err {
            Err(SessionError::Unauthorized)
        } else {
            match by_name(users, rec.username) {
                None => Err(SessionError::NotFound),
                Some(u) => Ok(u),
            }
        },
    }
}

/// The account a validation with `token` for `username` is for, or why it is
/// refused: the token must be a validation token for that user, unexpired and
/// still live in the table; the account must exist and not be validated yet.
pub open spec fn validate_outcome(
    store: Seq<TokenRecord>,
    users: Seq<UserRecord>,
    secret: Seq<u8>,
    token: Seq<char>,
    username: Seq<char>,
    now: u64,
) -> Result<UserRecord, SessionError> {
    if auth_check(token, secret, username, validate_audience(), now) is Err {
        Err(SessionError::Unauthorized)
    } else if find_record(store, token, validate_audience()) is None {
        Err(SessionError::Unauthorized)
    } else {
        match by_name(users, username) {
            None => Err(SessionError::NotFound),
            Some(u) => if u.verified {
                Err(SessionError::AlreadyVerified)
            } else {
                Ok(u)
            },
        }
    }
}

/// The account that a completed registration stores.
pub open spec fn registered(p: PendingRegistration, id: i32, now: u64) -> UserRecord {
    UserRecord {
        id,
        username: p.username@,
        password: p.password_hash@,
        email: p.email@,
        name: Seq::empty(),
        verified: false,
        level: UserLevel::User,
        enabled: true,
        created: now,
        last_login: now,
    }
}

/// A pending registration of `username` at `email` from `source`, made at
/// `now`: its validation token is signed with the access key for the
/// validation audience, and its mail carries the link to the validation page.
pub open spec fn pending_for(
    service: &SessionService,
    p: PendingRegistration,
    username: Seq<char>,
    email: Seq<char>,
    source: Seq<char>,
    now: u64,
) -> bool {
    let claims = validate_claims(username, now, service.issuer.validate_ttl);
    &&& p.username@ == username
    &&& p.email@ == email
    &&& p.source@ == source
    &&& carries(p.validate_token@, service.issuer.auth_secret@, auth_text(claims), auth_numbers(claims))
    &&& p.mail.to@ == email
    &&& p.mail.subject@ == VALIDATION_SUBJECT@
    &&& p.mail.text_body@ == validation_link(service.validate_url@, p.validate_token@, username)
    &&& p.mail.html_body@ == validation_anchor(service.validate_url@, p.validate_token@, username)
}

/// The token counter after one refresh token has been issued.
pub fn next_jti_value(jti: u64) -> (r: u64)
    ensures
        r == jti_after(jti),
{
    if jti == u64::MAX {
        0
    } else {
        jti + 1
    }
}

/// The default page that validation links point to.
pub const DEFAULT_VALIDATE_URL: &'static str = "http://localhost:5173/validate";

impl SessionService {
    /// A service over an empty table and directory, with the default work
    /// factor and validation page.
    pub fn new(issuer: TokenIssuer) -> (r: SessionService)
        ensures
            r.issuer == issuer,
            r.store@ == Seq::<TokenRecord>::empty(),
            r.users@ == Seq::<UserRecord>::empty(),
            r.users.next_id() == 1,
            r.hash_cost == DEFAULT_COST,
            r.validate_url@ == DEFAULT_VALIDATE_URL@,
            r.next_jti == 0,
    {
        SessionService {
            issuer,
            store: RefreshTokenStore::new(),
            users: UserDirectory::new(),
            hash_cost: DEFAULT_COST,
            validate_url: DEFAULT_VALIDATE_URL.to_owned(),
            next_jti: 0,
        }
    }

    /// The same service with another password work factor.
    pub fn with_hash_cost(self, hash_cost: u32) -> (r: SessionService)
        ensures
            r.issuer == self.issuer,
            r.store@ == self.store@,
            r.users@ == self.users@,
            r.users.next_id() == self.users.next_id(),
            r.hash_cost == hash_cost,
            r.validate_url == self.validate_url,
            r.next_jti == self.next_jti,
    {
        SessionService { hash_cost, ..self }
    }

    /// The same service with another validation page.
    pub fn with_validate_url(self, validate_url: &str) -> (r: SessionService)
        ensures
            r.issuer == self.issuer,
            r.store@ == self.store@,
            r.users@ == self.users@,
            r.users.next_id() == self.users.next_id(),
            r.hash_cost == self.hash_cost,
            r.validate_url@ == validate_url@,
            r.next_jti == self.next_jti,
    {
        SessionService { validate_url: validate_url.to_owned(), ..self }
    }

    /// Issues an access token and refresh token number `jti` for `user` on
    /// `source`.
    fn issue_pair(&self, user: &User, source: &str, now: u64, jti: u64) -> (r: Result<
        TokenPair,
        SessionError,
    >)
        ensures
            r is Ok,
            r is Ok ==> issued_pair(&self.issuer, r->Ok_0, user@, source@, now, jti),
    {
        let access = match self.issuer.get_access_token(
            user.username.as_str(),
            user.id,
            user.level.as_str(),
            source,
            now,
        ) {
            Ok(t) => t,
            Err(_) => return Err(SessionError::Internal),
        };
        let refresh = match self.issuer.get_refresh_token(user.username.as_str(), now, jti) {
            Ok(t) => t,
            Err(_) => return Err(SessionError::Internal),
        };
        Ok(TokenPair { access_token: access, refresh_token: refresh })
    }

    /// Logs in with a username or email and a password on `source` at `now`.
    /// On success the session's earlier refresh tokens on `source` are revoked
    /// and replaced by the new one, and the account's last login is `now`. The
    /// new refresh token carries the next number of the counter, so it is not
    /// one already live; should it be, the login fails with `Internal` and
    /// changes nothing.
    pub fn login(&mut self, username_or_email: &str, password: &str, source: &str, now: u64) -> (r:
        Result<TokenPair, SessionError>)
        ensures
            final(self).issuer == old(self).issuer,
            match login_outcome(old(self).users@, username_or_email@, password@) {
                Err(e) => r == Err::<TokenPair, SessionError>(e) && unchanged(old(self), final(self)),
                Ok(u) => if find_record(
                    old(self).store@,
                    refresh_token_text(&old(self).issuer, u.username, now, old(self).next_jti),
                    source@,
                ) is Some {
                    r == Err::<TokenPair, SessionError>(SessionError::Internal) && unchanged(
                        old(self),
                        final(self),
                    )
                } else {
                    &&& r is Ok
                    &&& issued_pair(&old(self).issuer, r->Ok_0, u, source@, now, old(self).next_jti)
                    &&& find_record(old(self).store@, r->Ok_0.refresh_token@, source@) is None
                    &&& final(self).store@ == saved(
                        old(self).store@,
                        r->Ok_0.refresh_token@,
                        u.username,
                        source@,
                        true,
                    )
                    &&& final(self).users@ == replaced(
                        old(self).users@,
                        UserRecord { last_login: now, ..u },
                    )
                    &&& final(self).users.next_id() == old(self).users.next_id()
                    &&& final(self).next_jti == jti_after(old(self).next_jti)
                },
            },
    {
        let user = match self.users.find_user(Some(username_or_email), Some(username_or_email)) {
            None => return Err(SessionError::Unauthorized),
            Some(u) => u,
        };
        if !user.verify_password(password) {
            return Err(SessionError::Unauthorized);
        }
        let pair = self.issue_pair(&user, source, now, self.next_jti)?;
        if self.store.find(pair.refresh_token.as_str(), source).is_some() {
            return Err(SessionError::Internal);
        }
        self.store.save(pair.refresh_token.as_str(), user.username.as_str(), source, true);
        self.next_jti = next_jti_value(self.next_jti);
        let mut seen = user.copy();
        seen.last_login = now;
        self.users.update(&seen);
        Ok(pair)
    }

    /// Rotates the refresh token `token` on `source` at `now`: on success the
    /// session's earlier refresh tokens on `source`, `token` among them, are
    /// revoked in the same step as the new one is saved. The new refresh token
    /// carries the next number of the counter; it differs from `token` and is
    /// not already live on `source`; should it be either, the refresh fails
    /// with `Internal` and changes nothing.
    pub fn refresh(&mut self, token: &str, source: &str, now: u64) -> (r: Result<
        TokenPair,
        SessionError,
    >)
        ensures
            final(self).issuer == old(self).issuer,
            match refresh_outcome(
                old(self).store@,
                old(self).users@,
                old(self).issuer.refresh_secret@,
                token@,
                source@,
                now,
            ) {
                Err(e) => r == Err::<TokenPair, SessionError>(e) && unchanged(old(self), final(self)),
                Ok(u) => {
                    let fresh = refresh_token_text(
                        &old(self).issuer,
                        u.username,
                        now,
                        old(self).next_jti,
                    );
                    if fresh == token@ || find_record(old(self).store@, fresh, source@) is Some {
                        r == Err::<TokenPair, SessionError>(SessionError::Internal) && unchanged(
                            old(self),
                            final(self),
                        )
                    } else {
                        &&& r is Ok
                        &&& issued_pair(
                            &old(self).issuer,
                            r->Ok_0,
                            u,
                            source@,
                            now,
                            old(self).next_jti,
                        )
                        &&& r->Ok_0.refresh_token@ != token@
                        &&& find_record(old(self).store@, r->Ok_0.refresh_token@, source@) is None
                        &&& final(self).store@ == saved(
                            old(self).store@,
                            r->Ok_0.refresh_token@,
                            u.username,
                            source@,
                            true,
                        )
                        &&& final(self).users@ == old(self).users@
                        &&& final(self).users.next_id() == old(self).users.next_id()
                        &&& final(self).next_jti == jti_after(old(self).next_jti)
                    }
                },
            },
    {
        let record = match self.store.find(token, source) {
            None => return Err(SessionError::Unauthorized),
            Some(rec) => rec,
        };
        if self.issuer.validate_refresh(token, record.username.as_str(), now).is_err() {
            return Err(SessionError::Unauthorized);
        }
        let user = match self.users.find_user(Some(record.username.as_str()), None) {
            None => return Err(SessionError::NotFound),
            Some(u) => u,
        };
        let pair = self.issue_pair(&user, source, now, self.next_jti)?;
        if pair.refresh_token == token.to_owned() || self.store.find(
            pair.refresh_token.as_str(),
            source,
        ).is_some() {
            return Err(SessionError::Internal);
        }
        self.store.save(pair.refresh_token.as_str(), user.username.as_str(), source, true);
        self.next_jti = next_jti_value(self.next_jti);
        Ok(pair)
    }

    /// Logs out: the access token must be correctly signed and unexpired at
    /// `now`; then `refresh_token` is deleted, whether or not it was stored.
    pub fn logout(&mut self, access_token: &str, refresh_token: &str, now: u64) -> (r: Result<
        (),
        SessionError,
    >)
        ensures
            final(self).issuer == old(self).issuer,
            final(self).users@ == old(self).users@,
            final(self).users.next_id() == old(self).users.next_id(),
            auth_claims_at(access_token@, old(self).issuer.auth_secret@, now) is Err ==> r
                == Err::<(), SessionError>(SessionError::Unauthorized) && final(self).store@
                == old(self).store@,
            auth_claims_at(access_token@, old(self).issuer.auth_secret@, now) is Ok ==> r is Ok
                && final(self).store@ == drop_token(old(self).store@, refresh_token@),
    {
        if self.issuer.authenticate(access_token, now).is_err() {
            return Err(SessionError::Unauthorized);
        }
        self.store.delete(refresh_token);
        Ok(())
    }

    /// Validates the account `username` with the validation token `token` at
    /// `now`: the account is marked verified and the token deleted, so that it
    /// cannot be used again.
    pub fn validate_account(&mut self, token: &str, username: &str, now: u64) -> (r: Result<
        (),
        SessionError,
    >)
        ensures
            final(self).issuer == old(self).issuer,
            match validate_outcome(
                old(self).store@,
                old(self).users@,
                old(self).issuer.auth_secret@,
                token@,
                username@,
                now,
            ) {
                Err(e) => r == Err::<(), SessionError>(e) && unchanged(old(self), final(self)),
                Ok(u) => {
                    &&& r is Ok
                    &&& final(self).users@ == replaced(
                        old(self).users@,
                        UserRecord { verified: true, ..u },
                    )
                    &&& final(self).store@ == drop_token(old(self).store@, token@)
                    &&& final(self).users.next_id() == old(self).users.next_id()
                },
            },
    {
        if self.issuer.check_validate_token(token, username, now).is_err() {
            return Err(SessionError::Unauthorized);
        }
        proof {
            reveal_strlit("validate");
            assert(VALIDATE_ACCOUNT@ =~= validate_audience());
        }
        if self.store.find(token, VALIDATE_ACCOUNT).is_none() {
            return Err(SessionError::Unauthorized);
        }
        let mut user = match self.users.find_user(Some(username), None) {
            None => return Err(SessionError::NotFound),
            Some(u) => u,
        };
        if user.verified {
            return Err(SessionError::AlreadyVerified);
        }
        user.verified = true;
        self.users.update(&user);
        self.store.delete(token);
        Ok(())
    }

    /// The user an access token is for: the token must be correctly signed,
    /// unexpired at `now`, and issued to `username` for `source`.
    pub fn current_user(&self, access_token: &str, username: &str, source: &str, now: u64) -> (r:
        Result<CurrentUserResult, SessionError>)
        ensures
            match auth_check(access_token@, self.issuer.auth_secret@, username@, source@, now) {
                Ok(c) => r is Ok && r->Ok_0.username@ == c.sub,
                Err(_) => r == Err::<CurrentUserResult, SessionError>(SessionError::Unauthorized),
            },
    {
        match self.issuer.validate_auth(access_token, username, source, now) {
            Ok(claims) => Ok(CurrentUserResult { username: claims.username() }),
            Err(_) => Err(SessionError::Unauthorized),
        }
    }

    /// First step of a registration at `now`: refuses a username or email in
    /// use, hashes the password, and composes the pending registration with
    /// `pending_registration`. Nothing is stored; the registration is finished
    /// by `complete_registration` once the mail is delivered. The hash is salted
    /// at random, so only its failure is visible here, as `Internal`.
    pub fn prepare_registration(
        &self,
        username: &str,
        email: &str,
        password: &str,
        source: &str,
        now: u64,
    ) -> (r: Result<PendingRegistration, SessionError>)
        ensures
            lookup(self.users@, Some(username@), Some(email@)) is Some ==> r == Err::<
                PendingRegistration,
                SessionError,
            >(SessionError::Conflict),
            lookup(self.users@, Some(username@), Some(email@)) is None ==> match r {
                Ok(p) => pending_for(self, p, username@, email@, source@, now) && bcrypt_accepts(
                    password@,
                    p.password_hash@,
                ),
                Err(e) => e == SessionError::Internal,
            },
    {
        if self.users.find_user(Some(username), Some(email)).is_some() {
            return Err(SessionError::Conflict);
        }
        let password_hash = hash_password_with_cost(password, self.hash_cost);
        self.pending_registration(username, email, password_hash, source, now)
    }

    /// Composes a pending registration from the result of hashing the
    /// password: a failed hashing (`None`) gives `Internal`; a hash gives the
    /// registration with a fresh validation token and its mail.
    pub fn pending_registration(
        &self,
        username: &str,
        email: &str,
        password_hash: Option<String>,
        source: &str,
        now: u64,
    ) -> (r: Result<PendingRegistration, SessionError>)
        ensures
            match password_hash {
                None => r == Err::<PendingRegistration, SessionError>(SessionError::Internal),
                Some(h) => {
                    &&& r is Ok
                    &&& r->Ok_0.password_hash == h
                    &&& pending_for(self, r->Ok_0, username@, email@, source@, now)
                },
            },
    {
        let password_hash = match password_hash {
            Some(h) => h,
            None => return Err(SessionError::Internal),
        };
        let validate_token = match self.issuer.get_validate_token(username, now) {
            Ok(t) => t,
            Err(_) => return Err(SessionError::Internal),
        };
        let mail = validation_mail(
            self.validate_url.as_str(),
            email,
            validate_token.as_str(),
            username,
        );
        Ok(
            PendingRegistration {
                username: username.to_owned(),
                email: email.to_owned(),
                password_hash,
                source: source.to_owned(),
                validate_token,
                mail,
            },
        )
    }

    /// Second step of a registration at `now`, once the validation mail has
    /// or has not been delivered. Without delivery nothing is stored. With it,
    /// and while the username and email are still free, the unverified account
    /// is stored, the validation token is saved under the validation audience
    /// and a refresh token under the registration's source (neither revoking
    /// earlier records), and the new account is logged in.
    pub fn complete_registration(
        &mut self,
        pending: &PendingRegistration,
        mail_delivered: bool,
        now: u64,
    ) -> (r: Result<TokenPair, SessionError>)
        ensures
            final(self).issuer == old(self).issuer,
            !mail_delivered ==> r == Err::<TokenPair, SessionError>(SessionError::Internal)
                && unchanged(old(self), final(self)),
            mail_delivered && lookup(old(self).users@, Some(pending.username@), Some(pending.email@))
                is Some ==> r == Err::<TokenPair, SessionError>(SessionError::Conflict)
                && unchanged(old(self), final(self)),
            mail_delivered && lookup(old(self).users@, Some(pending.username@), Some(pending.email@))
                is None && old(self).users.next_id() == i32::MAX ==> r == Err::<
                TokenPair,
                SessionError,
            >(SessionError::Internal) && unchanged(old(self), final(self)),
            mail_delivered && lookup(old(self).users@, Some(pending.username@), Some(pending.email@))
                is None && old(self).users.next_id() != i32::MAX ==> {
                let u = registered(*pending, old(self).users.next_id(), now);
                &&& r is Ok
                &&& issued_pair(&old(self).issuer, r->Ok_0, u, pending.source@, now, old(self).next_jti)
                &&& final(self).next_jti == jti_after(old(self).next_jti)
                &&& final(self).users@ == old(self).users@.push(u)
                &&& final(self).users.next_id() == old(self).users.next_id() + 1
                &&& final(self).store@ == saved(
                    saved(
                        old(self).store@,
                        pending.validate_token@,
                        pending.username@,
                        validate_audience(),
                        false,
                    ),
                    r->Ok_0.refresh_token@,
                    pending.username@,
                    pending.source@,
                    false,
                )
            },
    {
        if !mail_delivered {
            return Err(SessionError::Internal);
        }
        if self.users.find_user(Some(pending.username.as_str()), Some(pending.email.as_str())).is_some() {
            return Err(SessionError::Conflict);
        }
        let id = self.users.peek_next_id();
        if id == i32::MAX {
            return Err(SessionError::Internal);
        }
        let new_user = NewUser {
            username: pending.username.clone(),
            password: pending.password_hash.clone(),
            email: pending.email.clone(),
            name: String::new(),
            verified: false,
            level: UserLevel::User,
        };
        let account = User {
            id,
            username: pending.username.clone(),
            password: pending.password_hash.clone(),
            email: pending.email.clone(),
            name: String::new(),
            verified: false,
            level: UserLevel::User,
            enabled: true,
            created: now,
            last_login: now,
        };
        let pair = self.issue_pair(&account, pending.source.as_str(), now, self.next_jti)?;
        let inserted = self.users.insert(&new_user, now);
        proof {
            reveal_strlit("validate");
            assert(VALIDATE_ACCOUNT@ =~= validate_audience());
            assert(inserted is Some);
            assert(inserted->Some_0@ == account@);
        }
        self.store.save(
            pending.validate_token.as_str(),
            pending.username.as_str(),
            VALIDATE_ACCOUNT,
            false,
        );
        self.store.save(
            pair.refresh_token.as_str(),
            pending.username.as_str(),
            pending.source.as_str(),
            false,
        );
        self.next_jti = next_jti_value(self.next_jti);
        Ok(pair)
    }
}

/// Rotation of refresh tokens. Where a refresh with `old_token` on `source`
/// succeeds at `now` and rotates it into a fresh `new_token` (a different
/// token, not yet in the table for `source`, issued at `now` for the same
/// user, as `SessionService::refresh` ensures of every token it returns), then in the table that results: presenting `old_token` again on
/// `source` is refused as unauthorized at any later time, so that of two
/// refreshes starting from the same token only the first succeeds; presenting
/// `new_token` succeeds, for the same user, until it expires; and the session
/// of that user on `source` has exactly one record, the one holding
/// `new_token`.
pub proof fn lemma_refresh_rotation(
    store: Seq<TokenRecord>,
    users: Seq<UserRecord>,
    secret: Seq<u8>,
    old_token: Seq<char>,
    source: Seq<char>,
    now: u64,
    new_token: Seq<char>,
    refresh_ttl: u64,
    jti: u64,
    later: u64,
)
    requires
        refresh_outcome(store, users, secret, old_token, source, now) is Ok,
        carries(
            new_token,
            secret,
            refresh_text(
                refresh_claims(
                    refresh_outcome(store, users, secret, old_token, source, now)->Ok_0.username,
                    now,
                    refresh_ttl,
                    jti,
                ),
            ),
            refresh_numbers(
                refresh_claims(
                    refresh_outcome(store, users, secret, old_token, source, now)->Ok_0.username,
                    now,
                    refresh_ttl,
                    jti,
                ),
            ),
        ),
        new_token != old_token,
        find_record(store, new_token, source) is None,
    ensures
        ({
            let u = refresh_outcome(store, users, secret, old_token, source, now)->Ok_0;
            let after = saved(store, new_token, u.username, source, true);
            &&& refresh_outcome(after, users, secret, old_token, source, later) == Err::<
                UserRecord,
                SessionError,
            >(SessionError::Unauthorized)
            &&& later < expiry_after(now, refresh_ttl) ==> refresh_outcome(
                after,
                users,
                secret,
                new_token,
                source,
                later,
            ) == Ok::<UserRecord, SessionError>(u)
            &&& session_count(after, u.username, source) == 1
            &&& find_record(after, new_token, source) == Some(
                TokenRecord { token: new_token, username: u.username, source },
            )
        }),
{
    let rec0 = find_record(store, old_token, source)->Some_0;
    let u = by_name(users, rec0.username)->Some_0;
    lemma_by_name_has_name(users, rec0.username);
    assert(u.username == rec0.username);
    let after = saved(store, new_token, u.username, source, true);
    let new_rec = TokenRecord { token: new_token, username: u.username, source };

    // The old token: whatever is still found for it belongs to another user,
    // and the old token names this user.
    lemma_saved_revoking(store, new_token, u.username, source, old_token);
    lemma_find_record_fields(after, old_token, source);
    if find_record(after, old_token, source) is Some {
        let r = find_record(after, old_token, source)->Some_0;
        assert(r.token == old_token);
        assert(r != new_rec);
        assert(r.username != u.username);
        assert(refresh_check(old_token, secret, r.username, later) is Err);
    }

    // The new token: the only record for it is the new one.
    let kept = crate::store::drop_session(store, u.username, source);
    lemma_drop_session_keeps_absent(store, u.username, new_token, source);
    assert(after.drop_last() =~= kept);
    assert(find_record(after, new_token, source) == Some(new_rec));
    let c = refresh_claims(u.username, now, refresh_ttl, jti);
    lemma_refresh_claims_read_back(c);

    lemma_saved_revoking(store, new_token, u.username, source, new_token);
}

/// Single use of a validation token. Where a validation with `token` for
/// `username` succeeds at `now`, then in the table and directory that result,
/// presenting the same token again is refused as unauthorized, at any time.
pub proof fn lemma_validate_once(
    store: Seq<TokenRecord>,
    users: Seq<UserRecord>,
    secret: Seq<u8>,
    token: Seq<char>,
    username: Seq<char>,
    now: u64,
    later: u64,
)
    requires
        validate_outcome(store, users, secret, token, username, now) is Ok,
    ensures
        ({
            let u = validate_outcome(store, users, secret, token, username, now)->Ok_0;
            validate_outcome(
                drop_token(store, token),
                replaced(users, UserRecord { verified: true, ..u }),
                secret,
                token,
                username,
                later,
            ) == Err::<UserRecord, SessionError>(SessionError::Unauthorized)
        }),
{
    lemma_drop_token_absent(store, token, validate_audience());
}

} // verus!
