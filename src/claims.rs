//! The claims that tokens carry, and the clock that sets their expiry.

use vstd::prelude::*;

verus! {

/// Audience reserved for account-validation tokens.
pub const VALIDATE_ACCOUNT: &'static str = "validate";

/// Cookie name under which the access token travels.
pub const ACCESS_TOKEN: &'static str = "access_token";

/// Cookie name under which the refresh token travels.
pub const REFRESH_TOKEN: &'static str = "refresh_token";

/// Lifetime of an access token, in seconds (one hour).
pub const ACCESS_EXPIRY: u64 = 3600;

/// Lifetime of a refresh token, in seconds (seven days).
pub const REFRESH_EXPIRY: u64 = 604800;

/// Lifetime of an account-validation token, in seconds (ten days).
pub const VALIDATE_EXPIRY: u64 = 864000;

/// The mathematical content of an access or validation token.
pub ghost struct AuthClaims {
    pub sub: Seq<char>,
    pub exp: u64,
    pub role: Seq<char>,
    pub aud: Seq<char>,
    pub user_id: i32,
}

/// The mathematical content of a refresh token.
pub ghost struct RefreshClaims {
    pub sub: Seq<char>,
    pub exp: u64,
    pub jti: u64,
}

/// Claims of an access token (and, with the validation audience, of an
/// account-validation token).
#[derive(Clone, Debug)]
pub struct AuthToken {
    pub sub: String,
    pub exp: u64,
    pub role: String,
    pub aud: String,
    pub user_id: i32,
}

impl View for AuthToken {
    type V = AuthClaims;

    open spec fn view(&self) -> AuthClaims {
        AuthClaims {
            sub: self.sub@,
            exp: self.exp,
            role: self.role@,
            aud: self.aud@,
            user_id: self.user_id,
        }
    }
}

/// The expiry of a token issued at `now` for `expires_in` seconds; it stays at
/// the largest timestamp where the sum would not fit.
pub open spec fn expiry_after(now: u64, expires_in: u64) -> u64 {
    if now as int + expires_in as int <= u64::MAX {
        (now + expires_in) as u64
    } else {
        u64::MAX
    }
}

/// The expiry of a token issued at `now` for `expires_in` seconds.
pub fn expiry_at(now: u64, expires_in: u64) -> (r: u64)
    ensures
        r == expiry_after(now, expires_in),
{
    match now.checked_add(expires_in) {
        Some(e) => e,
        None => u64::MAX,
    }
}

/// Relies on chrono's conversion from `std::time::SystemTime::now` to a UTC
/// date: the seconds since the Unix epoch, negative for a clock set before it.
/// Unlike `Utc::now`, the conversion does not panic on such a clock; it only
/// fails beyond chrono's range of some 262,000 years from the epoch, which a
/// system clock does not reach (Linux keeps it below the year 2262).
#[verifier::external_body]
fn utc_timestamp() -> (r: i64) {
    chrono::DateTime::<chrono::Utc>::from(std::time::SystemTime::now()).timestamp()
}

/// The current time in seconds since the Unix epoch; a clock set before the
/// epoch reads as zero.
pub fn current_timestamp() -> (r: u64) {
    let t = utc_timestamp();
    if t < 0 {
        0
    } else {
        t as u64
    }
}

impl AuthToken {
    /// Claims for `username`, issued now and valid for `expires_in` seconds.
    pub fn new(username: &str, user_id: i32, role: &str, aud: &str, expires_in: u64) -> (r:
        AuthToken)
        ensures
            r.sub@ == username@,
            r.user_id == user_id,
            r.role@ == role@,
            r.aud@ == aud@,
            r.exp >= expires_in,
    {
        AuthToken::issued_at(username, user_id, role, aud, current_timestamp(), expires_in)
    }

    /// Claims for `username`, issued at `now` and valid for `expires_in` seconds.
    pub fn issued_at(
        username: &str,
        user_id: i32,
        role: &str,
        aud: &str,
        now: u64,
        expires_in: u64,
    ) -> (r: AuthToken)
        ensures
            r@ == (AuthClaims {
                sub: username@,
                exp: expiry_after(now, expires_in),
                role: role@,
                aud: aud@,
                user_id,
            }),
    {
        AuthToken {
            sub: username.to_owned(),
            exp: expiry_at(now, expires_in),
            role: role.to_owned(),
            aud: aud.to_owned(),
            user_id,
        }
    }

    pub fn username(&self) -> (r: String)
        ensures
            r@ == self.sub@,
    {
        self.sub.clone()
    }

    pub fn user_id(&self) -> (r: i32)
        ensures
            r == self.user_id,
    {
        self.user_id
    }

    pub fn role(&self) -> (r: String)
        ensures
            r@ == self.role@,
    {
        self.role.clone()
    }
}

/// Claims of a refresh token. `jti` numbers the tokens a service issues, so
/// that two refresh tokens for one user issued in the same second differ.
#[derive(Clone, Debug)]
pub struct RefreshToken {
    pub sub: String,
    pub exp: u64,
    pub jti: u64,
}

impl View for RefreshToken {
    type V = RefreshClaims;

    open spec fn view(&self) -> RefreshClaims {
        RefreshClaims { sub: self.sub@, exp: self.exp, jti: self.jti }
    }
}

impl RefreshToken {
    /// Claims number `jti` for `username`, issued now and valid for
    /// `expires_in` seconds.
    pub fn new(username: &str, expires_in: u64, jti: u64) -> (r: RefreshToken)
        ensures
            r.sub@ == username@,
            r.exp >= expires_in,
            r.jti == jti,
    {
        RefreshToken::issued_at(username, current_timestamp(), expires_in, jti)
    }

    /// Claims number `jti` for `username`, issued at `now` and valid for
    /// `expires_in` seconds.
    pub fn issued_at(username: &str, now: u64, expires_in: u64, jti: u64) -> (r: RefreshToken)
        ensures
            r@ == (RefreshClaims { sub: username@, exp: expiry_after(now, expires_in), jti }),
    {
        RefreshToken { sub: username.to_owned(), exp: expiry_at(now, expires_in), jti }
    }

    /// Whether the token has not yet expired at `now`.
    pub fn valid_at(&self, now: u64) -> (r: bool)
        ensures
            r == (now < self.exp),
    {
        now < self.exp
    }

    /// Whether the token has not yet expired now.
    pub fn valid(&self) -> bool {
        self.valid_at(current_timestamp())
    }
}

} // verus!
