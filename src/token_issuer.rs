//! Issuing and checking signed tokens of the three kinds.
//!
//! Access and validation tokens are signed with one secret, refresh tokens with
//! another, so that a leak of one key does not expose the other kind.

use vstd::prelude::*;
use crate::claims::{
    expiry_after, AuthClaims, AuthToken, RefreshClaims, RefreshToken, ACCESS_EXPIRY,
    REFRESH_EXPIRY, VALIDATE_ACCOUNT, VALIDATE_EXPIRY,
};
use crate::jwt::{
    claim_keys, empty_claims, encode_claims, get_signed, get_text, get_unsigned, header_is_hs256,
    hs256_header, hs256_signature, hs256_signature_len, lemma_split_joined,
    lemma_split_joined_dotted, payload_claims, put_signed, put_text, put_unsigned, read_claims,
    signature_matches, signed_token, split_at_last_dot, split_token, ClaimObject,
};

verus! {

/// Why a token was not accepted.
#[derive(Clone, Copy, Debug, PartialEq, Eq, Structural)]
pub enum TokenError {
    /// The token has no signature segment, or its payload does not hold the
    /// claims of its kind.
    Malformed,
    /// The signature does not match the signed part under the key.
    InvalidSignature,
    /// The header does not read, or names another algorithm than HS256.
    InvalidAlgorithm,
    /// The time of the check is at or after the expiry.
    Expired,
    /// The subject is not the expected one.
    SubjectMismatch,
    /// The audience is not the expected one.
    AudienceMismatch,
    /// The signing library could not produce a token; the signing used here
    /// does not fail, so issuing never reports it.
    Encoding,
}

pub open spec fn sub_key() -> Seq<char> {
    seq!['s', 'u', 'b']
}

pub open spec fn exp_key() -> Seq<char> {
    seq!['e', 'x', 'p']
}

pub open spec fn role_key() -> Seq<char> {
    seq!['r', 'o', 'l', 'e']
}

pub open spec fn aud_key() -> Seq<char> {
    seq!['a', 'u', 'd']
}

pub open spec fn jti_key() -> Seq<char> {
    seq!['j', 't', 'i']
}

pub open spec fn user_id_key() -> Seq<char> {
    seq!['u', 's', 'e', 'r', '_', 'i', 'd']
}

/// The string-valued claims of an access or validation token.
pub open spec fn auth_text(c: AuthClaims) -> Map<Seq<char>, Seq<char>> {
    Map::empty().insert(sub_key(), c.sub).insert(role_key(), c.role).insert(aud_key(), c.aud)
}

/// The integer-valued claims of an access or validation token.
pub open spec fn auth_numbers(c: AuthClaims) -> Map<Seq<char>, int> {
    Map::empty().insert(exp_key(), c.exp as int).insert(user_id_key(), c.user_id as int)
}

/// The string-valued claims of a refresh token.
pub open spec fn refresh_text(c: RefreshClaims) -> Map<Seq<char>, Seq<char>> {
    Map::empty().insert(sub_key(), c.sub)
}

/// The integer-valued claims of a refresh token.
pub open spec fn refresh_numbers(c: RefreshClaims) -> Map<Seq<char>, int> {
    Map::empty().insert(exp_key(), c.exp as int).insert(jti_key(), c.jti as int)
}

/// The access-token claims held by a payload, if it holds all of them with
/// values in range.
pub open spec fn auth_from(text: Map<Seq<char>, Seq<char>>, numbers: Map<Seq<char>, int>) -> Option<
    AuthClaims,
> {
    if text.contains_key(sub_key()) && text.contains_key(role_key()) && text.contains_key(
        aud_key(),
    ) && numbers.contains_key(exp_key()) && 0 <= numbers[exp_key()] <= u64::MAX
        && numbers.contains_key(user_id_key()) && i32::MIN <= numbers[user_id_key()]
        <= i32::MAX {
        Some(
            AuthClaims {
                sub: text[sub_key()],
                exp: numbers[exp_key()] as u64,
                role: text[role_key()],
                aud: text[aud_key()],
                user_id: numbers[user_id_key()] as i32,
            },
        )
    } else {
        None
    }
}

/// The refresh-token claims held by a payload, if it holds all three.
pub open spec fn refresh_from(text: Map<Seq<char>, Seq<char>>, numbers: Map<Seq<char>, int>) -> Option<
    RefreshClaims,
> {
    if text.contains_key(sub_key()) && numbers.contains_key(exp_key()) && 0 <= numbers[exp_key()]
        <= u64::MAX && numbers.contains_key(jti_key()) && 0 <= numbers[jti_key()] <= u64::MAX {
        Some(
            RefreshClaims {
                sub: text[sub_key()],
                exp: numbers[exp_key()] as u64,
                jti: numbers[jti_key()] as u64,
            },
        )
    } else {
        None
    }
}

/// The payload of a token whose signature matches under `secret` and whose
/// header names HS256; a signature segment of any length but that of an HS256
/// signature is refused outright.
pub open spec fn signed_payload(token: Seq<char>, secret: Seq<u8>) -> Result<
    (Map<Seq<char>, Seq<char>>, Map<Seq<char>, int>),
    TokenError,
> {
    match split_token(token) {
        None => Err(TokenError::Malformed),
        Some(parts) => if parts.1.len() != hs256_signature_len() || parts.1 != hs256_signature(
            parts.0,
            secret,
        ) {
            Err(TokenError::InvalidSignature)
        } else if !hs256_header(token) {
            Err(TokenError::InvalidAlgorithm)
        } else {
            match payload_claims(token) {
                None => Err(TokenError::Malformed),
                Some(p) => Ok(p),
            }
        },
    }
}

/// A token that is signed under `secret` and carries exactly these claims.
pub open spec fn carries(
    token: Seq<char>,
    secret: Seq<u8>,
    text: Map<Seq<char>, Seq<char>>,
    numbers: Map<Seq<char>, int>,
) -> bool {
    signed_payload(token, secret) == Ok::<_, TokenError>((text, numbers))
}

/// The claims of an access or validation token that is correctly signed and
/// not expired at `now`.
pub open spec fn auth_claims_at(token: Seq<char>, secret: Seq<u8>, now: u64) -> Result<
    AuthClaims,
    TokenError,
> {
    match signed_payload(token, secret) {
        Err(e) => Err(e),
        Ok(p) => match auth_from(p.0, p.1) {
            None => Err(TokenError::Malformed),
            Some(c) => if now >= c.exp {
                Err(TokenError::Expired)
            } else {
                Ok(c)
            },
        },
    }
}

/// The outcome of checking an access or validation token for a subject and an
/// audience at `now`: signature, then expiry, then subject, then audience.
pub open spec fn auth_check(
    token: Seq<char>,
    secret: Seq<u8>,
    sub: Seq<char>,
    aud: Seq<char>,
    now: u64,
) -> Result<AuthClaims, TokenError> {
    match auth_claims_at(token, secret, now) {
        Err(e) => Err(e),
        Ok(c) => if c.sub != sub {
            Err(TokenError::SubjectMismatch)
        } else if c.aud != aud {
            Err(TokenError::AudienceMismatch)
        } else {
            Ok(c)
        },
    }
}

/// The outcome of checking a refresh token for a subject at `now`.
pub open spec fn refresh_check(token: Seq<char>, secret: Seq<u8>, sub: Seq<char>, now: u64) -> Result<
    RefreshClaims,
    TokenError,
> {
    match signed_payload(token, secret) {
        Err(e) => Err(e),
        Ok(p) => match refresh_from(p.0, p.1) {
            None => Err(TokenError::Malformed),
            Some(c) => if now >= c.exp {
                Err(TokenError::Expired)
            } else if c.sub != sub {
                Err(TokenError::SubjectMismatch)
            } else {
                Ok(c)
            },
        },
    }
}

/// An executable result agrees with a specified one.
pub open spec fn auth_result_is(r: Result<AuthToken, TokenError>, s: Result<AuthClaims, TokenError>) -> bool {
    match r {
        Ok(t) => s == Ok::<AuthClaims, TokenError>(t@),
        Err(e) => s == Err::<AuthClaims, TokenError>(e),
    }
}

/// An executable result agrees with a specified one.
pub open spec fn refresh_result_is(
    r: Result<RefreshToken, TokenError>,
    s: Result<RefreshClaims, TokenError>,
) -> bool {
    match r {
        Ok(t) => s == Ok::<RefreshClaims, TokenError>(t@),
        Err(e) => s == Err::<RefreshClaims, TokenError>(e),
    }
}

/// Signs and checks tokens with two independent secrets, and issues each kind
/// with its configured lifetime.
pub struct TokenIssuer {
    pub auth_secret: Vec<u8>,
    pub refresh_secret: Vec<u8>,
    pub access_ttl: u64,
    pub refresh_ttl: u64,
    pub validate_ttl: u64,
}

fn claim_object_of_auth(token: &AuthToken) -> (r: ClaimObject)
    ensures
        crate::jwt::text_claims(r) == auth_text(token@),
        crate::jwt::number_claims(r) == auth_numbers(token@),
        claim_keys(r) == auth_text(token@).dom().union(auth_numbers(token@).dom()),
{
    let mut m = empty_claims();
    proof {
        reveal_strlit("sub");
        reveal_strlit("role");
        reveal_strlit("aud");
        reveal_strlit("exp");
        reveal_strlit("user_id");
        assert("sub"@ =~= sub_key());
        assert("role"@ =~= role_key());
        assert("aud"@ =~= aud_key());
        assert("exp"@ =~= exp_key());
        assert("user_id"@ =~= user_id_key());
    }
    put_text(&mut m, "sub", token.sub.as_str());
    put_text(&mut m, "role", token.role.as_str());
    put_text(&mut m, "aud", token.aud.as_str());
    put_unsigned(&mut m, "exp", token.exp);
    put_signed(&mut m, "user_id", token.user_id as i64);
    proof {
        assert(crate::jwt::text_claims(m) =~= auth_text(token@));
        assert(crate::jwt::number_claims(m) =~= auth_numbers(token@));
        assert(claim_keys(m) =~= auth_text(token@).dom().union(auth_numbers(token@).dom()));
    }
    m
}

fn claim_object_of_refresh(token: &RefreshToken) -> (r: ClaimObject)
    ensures
        crate::jwt::text_claims(r) == refresh_text(token@),
        crate::jwt::number_claims(r) == refresh_numbers(token@),
        claim_keys(r) == refresh_text(token@).dom().union(refresh_numbers(token@).dom()),
{
    let mut m = empty_claims();
    proof {
        reveal_strlit("sub");
        reveal_strlit("exp");
        reveal_strlit("jti");
        assert("sub"@ =~= sub_key());
        assert("exp"@ =~= exp_key());
        assert("jti"@ =~= jti_key());
    }
    put_text(&mut m, "sub", token.sub.as_str());
    put_unsigned(&mut m, "exp", token.exp);
    put_unsigned(&mut m, "jti", token.jti);
    proof {
        assert(crate::jwt::text_claims(m) =~= refresh_text(token@));
        assert(crate::jwt::number_claims(m) =~= refresh_numbers(token@));
        assert(claim_keys(m) =~= refresh_text(token@).dom().union(refresh_numbers(token@).dom()));
    }
    m
}

/// Checks the signature of `token` under `secret` and reads its payload.
fn open_signed(token: &str, secret: &[u8]) -> (r: Result<ClaimObject, TokenError>)
    ensures
        match r {
            Ok(m) => signed_payload(token@, secret@) == Ok::<_, TokenError>(
                (crate::jwt::text_claims(m), crate::jwt::number_claims(m)),
            ),
            Err(e) => signed_payload(token@, secret@) == Err::<
                (Map<Seq<char>, Seq<char>>, Map<Seq<char>, int>),
                TokenError,
            >(e),
        },
{
    match split_at_last_dot(token) {
        None => Err(TokenError::Malformed),
        Some((message, signature)) => {
            if signature.as_str().unicode_len() != 43 {
                return Err(TokenError::InvalidSignature);
            }
            if !signature_matches(signature.as_str(), message.as_str(), secret) {
                return Err(TokenError::InvalidSignature);
            }
            if !header_is_hs256(token) {
                return Err(TokenError::InvalidAlgorithm);
            }
            match read_claims(token) {
                Ok(m) => Ok(m),
                Err(_) => Err(TokenError::Malformed),
            }
        },
    }
}

/// Reads the access-token claims out of a claim object.
fn auth_of_object(m: &ClaimObject) -> (r: Option<AuthToken>)
    ensures
        match r {
            Some(t) => auth_from(crate::jwt::text_claims(*m), crate::jwt::number_claims(*m))
                == Some(t@),
            None => auth_from(crate::jwt::text_claims(*m), crate::jwt::number_claims(*m))
                is None,
        },
{
    proof {
        reveal_strlit("sub");
        reveal_strlit("role");
        reveal_strlit("aud");
        reveal_strlit("exp");
        reveal_strlit("user_id");
        assert("sub"@ =~= sub_key());
        assert("role"@ =~= role_key());
        assert("aud"@ =~= aud_key());
        assert("exp"@ =~= exp_key());
        assert("user_id"@ =~= user_id_key());
    }
    let sub = get_text(m, "sub");
    let role = get_text(m, "role");
    let aud = get_text(m, "aud");
    let exp = get_unsigned(m, "exp");
    let user_id = get_signed(m, "user_id");
    match (sub, role, aud, exp, user_id) {
        (Some(sub), Some(role), Some(aud), Some(exp), Some(user_id)) => {
            if user_id < i32::MIN as i64 || user_id > i32::MAX as i64 {
                None
            } else {
                Some(AuthToken { sub, exp, role, aud, user_id: user_id as i32 })
            }
        },
        _ => None,
    }
}

/// Reads the refresh-token claims out of a claim object.
fn refresh_of_object(m: &ClaimObject) -> (r: Option<RefreshToken>)
    ensures
        match r {
            Some(t) => refresh_from(crate::jwt::text_claims(*m), crate::jwt::number_claims(*m))
                == Some(t@),
            None => refresh_from(crate::jwt::text_claims(*m), crate::jwt::number_claims(*m))
                is None,
        },
{
    proof {
        reveal_strlit("sub");
        reveal_strlit("exp");
        reveal_strlit("jti");
        assert("sub"@ =~= sub_key());
        assert("exp"@ =~= exp_key());
        assert("jti"@ =~= jti_key());
    }
    let sub = get_text(m, "sub");
    let exp = get_unsigned(m, "exp");
    let jti = get_unsigned(m, "jti");
    match (sub, exp, jti) {
        (Some(sub), Some(exp), Some(jti)) => Some(RefreshToken { sub, exp, jti }),
        _ => None,
    }
}

impl TokenIssuer {
    /// An issuer with the given secrets and the default lifetimes.
    pub fn new(auth_secret: String, refresh_secret: String) -> (r: TokenIssuer)
        ensures
            r.auth_secret@ == vstd::utf8::encode_utf8(auth_secret@),
            r.refresh_secret@ == vstd::utf8::encode_utf8(refresh_secret@),
            r.access_ttl == ACCESS_EXPIRY,
            r.refresh_ttl == REFRESH_EXPIRY,
            r.validate_ttl == VALIDATE_EXPIRY,
    {
        TokenIssuer {
            auth_secret: auth_secret.as_str().as_bytes_vec(),
            refresh_secret: refresh_secret.as_str().as_bytes_vec(),
            access_ttl: ACCESS_EXPIRY,
            refresh_ttl: REFRESH_EXPIRY,
            validate_ttl: VALIDATE_EXPIRY,
        }
    }

    /// The same secrets with other lifetimes for the three kinds of token.
    pub fn with_expiry(self, access_ttl: u64, refresh_ttl: u64, validate_ttl: u64) -> (r:
        TokenIssuer)
        ensures
            r.auth_secret@ == self.auth_secret@,
            r.refresh_secret@ == self.refresh_secret@,
            r.access_ttl == access_ttl,
            r.refresh_ttl == refresh_ttl,
            r.validate_ttl == validate_ttl,
    {
        TokenIssuer { access_ttl, refresh_ttl, validate_ttl, ..self }
    }

    /// Signs access or validation claims with the access key.
    pub fn get_auth(&self, auth_token: &AuthToken) -> (r: Result<String, TokenError>)
        ensures
            r is Ok,
            r is Ok ==> carries(
                r->Ok_0@,
                self.auth_secret@,
                auth_text(auth_token@),
                auth_numbers(auth_token@),
            ),
            r is Ok ==> r->Ok_0@ == signed_token(
                auth_text(auth_token@),
                auth_numbers(auth_token@),
                self.auth_secret@,
            ),
    {
        let m = claim_object_of_auth(auth_token);
        match encode_claims(&m, self.auth_secret.as_slice()) {
            Ok(t) => Ok(t),
            Err(_) => Err(TokenError::Encoding),
        }
    }

    /// Checks an access or validation token: signature, expiry at `now`,
    /// subject `username` and audience `aud`.
    pub fn validate_auth(&self, jwt: &str, username: &str, aud: &str, now: u64) -> (r: Result<
        AuthToken,
        TokenError,
    >)
        ensures
            auth_result_is(r, auth_check(jwt@, self.auth_secret@, username@, aud@, now)),
    {
        let claims = self.authenticate(jwt, now)?;
        if !(claims.sub == username.to_owned()) {
            return Err(TokenError::SubjectMismatch);
        }
        if !(claims.aud == aud.to_owned()) {
            return Err(TokenError::AudienceMismatch);
        }
        Ok(claims)
    }

    /// Checks the signature of an access token and that it has not expired at
    /// `now`, whoever it names.
    pub fn authenticate(&self, jwt: &str, now: u64) -> (r: Result<AuthToken, TokenError>)
        ensures
            auth_result_is(r, auth_claims_at(jwt@, self.auth_secret@, now)),
    {
        let m = open_signed(jwt, self.auth_secret.as_slice())?;
        match auth_of_object(&m) {
            None => Err(TokenError::Malformed),
            Some(claims) => {
                if now >= claims.exp {
                    Err(TokenError::Expired)
                } else {
                    Ok(claims)
                }
            },
        }
    }

    /// Signs refresh claims with the refresh key.
    pub fn get_refresh(&self, refresh_token: &RefreshToken) -> (r: Result<String, TokenError>)
        ensures
            r is Ok,
            r is Ok ==> carries(
                r->Ok_0@,
                self.refresh_secret@,
                refresh_text(refresh_token@),
                refresh_numbers(refresh_token@),
            ),
            r is Ok ==> r->Ok_0@ == signed_token(
                refresh_text(refresh_token@),
                refresh_numbers(refresh_token@),
                self.refresh_secret@,
            ),
    {
        let m = claim_object_of_refresh(refresh_token);
        match encode_claims(&m, self.refresh_secret.as_slice()) {
            Ok(t) => Ok(t),
            Err(_) => Err(TokenError::Encoding),
        }
    }

    /// Checks a refresh token: signature, expiry at `now` and subject
    /// `username`.
    pub fn validate_refresh(&self, jwt: &str, username: &str, now: u64) -> (r: Result<
        RefreshToken,
        TokenError,
    >)
        ensures
            refresh_result_is(r, refresh_check(jwt@, self.refresh_secret@, username@, now)),
    {
        let m = open_signed(jwt, self.refresh_secret.as_slice())?;
        match refresh_of_object(&m) {
            None => Err(TokenError::Malformed),
            Some(claims) => {
                if now >= claims.exp {
                    Err(TokenError::Expired)
                } else if !(claims.sub == username.to_owned()) {
                    Err(TokenError::SubjectMismatch)
                } else {
                    Ok(claims)
                }
            },
        }
    }
}

proof fn lemma_keys_distinct()
    ensures
        sub_key() != role_key(),
        sub_key() != aud_key(),
        role_key() != aud_key(),
        exp_key() != user_id_key(),
{
    assert(sub_key()[0] != role_key()[0]);
    assert(sub_key()[0] != aud_key()[0]);
    assert(role_key()[0] != aud_key()[0]);
    assert(exp_key().len() != user_id_key().len());
}

/// The claims that an access or validation token carries read back unchanged.
pub proof fn lemma_auth_claims_read_back(c: AuthClaims)
    ensures
        auth_from(auth_text(c), auth_numbers(c)) == Some(c),
{
    lemma_keys_distinct();
}

/// The claims that a refresh token carries read back unchanged.
pub proof fn lemma_refresh_claims_read_back(c: RefreshClaims)
    ensures
        refresh_from(refresh_text(c), refresh_numbers(c)) == Some(c),
{
}

/// Round trip of an access or validation token: a token that carries claims
/// `c` under `secret`, checked under that secret for the subject and audience
/// of `c`, yields exactly `c` at any time before `c`'s expiry, and fails with
/// `Expired` at any time from the expiry on.
pub proof fn lemma_auth_round_trip(token: Seq<char>, secret: Seq<u8>, c: AuthClaims, now: u64)
    requires
        carries(token, secret, auth_text(c), auth_numbers(c)),
    ensures
        now < c.exp ==> auth_check(token, secret, c.sub, c.aud, now) == Ok::<
            AuthClaims,
            TokenError,
        >(c),
        now >= c.exp ==> auth_check(token, secret, c.sub, c.aud, now) == Err::<
            AuthClaims,
            TokenError,
        >(TokenError::Expired),
{
    lemma_auth_claims_read_back(c);
}

/// Round trip of a refresh token: a token that carries claims `c` under
/// `secret`, checked under that secret for the subject of `c`, yields exactly
/// `c` before `c`'s expiry, and fails with `Expired` from the expiry on.
pub proof fn lemma_refresh_round_trip(token: Seq<char>, secret: Seq<u8>, c: RefreshClaims, now: u64)
    requires
        carries(token, secret, refresh_text(c), refresh_numbers(c)),
    ensures
        now < c.exp ==> refresh_check(token, secret, c.sub, now) == Ok::<
            RefreshClaims,
            TokenError,
        >(c),
        now >= c.exp ==> refresh_check(token, secret, c.sub, now) == Err::<
            RefreshClaims,
            TokenError,
        >(TokenError::Expired),
{
    lemma_refresh_claims_read_back(c);
}

/// Tampering with the signature: where a token signed under `secret` has its
/// signature segment replaced by any other text of the same length (as a
/// change of some of its characters gives, a dot among them), every check
/// under that secret fails with `InvalidSignature`, for any subject, audience
/// and time, so that no claims come out of it.
pub proof fn lemma_tampered_signature(
    token: Seq<char>,
    secret: Seq<u8>,
    forged: Seq<char>,
    sub: Seq<char>,
    aud: Seq<char>,
    now: u64,
)
    requires
        signed_payload(token, secret) is Ok,
        forged != split_token(token)->Some_0.1,
        forged.len() == split_token(token)->Some_0.1.len(),
    ensures
        ({
            let tampered = split_token(token)->Some_0.0 + seq!['.'] + forged;
            &&& auth_check(tampered, secret, sub, aud, now) == Err::<AuthClaims, TokenError>(
                TokenError::InvalidSignature,
            )
            &&& auth_claims_at(tampered, secret, now) == Err::<AuthClaims, TokenError>(
                TokenError::InvalidSignature,
            )
            &&& refresh_check(tampered, secret, sub, now) == Err::<RefreshClaims, TokenError>(
                TokenError::InvalidSignature,
            )
        }),
{
    let message = split_token(token)->Some_0.0;
    if forged.contains('.') {
        lemma_split_joined_dotted(message, forged);
    } else {
        lemma_split_joined(message, forged);
    }
}

impl TokenIssuer {
    /// An access token for `username` scoped to `source`, issued at `now`.
    pub fn get_access_token(&self, username: &str, user_id: i32, role: &str, source: &str, now: u64) -> (r:
        Result<String, TokenError>)
        ensures
            r is Ok,
            r is Ok ==> r->Ok_0@ == access_token_text(self, username@, user_id, role@, source@, now),
            r is Ok ==> carries(
                r->Ok_0@,
                self.auth_secret@,
                auth_text(access_claims(username@, user_id, role@, source@, now, self.access_ttl)),
                auth_numbers(access_claims(username@, user_id, role@, source@, now, self.access_ttl)),
            ),
    {
        let claims = AuthToken::issued_at(username, user_id, role, source, now, self.access_ttl);
        self.get_auth(&claims)
    }

    /// Refresh token number `jti` for `username`, issued at `now`.
    pub fn get_refresh_token(&self, username: &str, now: u64, jti: u64) -> (r: Result<String, TokenError>)
        ensures
            r is Ok,
            r is Ok ==> r->Ok_0@ == refresh_token_text(self, username@, now, jti),
            r is Ok ==> carries(
                r->Ok_0@,
                self.refresh_secret@,
                refresh_text(refresh_claims(username@, now, self.refresh_ttl, jti)),
                refresh_numbers(refresh_claims(username@, now, self.refresh_ttl, jti)),
            ),
    {
        let claims = RefreshToken::issued_at(username, now, self.refresh_ttl, jti);
        self.get_refresh(&claims)
    }

    /// An account-validation token for `username`, issued at `now`: plain user
    /// role, no user id, and the validation audience.
    pub fn get_validate_token(&self, username: &str, now: u64) -> (r: Result<String, TokenError>)
        ensures
            r is Ok,
            r is Ok ==> r->Ok_0@ == signed_token(
                auth_text(validate_claims(username@, now, self.validate_ttl)),
                auth_numbers(validate_claims(username@, now, self.validate_ttl)),
                self.auth_secret@,
            ),
            r is Ok ==> carries(
                r->Ok_0@,
                self.auth_secret@,
                auth_text(validate_claims(username@, now, self.validate_ttl)),
                auth_numbers(validate_claims(username@, now, self.validate_ttl)),
            ),
    {
        let claims = AuthToken::issued_at(username, 0, USER_ROLE, VALIDATE_ACCOUNT, now, self.validate_ttl);
        proof {
            reveal_strlit("user");
            reveal_strlit("validate");
            assert(VALIDATE_ACCOUNT@ =~= validate_audience());
            assert(USER_ROLE@ =~= seq!['u', 's', 'e', 'r']);
            assert(claims@ == validate_claims(username@, now, self.validate_ttl));
        }
        self.get_auth(&claims)
    }

    /// Checks an account-validation token for `username` at `now`.
    pub fn check_validate_token(&self, token: &str, username: &str, now: u64) -> (r: Result<
        AuthToken,
        TokenError,
    >)
        ensures
            auth_result_is(r, auth_check(token@, self.auth_secret@, username@, validate_audience(), now)),
    {
        proof {
            reveal_strlit("validate");
            assert(VALIDATE_ACCOUNT@ =~= validate_audience());
        }
        self.validate_auth(token, username, VALIDATE_ACCOUNT, now)
    }
}

/// The role name of an ordinary user.
pub const USER_ROLE: &'static str = "user";

/// The audience of account-validation tokens, as a sequence.
pub open spec fn validate_audience() -> Seq<char> {
    seq!['v', 'a', 'l', 'i', 'd', 'a', 't', 'e']
}

/// The claims of an access token issued at `now`.
pub open spec fn access_claims(
    username: Seq<char>,
    user_id: i32,
    role: Seq<char>,
    source: Seq<char>,
    now: u64,
    ttl: u64,
) -> AuthClaims {
    AuthClaims { sub: username, exp: expiry_after(now, ttl), role, aud: source, user_id }
}

/// The claims of a refresh token issued at `now`.
pub open spec fn refresh_claims(username: Seq<char>, now: u64, ttl: u64, jti: u64) -> RefreshClaims {
    RefreshClaims { sub: username, exp: expiry_after(now, ttl), jti }
}

/// The access token an issuer signs for these claims at `now`.
pub open spec fn access_token_text(
    issuer: &TokenIssuer,
    username: Seq<char>,
    user_id: i32,
    role: Seq<char>,
    source: Seq<char>,
    now: u64,
) -> Seq<char> {
    let c = access_claims(username, user_id, role, source, now, issuer.access_ttl);
    signed_token(auth_text(c), auth_numbers(c), issuer.auth_secret@)
}

/// Refresh token number `jti` that an issuer signs for `username` at `now`.
pub open spec fn refresh_token_text(issuer: &TokenIssuer, username: Seq<char>, now: u64, jti: u64) -> Seq<
    char,
> {
    let c = refresh_claims(username, now, issuer.refresh_ttl, jti);
    signed_token(refresh_text(c), refresh_numbers(c), issuer.refresh_secret@)
}

/// The claims of an account-validation token issued at `now`.
pub open spec fn validate_claims(username: Seq<char>, now: u64, ttl: u64) -> AuthClaims {
    AuthClaims {
        sub: username,
        exp: expiry_after(now, ttl),
        role: seq!['u', 's', 'e', 'r'],
        aud: validate_audience(),
        user_id: 0,
    }
}

} // verus!
