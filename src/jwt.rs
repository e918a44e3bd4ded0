//! The signed-claims wire format: `header.payload.signature`.
//!
//! jsonwebtoken produces and reads the segments; this module splits a token at
//! its last dot, so that the signature check and the claim checks can be stated
//! over plain sequences.

use vstd::prelude::*;

verus! {

/// A JSON object holding the claims of a token.
pub type ClaimObject = serde_json::Map<String, serde_json::Value>;

#[verifier::external_type_specification]
#[verifier::external_body]
#[verifier::reject_recursive_types(K)]
#[verifier::reject_recursive_types(V)]
pub struct ExJsonMap<K, V>(serde_json::Map<K, V>);

#[verifier::external_type_specification]
#[verifier::external_body]
pub struct ExJsonValue(serde_json::Value);

#[verifier::external_type_specification]
#[verifier::external_body]
pub struct ExJwtError(jsonwebtoken::errors::Error);

/// The string-valued entries of a claim object.
pub uninterp spec fn text_claims(m: serde_json::Map<String, serde_json::Value>) -> Map<Seq<char>, Seq<char>>;

/// The integer-valued entries of a claim object.
pub uninterp spec fn number_claims(m: serde_json::Map<String, serde_json::Value>) -> Map<Seq<char>, int>;

/// The keys of a claim object, whatever their values.
pub uninterp spec fn claim_keys(m: serde_json::Map<String, serde_json::Value>) -> Set<Seq<char>>;

/// What `jsonwebtoken::encode` returns with the default HS256 header for an
/// object that holds exactly these string-valued and integer-valued entries,
/// signed under `secret`.
pub uninterp spec fn signed_token(
    text: Map<Seq<char>, Seq<char>>,
    numbers: Map<Seq<char>, int>,
    secret: Seq<u8>,
) -> Seq<char>;

/// Whether `jsonwebtoken::decode_header` reads, from the segment before the
/// last two dots of `token`, a header naming HS256.
pub uninterp spec fn hs256_header(token: Seq<char>) -> bool;

/// Relies on `jsonwebtoken::decode_header`: whether the token's header reads
/// and names the HS256 algorithm.
#[verifier::external_body]
pub(crate) fn header_is_hs256(token: &str) -> (r: bool)
    ensures
        r == hs256_header(token@),
{
    match jsonwebtoken::decode_header(token) {
        Ok(header) => header.alg == jsonwebtoken::Algorithm::HS256,
        Err(_) => false,
    }
}

/// The length of an HS256 signature segment: the 32 bytes of an HMAC-SHA256,
/// in unpadded base64url.
pub open spec fn hs256_signature_len() -> nat {
    43
}

/// What `jsonwebtoken::crypto::sign` returns for HS256: the base64url text of
/// the HMAC-SHA256 of the message under the secret.
pub uninterp spec fn hs256_signature(message: Seq<char>, secret: Seq<u8>) -> Seq<char>;

/// What `jsonwebtoken::decode` reads from the payload segment of a token when
/// it checks neither the signature nor any claim: the string-valued and the
/// integer-valued entries, or `None` where the token cannot be read.
pub uninterp spec fn payload_claims(token: Seq<char>) -> Option<(Map<Seq<char>, Seq<char>>, Map<Seq<char>, int>)>;

/// Relies on `serde_json::Map::new`: an object with no entries.
#[verifier::external_body]
pub(crate) fn empty_claims() -> (r: ClaimObject)
    ensures
        text_claims(r).dom().len() == 0 && text_claims(r).dom().finite(),
        claim_keys(r).len() == 0 && claim_keys(r).finite(),
        number_claims(r).dom().len() == 0 && number_claims(r).dom().finite(),
{
    serde_json::Map::new()
}

/// Relies on `serde_json::Map::insert` with a `Value::String`: the key now maps
/// to that text, replacing what it held.
#[verifier::external_body]
pub(crate) fn put_text(m: &mut ClaimObject, key: &str, value: &str)
    ensures
        text_claims(*final(m)) == text_claims(*old(m)).insert(key@, value@),
        number_claims(*final(m)) == number_claims(*old(m)).remove(key@),
    claim_keys(*final(m)) == claim_keys(*old(m)).insert(key@),
{
    m.insert(key.to_string(), serde_json::Value::from(value));
}

/// Relies on `serde_json::Map::insert` with a `Value::Number` made from a `u64`.
#[verifier::external_body]
pub(crate) fn put_unsigned(m: &mut ClaimObject, key: &str, value: u64)
    ensures
        number_claims(*final(m)) == number_claims(*old(m)).insert(key@, value as int),
        text_claims(*final(m)) == text_claims(*old(m)).remove(key@),
    claim_keys(*final(m)) == claim_keys(*old(m)).insert(key@),
{
    m.insert(key.to_string(), serde_json::Value::from(value));
}

/// Relies on `serde_json::Map::insert` with a `Value::Number` made from an `i64`.
#[verifier::external_body]
pub(crate) fn put_signed(m: &mut ClaimObject, key: &str, value: i64)
    ensures
        number_claims(*final(m)) == number_claims(*old(m)).insert(key@, value as int),
        text_claims(*final(m)) == text_claims(*old(m)).remove(key@),
    claim_keys(*final(m)) == claim_keys(*old(m)).insert(key@),
{
    m.insert(key.to_string(), serde_json::Value::from(value));
}

/// Relies on `serde_json::Map::get` and `Value::as_str`: the text under the
/// key, if the key holds a string.
#[verifier::external_body]
pub(crate) fn get_text(m: &ClaimObject, key: &str) -> (r: Option<String>)
    ensures
        r is Some <==> text_claims(*m).contains_key(key@),
        r is Some ==> r->Some_0@ == text_claims(*m)[key@],
{
    m.get(key).and_then(serde_json::Value::as_str).map(str::to_string)
}

/// Relies on `serde_json::Map::get` and `Value::as_u64`: the number under the
/// key, if it is an integer that fits a `u64`.
#[verifier::external_body]
pub(crate) fn get_unsigned(m: &ClaimObject, key: &str) -> (r: Option<u64>)
    ensures
        r is Some <==> (number_claims(*m).contains_key(key@) && 0 <= number_claims(*m)[key@]
            <= u64::MAX),
        r is Some ==> r->Some_0 as int == number_claims(*m)[key@],
{
    m.get(key).and_then(serde_json::Value::as_u64)
}

/// Relies on `serde_json::Map::get` and `Value::as_i64`: the number under the
/// key, if it is an integer that fits an `i64`.
#[verifier::external_body]
pub(crate) fn get_signed(m: &ClaimObject, key: &str) -> (r: Option<i64>)
    ensures
        r is Some <==> (number_claims(*m).contains_key(key@) && i64::MIN <= number_claims(
            *m,
        )[key@] <= i64::MAX),
        r is Some ==> r->Some_0 as int == number_claims(*m)[key@],
{
    m.get(key).and_then(serde_json::Value::as_i64)
}

/// Relies on `jsonwebtoken::encode` with the default HS256 header: the token is
/// `message.signature`, where the signature is `crypto::sign` of the message
/// (base64url text, which holds no dot), and the payload segment, decoded,
/// reads back as the object's entries; the object must hold strings and
/// integers only (an array or object under a registered claim would not read
/// back). The header is the default one, naming HS256, so the token depends on
/// those entries and the secret alone; the signature is 43 base64url characters,
/// the 32 bytes of an HMAC-SHA256. It does not fail here: the key is an
/// HMAC key, as HS256 asks, HMAC signing cannot fail, and the header and an
/// object of strings and integers always serialise.
#[verifier::external_body]
pub(crate) fn encode_claims(claims: &ClaimObject, secret: &[u8]) -> (r: Result<
    String,
    jsonwebtoken::errors::Error,
>)
    requires
        claim_keys(*claims) == text_claims(*claims).dom().union(number_claims(*claims).dom()),
    ensures
        r is Ok,
        r is Ok ==> split_token(r->Ok_0@) is Some,
        r is Ok ==> split_token(r->Ok_0@)->Some_0.1 == hs256_signature(
            split_token(r->Ok_0@)->Some_0.0,
            secret@,
        ),
        r is Ok ==> payload_claims(r->Ok_0@) == Some((text_claims(*claims), number_claims(*claims))),
        r is Ok ==> split_token(r->Ok_0@)->Some_0.1.len() == hs256_signature_len(),
        r is Ok ==> r->Ok_0@ == signed_token(text_claims(*claims), number_claims(*claims), secret@),
        r is Ok ==> hs256_header(r->Ok_0@),
{
    jsonwebtoken::encode(
        &jsonwebtoken::Header::default(),
        claims,
        &jsonwebtoken::EncodingKey::from_secret(secret),
    )
}

/// Relies on `jsonwebtoken::crypto::verify`: for HS256 it signs the message
/// again and compares the result with the given signature.
#[verifier::external_body]
pub(crate) fn signature_matches(signature: &str, message: &str, secret: &[u8]) -> (r: bool)
    ensures
        r == (signature@ == hs256_signature(message@, secret@)),
{
    jsonwebtoken::crypto::verify(
        signature,
        message.as_bytes(),
        &jsonwebtoken::DecodingKey::from_secret(secret),
        jsonwebtoken::Algorithm::HS256,
    ).unwrap_or(false)
}

/// Relies on `jsonwebtoken::decode` with signature, expiry and audience checks
/// and required claims switched off: it only reads the payload. Switching the
/// signature check off also skips its check of the header's algorithm, which
/// callers make themselves with `header_is_hs256`.
#[verifier::external_body]
pub(crate) fn read_claims(token: &str) -> (r: Result<ClaimObject, jsonwebtoken::errors::Error>)
    ensures
        r is Ok <==> payload_claims(token@) is Some,
        r is Ok ==> payload_claims(token@) == Some(
            (text_claims(r->Ok_0), number_claims(r->Ok_0)),
        ),
{
    let mut validation = jsonwebtoken::Validation::new(jsonwebtoken::Algorithm::HS256);
    validation.insecure_disable_signature_validation();
    validation.validate_exp = false;
    validation.validate_aud = false;
    validation.required_spec_claims.clear();
    let key = jsonwebtoken::DecodingKey::from_secret(&[]);
    jsonwebtoken::decode::<ClaimObject>(token, &key, &validation).map(|data| data.claims)
}

/// The position of the last `.` among the first `n` characters, or -1.
pub open spec fn last_dot_before(t: Seq<char>, n: int) -> int
    decreases n,
{
    if n <= 0 {
        -1
    } else if t[n - 1] == '.' {
        n - 1
    } else {
        last_dot_before(t, n - 1)
    }
}

/// A token split at its last `.` into the signed message and the signature.
pub open spec fn split_token(t: Seq<char>) -> Option<(Seq<char>, Seq<char>)> {
    let i = last_dot_before(t, t.len() as int);
    if i < 0 {
        None
    } else {
        Some((t.subrange(0, i), t.subrange(i + 1, t.len() as int)))
    }
}

/// The last dot before `n` is before `n`.
pub proof fn lemma_last_dot_below(t: Seq<char>, n: int)
    requires
        0 <= n <= t.len(),
    ensures
        last_dot_before(t, n) < n,
    decreases n,
{
    if n > 0 && t[n - 1] != '.' {
        lemma_last_dot_below(t, n - 1);
    }
}

/// A dot at `j`, before `n`, is at or before the last dot before `n`.
pub proof fn lemma_last_dot_at_least(t: Seq<char>, n: int, j: int)
    requires
        0 <= j < n <= t.len(),
        t[j] == '.',
    ensures
        last_dot_before(t, n) >= j,
    decreases n,
{
    if t[n - 1] != '.' {
        lemma_last_dot_at_least(t, n - 1, j);
    }
}

/// Joining a message and a signature that holds a dot, and splitting the
/// result at its last dot, gives a signature part shorter than the signature.
pub proof fn lemma_split_joined_dotted(message: Seq<char>, signature: Seq<char>)
    requires
        signature.contains('.'),
    ensures
        split_token(message + seq!['.'] + signature) is Some,
        split_token(message + seq!['.'] + signature)->Some_0.1.len() < signature.len(),
{
    let t = message + seq!['.'] + signature;
    let k = message.len() as int;
    let j0 = choose|j0: int| 0 <= j0 < signature.len() && signature[j0] == '.';
    assert(t[k + 1 + j0] == '.');
    lemma_last_dot_at_least(t, t.len() as int, k + 1 + j0);
    lemma_last_dot_below(t, t.len() as int);
}

/// Joining a message and a dot-free signature with `.` and splitting the result
/// at its last dot gives both back.
pub proof fn lemma_split_joined(message: Seq<char>, signature: Seq<char>)
    requires
        !signature.contains('.'),
    ensures
        split_token(message + seq!['.'] + signature) == Some((message, signature)),
{
    let t = message + seq!['.'] + signature;
    let k = message.len() as int;
    assert(t[k] == '.');
    assert forall|n: int| k < n <= t.len() implies last_dot_before(t, n) == k by {
        lemma_suffix_dot(t, k, n, signature);
    }
    assert(t.subrange(0, k) =~= message);
    assert(t.subrange(k + 1, t.len() as int) =~= signature);
}

proof fn lemma_suffix_dot(t: Seq<char>, k: int, n: int, signature: Seq<char>)
    requires
        0 <= k < n <= t.len(),
        t[k] == '.',
        t.len() == k + 1 + signature.len(),
        forall|j: int| 0 <= j < signature.len() ==> t[k + 1 + j] == signature[j],
        !signature.contains('.'),
    ensures
        last_dot_before(t, n) == k,
    decreases n,
{
    if n > k + 1 {
        let j = n - 1 - (k + 1);
        assert(t[n - 1] == signature[j]);
        if t[n - 1] == '.' {
            assert(signature.contains('.'));
        }
        lemma_suffix_dot(t, k, n - 1, signature);
    }
}

/// Splits a token at its last `.`.
pub fn split_at_last_dot(token: &str) -> (r: Option<(String, String)>)
    ensures
        r is None <==> split_token(token@) is None,
        r is Some ==> split_token(token@) == Some((r->Some_0.0@, r->Some_0.1@)),
{
    let len = token.unicode_len();
    let mut i: usize = len;
    while i > 0
        invariant
            i <= len,
            len == token@.len(),
            last_dot_before(token@, len as int) == last_dot_before(token@, i as int),
        decreases i,
    {
        if token.get_char(i - 1) == '.' {
            let message = token.substring_char(0, i - 1).to_owned();
            let signature = token.substring_char(i, len).to_owned();
            return Some((message, signature));
        }
        i = i - 1;
    }
    None
}

} // verus!
