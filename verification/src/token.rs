//! The token codec.
//!
//! A token carries a claims payload — the subject, the issue time and the
//! expiry time — signed with a symmetric MAC under a process-wide secret and
//! serialized in the standard compact three-segment form. Signing and
//! signature checking are delegated to the `jsonwebtoken` crate; the expiry
//! policy is this module's own logic: a token is rejected as expired exactly
//! when its expiry time plus a leeway (to tolerate clock skew) lies before
//! the verification time. An issue time in the future is accepted without
//! penalty: skew tolerance applies to expiry only, not to issuance.

use vstd::prelude::*;

verus! {

/// The whole seconds of the duration a well-formed human-readable duration
/// string (such as "1h") denotes, if any.
pub uninterp spec fn duration_of(s: Seq<char>) -> Option<u64>;

/// Relies on parse_duration::parse: the parsed duration is a deterministic
/// function of the input string alone. The wrapper keeps its whole seconds.
#[verifier::external_body]
fn parse_duration_secs(s: &str) -> (r: Option<u64>)
    ensures
        r == duration_of(s@),
{
    match parse_duration::parse(s) {
        Ok(d) => Some(d.as_secs()),
        Err(_) => None,
    }
}

/// The process-wide token configuration: the signing secret and the lifetime
/// of issued tokens. Built once at startup and treated as immutable for the
/// process lifetime.
#[derive(Debug, Clone)]
pub struct JWTConfig {
    pub key: String,
    pub expiry_secs: u64,
}

impl JWTConfig {
    /// Builds the configuration from the signing secret and a human-readable
    /// expiry duration string; fails exactly when the string does not parse
    /// as a duration.
    pub fn new(key: String, expiry: String) -> (r: Option<JWTConfig>)
        ensures
            duration_of(expiry@) matches Some(secs) ==> (r matches Some(c) && c.key == key
                && c.expiry_secs == secs),
            duration_of(expiry@) is None ==> r is None,
    {
        match parse_duration_secs(expiry.as_str()) {
            Some(secs) => Some(JWTConfig { key, expiry_secs: secs }),
            None => None,
        }
    }
}

/// The mathematical value of a claims payload.
pub struct ClaimsView {
    pub sub: Seq<char>,
    pub iat: u64,
    pub exp: u64,
}

/// The claims payload of a token: the subject (a user id in string form),
/// the issue time and the expiry time, in integer seconds.
#[derive(Debug, Clone, PartialEq, Eq)]
pub struct Claims {
    pub sub: String,
    pub iat: u64,
    pub exp: u64,
}

impl View for Claims {
    type V = ClaimsView;

    open spec fn view(&self) -> ClaimsView {
        ClaimsView { sub: self.sub@, iat: self.iat, exp: self.exp }
    }
}

impl Claims {
    /// Builds the claims of a token issued now with the given lifetime.
    pub fn new(sub: String, now: u64, expiry_secs: u64) -> (c: Claims)
        requires
            now + expiry_secs <= u64::MAX,
        ensures
            c.sub == sub,
            c.iat == now,
            c.exp == now + expiry_secs,
    {
        Claims { sub, iat: now, exp: now + expiry_secs }
    }
}

/// A failure of token verification. The surrounding identity resolution maps
/// each kind to its service-level error; any transport-layer decoding
/// failure collapses into `MalformedOrBadSignature`.
#[derive(Clone, Copy, Debug, PartialEq, Eq, Structural)]
pub enum TokenError {
    /// The token cannot be decoded, or its signature does not verify.
    MalformedOrBadSignature,
    /// The token's expiry time, plus the verification leeway, has passed.
    Expired,
}

/// The signed compact serialization of a claims payload under a secret.
pub uninterp spec fn signed_token_of(claims: ClaimsView, secret: Seq<char>) -> Seq<char>;

/// The claims a token decodes to under a secret, if its three segments
/// decode and its signature verifies; `None` otherwise.
pub uninterp spec fn decoded_claims(token: Seq<char>, secret: Seq<char>) -> Option<ClaimsView>;

/// Relies on jsonwebtoken::encode with the default header (HS256) and a
/// plain secret key: the token is a deterministic function of the claims and
/// the secret alone, the call cannot fail for this algorithm and key kind,
/// and decoding the token under the same secret yields the claims back.
#[verifier::external_body]
fn encode_claims(claims: &Claims, secret: &str) -> (r: Result<String, ()>)
    ensures
        r is Ok,
        r matches Ok(t) ==> t@ == signed_token_of(claims@, secret@),
        r matches Ok(t) ==> decoded_claims(t@, secret@) == Some(claims@),
{
    let mut payload = serde_json::Map::new();
    payload.insert("sub".to_owned(), serde_json::Value::String(claims.sub.clone()));
    payload.insert("iat".to_owned(), serde_json::Value::from(claims.iat));
    payload.insert("exp".to_owned(), serde_json::Value::from(claims.exp));
    let key = jsonwebtoken::EncodingKey::from_secret(secret.as_bytes());
    match jsonwebtoken::encode(&jsonwebtoken::Header::default(), &serde_json::Value::Object(payload), &key) {
        Ok(t) => Ok(t),
        Err(_) => Err(()),
    }
}

/// Relies on jsonwebtoken::decode with signature checking on and time
/// checking off: whether the token decodes, and to which claims, is a
/// deterministic function of the token and the secret alone.
#[verifier::external_body]
fn decode_claims(token: &str, secret: &str) -> (r: Result<Claims, ()>)
    ensures
        r matches Ok(c) ==> decoded_claims(token@, secret@) == Some(c@),
        r is Err ==> decoded_claims(token@, secret@) is None,
{
    let mut validation = jsonwebtoken::Validation::new(jsonwebtoken::Algorithm::HS256);
    validation.validate_exp = false;
    let key = jsonwebtoken::DecodingKey::from_secret(secret.as_bytes());
    let payload = match jsonwebtoken::decode::<serde_json::Value>(token, &key, &validation) {
        Ok(data) => data.claims,
        Err(_) => return Err(()),
    };
    let sub = payload.get("sub").and_then(|v| v.as_str());
    match (sub, payload.get("iat").and_then(|v| v.as_u64()), payload.get("exp").and_then(|v| v.as_u64())) {
        (Some(s), Some(iat), Some(exp)) => Ok(Claims { sub: s.to_owned(), iat, exp }),
        _ => Err(()),
    }
}

/// The verdict of verifying a token under a secret at a given time: the
/// claims it decodes to, unless it does not decode, or its expiry time plus
/// the leeway lies strictly before the verification time.
pub open spec fn token_verdict(
    token: Seq<char>,
    secret: Seq<char>,
    now: u64,
    leeway: u64,
) -> Result<ClaimsView, TokenError> {
    match decoded_claims(token, secret) {
        None => Err(TokenError::MalformedOrBadSignature),
        Some(c) => if c.exp + leeway < now {
            Err(TokenError::Expired)
        } else {
            Ok(c)
        },
    }
}

/// Issues a signed token carrying the given claims.
pub fn issue_token(claims: &Claims, secret: &str) -> (t: String)
    ensures
        t@ == signed_token_of(claims@, secret@),
        decoded_claims(t@, secret@) == Some(claims@),
{
    match encode_claims(claims, secret) {
        Ok(t) => t,
        Err(_) => unreached(),
    }
}

/// Verifies a token under a secret at the given time, with the given expiry
/// leeway: decodes it, checks its signature, and rejects it as expired when
/// its expiry time plus the leeway has passed.
pub fn verify_token(token: &str, secret: &str, now: u64, leeway: u64) -> (r: Result<
    Claims,
    TokenError,
>)
    ensures
        token_verdict(token@, secret@, now, leeway) matches Ok(cv) ==> (r matches Ok(c) && c@
            == cv),
        token_verdict(token@, secret@, now, leeway) matches Err(e) ==> r == Err::<
            Claims,
            TokenError,
        >(e),
{
    match decode_claims(token, secret) {
        Err(_) => Err(TokenError::MalformedOrBadSignature),
        Ok(c) => {
            let expired = leeway <= u64::MAX - c.exp && c.exp + leeway < now;
            if expired {
                Err(TokenError::Expired)
            } else {
                Ok(c)
            }
        },
    }
}

/// Law: a token that decodes to given claims under a secret — in particular
/// any token issued for those claims under that secret — verifies back to
/// exactly those claims at any time within the expiry window plus leeway.
pub proof fn lemma_token_round_trip(
    token: Seq<char>,
    claims: ClaimsView,
    secret: Seq<char>,
    now: u64,
    leeway: u64,
)
    requires
        decoded_claims(token, secret) == Some(claims),
        now <= claims.exp + leeway,
    ensures
        token_verdict(token, secret, now, leeway) == Ok::<ClaimsView, TokenError>(claims),
{
}

/// Law: verification of a decodable token succeeds exactly up to its expiry
/// time plus the leeway, and fails as expired from the first second after.
pub proof fn lemma_expiry_boundary(
    token: Seq<char>,
    claims: ClaimsView,
    secret: Seq<char>,
    now: u64,
    leeway: u64,
)
    requires
        decoded_claims(token, secret) == Some(claims),
    ensures
        now > claims.exp + leeway ==> token_verdict(token, secret, now, leeway) == Err::<
            ClaimsView,
            TokenError,
        >(TokenError::Expired),
        now <= claims.exp + leeway ==> token_verdict(token, secret, now, leeway) == Ok::<
            ClaimsView,
            TokenError,
        >(claims),
{
}

} // verus!
