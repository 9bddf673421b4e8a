//! Signed session tokens: what they claim, how they are issued and how they
//! are verified against a key, an audience and a clock.

use crate::scope::{lemma_names_round_trip, scope_names, scopes_named, ScopeSet};
use vstd::prelude::*;

verus! {

/// The keyed-hash algorithms a token can be signed with.
#[derive(Clone, Copy, Debug, PartialEq, Eq, Structural)]
pub enum Algorithm {
    HS256,
    HS384,
    HS512,
}

/// Key, algorithm, audience and lifetimes of the tokens of one deployment.
#[derive(Clone)]
pub struct TokenConfig {
    pub algorithm: Algorithm,
    pub secret: Vec<u8>,
    pub audience: String,
    /// Seconds a session token is valid for.
    pub ttl: u64,
    /// Seconds a login attempt may take.
    pub state_ttl: u64,
}

/// Why a token was not issued or not accepted.
#[derive(Clone, Copy, Debug, PartialEq, Eq, Structural)]
pub enum TokenError {
    /// The key or the algorithm cannot sign.
    Signing,
    /// The token's expiry is not in the future.
    TokenExpired,
    /// The token was issued for another audience.
    AudienceMismatch,
    /// The signature does not belong to the token and the key.
    SignatureInvalid,
    /// The token cannot be read, or holds no session's claims.
    Malformed,
}

/// The claims of a session: who, for whom, with which scopes, from when to
/// when (Unix seconds).
#[derive(Clone, Debug, PartialEq, Eq)]
pub struct SessionClaims {
    pub sub: String,
    pub aud: String,
    pub scope: ScopeSet,
    pub iat: u64,
    pub exp: u64,
}

/// What a `SessionClaims` holds.
pub struct SessionView {
    pub sub: Seq<char>,
    pub aud: Seq<char>,
    pub scope: ScopeSet,
    pub iat: u64,
    pub exp: u64,
}

impl View for SessionClaims {
    type V = SessionView;

    open spec fn view(&self) -> SessionView {
        SessionView { sub: self.sub@, aud: self.aud@, scope: self.scope, iat: self.iat, exp: self.exp }
    }
}

/// The claims as a token carries them. A session's token has a subject and
/// scope names; the token of a login attempt has neither.
#[derive(Clone, Debug, PartialEq, Eq)]
pub struct RawClaims {
    pub sub: Option<String>,
    pub aud: String,
    pub scope: Option<Vec<String>>,
    pub iat: u64,
    pub exp: u64,
}

/// What a `RawClaims` holds.
pub struct RawView {
    pub sub: Option<Seq<char>>,
    pub aud: Seq<char>,
    pub scope: Option<Seq<Seq<char>>>,
    pub iat: u64,
    pub exp: u64,
}

impl View for RawClaims {
    type V = RawView;

    open spec fn view(&self) -> RawView {
        RawView {
            sub: match self.sub {
                Some(s) => Some(s@),
                None => None,
            },
            aud: self.aud@,
            scope: match self.scope {
                Some(names) => Some(names@.map_values(|s: String| s@)),
                None => None,
            },
            iat: self.iat,
            exp: self.exp,
        }
    }
}

/// The error of the signing library.
#[verifier::external_type_specification]
#[verifier::external_body]
pub struct ExSigningError(jsonwebtoken::errors::Error);

/// The claims that the text of a token carries, whoever signed it: `None`
/// where the text is no token or lacks a claim.
pub uninterp spec fn token_claims(token: Seq<char>) -> Option<RawView>;

/// Whether the text is a token whose signature was made with this algorithm
/// and this secret.
pub uninterp spec fn token_signed(token: Seq<char>, algorithm: Algorithm, secret: Seq<u8>) -> bool;

/// Signs the claims with `jsonwebtoken::encode`, under a header that names
/// the algorithm and with the secret as the key. Believed of it: it
/// succeeds, since a keyed hash takes any secret and claims of text and
/// numbers always serialise; and from the token that comes back,
/// `jsonwebtoken::decode` reads exactly these claims and accepts the
/// signature under the same algorithm and secret.
#[verifier::external_body]
pub(crate) fn encode_claims(algorithm: Algorithm, secret: &Vec<u8>, claims: &RawClaims) -> (r: Result<
    String,
    jsonwebtoken::errors::Error,
>)
    ensures
        r is Ok,
        r matches Ok(t) ==> token_claims(t@) == Some(claims@) && token_signed(
            t@,
            algorithm,
            secret@,
        ),
{
    let alg = match algorithm {
        Algorithm::HS256 => jsonwebtoken::Algorithm::HS256,
        Algorithm::HS384 => jsonwebtoken::Algorithm::HS384,
        Algorithm::HS512 => jsonwebtoken::Algorithm::HS512,
    };
    let mut m = serde_json::Map::new();
    m.insert("sub".to_string(), claims.sub.clone().into());
    m.insert("aud".to_string(), claims.aud.clone().into());
    m.insert("scope".to_string(), claims.scope.clone().into());
    m.insert("iat".to_string(), claims.iat.into());
    m.insert("exp".to_string(), claims.exp.into());
    jsonwebtoken::encode(&jsonwebtoken::Header::new(alg), &m, &jsonwebtoken::EncodingKey::from_secret(secret))
}

/// Reads the claims of a token with `jsonwebtoken::decode`, with the check
/// of the signature and every check of the claims switched off. Believed of
/// it: the result depends on the text alone.
#[verifier::external_body]
pub(crate) fn read_claims(token: &str) -> (r: Option<RawClaims>)
    ensures
        match r {
            Some(c) => token_claims(token@) == Some(c@),
            None => token_claims(token@) is None,
        },
{
    let mut v = jsonwebtoken::Validation::default();
    v.insecure_disable_signature_validation();
    v.validate_exp = false;
    v.validate_aud = false;
    v.required_spec_claims.clear();
    let key = jsonwebtoken::DecodingKey::from_secret(&[]);
    let c = jsonwebtoken::decode::<serde_json::Value>(token, &key, &v).ok()?.claims;
    let fields = vec![c["sub"].clone(), c["aud"].clone(), c["scope"].clone(), c["iat"].clone(), c["exp"].clone()];
    let (sub, aud, scope, iat, exp) = serde_json::from_value(fields.into()).ok()?;
    Some(RawClaims { sub, aud, scope, iat, exp })
}

/// Checks the signature of a token with `jsonwebtoken::decode`, which
/// accepts the algorithm given and no other, with every check of the claims
/// switched off. Believed of it: the result depends on the text, the
/// algorithm and the secret alone.
#[verifier::external_body]
pub(crate) fn check_signature(token: &str, algorithm: Algorithm, secret: &Vec<u8>) -> (r: bool)
    ensures
        r == token_signed(token@, algorithm, secret@),
{
    let alg = match algorithm {
        Algorithm::HS256 => jsonwebtoken::Algorithm::HS256,
        Algorithm::HS384 => jsonwebtoken::Algorithm::HS384,
        Algorithm::HS512 => jsonwebtoken::Algorithm::HS512,
    };
    let mut v = jsonwebtoken::Validation::new(alg);
    v.validate_exp = false;
    v.validate_aud = false;
    v.required_spec_claims.clear();
    let key = jsonwebtoken::DecodingKey::from_secret(secret);
    jsonwebtoken::decode::<serde_json::Value>(token, &key, &v).is_ok()
}

/// The claims of a session as a token carries them.
pub open spec fn raw_of(claims: SessionView) -> RawView {
    RawView {
        sub: Some(claims.sub),
        aud: claims.aud,
        scope: Some(scope_names(claims.scope)),
        iat: claims.iat,
        exp: claims.exp,
    }
}

/// The session that carried claims describe: they must name a subject, hold
/// only known scopes, and expire after they were issued.
pub open spec fn session_of(raw: RawView) -> Option<SessionView> {
    match (raw.sub, raw.scope) {
        (Some(sub), Some(names)) => match scopes_named(names) {
            Some(scope) if raw.iat < raw.exp => Some(
                SessionView { sub, aud: raw.aud, scope, iat: raw.iat, exp: raw.exp },
            ),
            _ => None,
        },
        _ => None,
    }
}

/// The verdict on a token from what it carries, whether its signature is
/// valid, the audience expected and the time. A token that cannot be read
/// is malformed. Of one that can, the expiry is judged first, then the
/// audience, then the signature, then whether the claims are a session's.
pub open spec fn verification(
    claims: Option<RawView>,
    signed: bool,
    audience: Seq<char>,
    now: u64,
) -> Result<SessionView, TokenError> {
    match claims {
        None => Err(TokenError::Malformed),
        Some(raw) => if raw.exp <= now {
            Err(TokenError::TokenExpired)
        } else if raw.aud != audience {
            Err(TokenError::AudienceMismatch)
        } else if !signed {
            Err(TokenError::SignatureInvalid)
        } else {
            match session_of(raw) {
                Some(session) => Ok(session),
                None => Err(TokenError::Malformed),
            }
        },
    }
}

impl SessionClaims {
    /// The claims of a session that starts at `now` and lasts `ttl` seconds.
    pub fn with_scope(audience: String, subject: String, scope: ScopeSet, now: u64, ttl: u64) -> (r:
        SessionClaims)
        requires
            0 < ttl,
            now + ttl <= u64::MAX,
        ensures
            r.iat < r.exp,
            r@ == (SessionView {
                sub: subject@,
                aud: audience@,
                scope,
                iat: now,
                exp: (now + ttl) as u64,
            }),
    {
        SessionClaims { sub: subject, aud: audience, scope, iat: now, exp: now + ttl }
    }

    /// The claims as a token carries them.
    pub fn to_raw(&self) -> (r: RawClaims)
        ensures
            r@ == raw_of(self@),
    {
        let names = self.scope.names();
        let r = RawClaims {
            sub: Some(self.sub.clone()),
            aud: self.aud.clone(),
            scope: Some(names),
            iat: self.iat,
            exp: self.exp,
        };
        assert(r@.scope->Some_0 =~= scope_names(self.scope));
        r
    }

    /// The session that carried claims describe, if they describe one.
    pub fn from_raw(raw: RawClaims) -> (r: Option<SessionClaims>)
        ensures
            match r {
                Some(c) => session_of(raw@) == Some(c@) && c.iat < c.exp,
                None => session_of(raw@) is None,
            },
    {
        match (raw.sub, raw.scope) {
            (Some(sub), Some(names)) => match ScopeSet::from_names(&names) {
                Some(scope) => if raw.iat < raw.exp {
                    Some(SessionClaims { sub, aud: raw.aud, scope, iat: raw.iat, exp: raw.exp })
                } else {
                    None
                },
                None => None,
            },
            _ => None,
        }
    }
}

/// The verdict on a token whose claims were read and whose signature was
/// checked: see `verification`.
pub fn check_claims(claims: Option<RawClaims>, signed: bool, audience: &String, now: u64) -> (r:
    Result<SessionClaims, TokenError>)
    ensures
        match r {
            Ok(c) => verification(
                match claims {
                    Some(raw) => Some(raw@),
                    None => None,
                },
                signed,
                audience@,
                now,
            ) == Ok::<SessionView, TokenError>(c@),
            Err(e) => verification(
                match claims {
                    Some(raw) => Some(raw@),
                    None => None,
                },
                signed,
                audience@,
                now,
            ) == Err::<SessionView, TokenError>(e),
        },
{
    match claims {
        None => Err(TokenError::Malformed),
        Some(raw) => {
            if raw.exp <= now {
                Err(TokenError::TokenExpired)
            } else if raw.aud != *audience {
                Err(TokenError::AudienceMismatch)
            } else if !signed {
                Err(TokenError::SignatureInvalid)
            } else {
                match SessionClaims::from_raw(raw) {
                    Some(session) => Ok(session),
                    None => Err(TokenError::Malformed),
                }
            }
        },
    }
}

/// What `issue` returns for each outcome of the signing.
pub fn issued(outcome: Result<String, jsonwebtoken::errors::Error>) -> (r: Result<
    String,
    TokenError,
>)
    ensures
        match outcome {
            Ok(t) => r == Ok::<String, TokenError>(t),
            Err(_) => r == Err::<String, TokenError>(TokenError::Signing),
        },
{
    match outcome {
        Ok(t) => Ok(t),
        Err(_) => Err(TokenError::Signing),
    }
}

/// Issues the token of a session of `subject` with `scope`, for `audience`,
/// from `now` for the configured lifetime.
///
/// It always succeeds. The token carries exactly these claims and is signed
/// with the configured key, so that until it expires it verifies, for the
/// same audience, to these claims.
pub fn issue(subject: String, audience: String, scope: ScopeSet, config: &TokenConfig, now: u64) -> (r:
    Result<String, TokenError>)
    requires
        0 < config.ttl,
        now + config.ttl <= u64::MAX,
    ensures
        r is Ok,
        match r {
            Ok(t) => {
                let claims = SessionView {
                    sub: subject@,
                    aud: audience@,
                    scope,
                    iat: now,
                    exp: (now + config.ttl) as u64,
                };
                &&& token_claims(t@) == Some(raw_of(claims))
                &&& token_signed(t@, config.algorithm, config.secret@)
                &&& forall|later: u64|
                    later < now + config.ttl ==> #[trigger] verification(
                        token_claims(t@),
                        token_signed(t@, config.algorithm, config.secret@),
                        audience@,
                        later,
                    ) == Ok::<SessionView, TokenError>(claims)
            },
            Err(_) => false,
        },
{
    let claims = SessionClaims::with_scope(audience, subject, scope, now, config.ttl);
    let raw = claims.to_raw();
    let r = issued(encode_claims(config.algorithm, &config.secret, &raw));
    proof {
        assert forall|later: u64| later < now + config.ttl implies #[trigger] verification(
            Some(raw_of(claims@)),
            true,
            claims@.aud,
            later,
        ) == Ok::<SessionView, TokenError>(claims@) by {
            lemma_round_trip(claims@, later);
        }
    }
    r
}

/// Verifies a token for the audience expected, at the time `now`: see
/// `verification` for the verdict.
pub fn verify(token: &str, expected_audience: &String, config: &TokenConfig, now: u64) -> (r:
    Result<SessionClaims, TokenError>)
    ensures
        match r {
            Ok(c) => verification(
                token_claims(token@),
                token_signed(token@, config.algorithm, config.secret@),
                expected_audience@,
                now,
            ) == Ok::<SessionView, TokenError>(c@),
            Err(e) => verification(
                token_claims(token@),
                token_signed(token@, config.algorithm, config.secret@),
                expected_audience@,
                now,
            ) == Err::<SessionView, TokenError>(e),
        },
{
    let claims = read_claims(token);
    let signed = check_signature(token, config.algorithm, &config.secret);
    check_claims(claims, signed, expected_audience, now)
}

/// The claims of a session, written into a token that is validly signed,
/// verify before the expiry, for their own audience, to themselves.
pub proof fn lemma_round_trip(claims: SessionView, now: u64)
    requires
        claims.iat < claims.exp,
        now < claims.exp,
    ensures
        verification(Some(raw_of(claims)), true, claims.aud, now) == Ok::<
            SessionView,
            TokenError,
        >(claims),
{
    lemma_names_round_trip(claims.scope);
}

/// A token whose expiry is not after `now` is rejected as expired, whatever
/// its signature, its audience and its other claims are.
pub proof fn lemma_expired_is_rejected(raw: RawView, signed: bool, audience: Seq<char>, now: u64)
    requires
        raw.exp <= now,
    ensures
        verification(Some(raw), signed, audience, now) == Err::<SessionView, TokenError>(
            TokenError::TokenExpired,
        ),
{
}

/// A token is accepted only if it can be read, is unexpired, was issued for
/// the audience expected and is validly signed.
pub proof fn lemma_accepted_only_if_valid(
    claims: Option<RawView>,
    signed: bool,
    audience: Seq<char>,
    now: u64,
)
    requires
        verification(claims, signed, audience, now) is Ok,
    ensures
        claims is Some,
        signed,
        now < claims->Some_0.exp,
        claims->Some_0.aud == audience,
        session_of(claims->Some_0) == Some(verification(claims, signed, audience, now)->Ok_0),
{
}

} // verus!
