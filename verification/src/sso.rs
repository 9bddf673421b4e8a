//! The state guard of a single-sign-on login: a short-lived signed token
//! that travels in the redirect and in a cookie, and must come back in both.

use crate::github::GitHubError;
use crate::token::{
    check_signature, encode_claims, issued, read_claims, token_claims, token_signed, RawClaims,
    RawView, TokenConfig, TokenError,
};
use vstd::prelude::*;

verus! {

/// Why a login through the provider was refused.
#[derive(Clone, Copy, Debug, PartialEq, Eq, Structural)]
pub enum SsoError {
    /// The callback came without the state cookie.
    StateMissing,
    /// The state of the callback is not the cookie's, or is not a valid
    /// unexpired state token.
    InvalidState,
    /// The provider knows no email of the user that is primary and verified.
    EmailInvalid,
    /// The redirect address configured is no absolute URL.
    InvalidRedirect,
    /// The provider refused, or its answer could not be used.
    GitHub(GitHubError),
}

/// The claims of a login attempt that starts at `now`.
pub open spec fn state_claims(audience: Seq<char>, now: u64, ttl: u64) -> RawView {
    RawView { sub: None, aud: audience, scope: None, iat: now, exp: (now + ttl) as u64 }
}

/// Carried claims are a valid state: the token can be read, was issued for
/// this audience, has not expired, and its signature is valid.
pub open spec fn state_valid(claims: Option<RawView>, signed: bool, audience: Seq<char>, now: u64)
    -> bool {
    match claims {
        Some(raw) => now < raw.exp && raw.aud == audience && signed,
        None => false,
    }
}

/// The verdict on the state of a callback: the cookie must be there, the
/// query's state must be the cookie's, and the token must be valid.
pub open spec fn state_verdict(
    query: Option<Seq<char>>,
    cookie: Option<Seq<char>>,
    claims: Option<RawView>,
    signed: bool,
    audience: Seq<char>,
    now: u64,
) -> Result<(), SsoError> {
    match cookie {
        None => Err(SsoError::StateMissing),
        Some(c) => if query == Some(c) && state_valid(claims, signed, audience, now) {
            Ok(())
        } else {
            Err(SsoError::InvalidState)
        },
    }
}

/// Whether carried claims, under a signature that is valid or not, are a
/// valid state for `audience` at `now`.
pub fn check_state(claims: &Option<RawClaims>, signed: bool, audience: &String, now: u64) -> (r:
    bool)
    ensures
        r == state_valid(
            match *claims {
                Some(raw) => Some(raw@),
                None => None,
            },
            signed,
            audience@,
            now,
        ),
{
    match claims {
        Some(raw) => now < raw.exp && raw.aud == *audience && signed,
        None => false,
    }
}

/// Starts a login attempt at `now`: returns the state token for the redirect
/// and the value of the cookie that holds the same token.
///
/// It always succeeds. Until the attempt expires, the token passes `verify`
/// when it comes back in both places.
pub fn begin(config: &TokenConfig, now: u64) -> (r: Result<(String, String), TokenError>)
    requires
        now + config.state_ttl <= u64::MAX,
    ensures
        r is Ok,
        match r {
            Ok((state, cookie)) => {
                &&& cookie@ == state@
                &&& token_claims(state@) == Some(
                    state_claims(config.audience@, now, config.state_ttl),
                )
                &&& token_signed(state@, config.algorithm, config.secret@)
                &&& forall|later: u64|
                    later < now + config.state_ttl ==> #[trigger] state_verdict(
                        Some(state@),
                        Some(cookie@),
                        token_claims(cookie@),
                        token_signed(cookie@, config.algorithm, config.secret@),
                        config.audience@,
                        later,
                    ) == Ok::<(), SsoError>(())
            },
            Err(_) => false,
        },
{
    let claims = RawClaims {
        sub: None,
        aud: config.audience.clone(),
        scope: None,
        iat: now,
        exp: now + config.state_ttl,
    };
    match issued(encode_claims(config.algorithm, &config.secret, &claims)) {
        Ok(state) => {
            let cookie = state.clone();
            Ok((state, cookie))
        },
        Err(e) => Err(e),
    }
}

/// Verifies the state of a callback at `now`, from the state in its query
/// and the state in its cookie: see `state_verdict`. The token is read only
/// where both are there and equal.
pub fn verify(
    query_state: &Option<String>,
    cookie_state: &Option<String>,
    config: &TokenConfig,
    now: u64,
) -> (r: Result<(), SsoError>)
    ensures
        r == match *cookie_state {
            None => Err::<(), SsoError>(SsoError::StateMissing),
            Some(c) => state_verdict(
                match *query_state {
                    Some(q) => Some(q@),
                    None => None,
                },
                Some(c@),
                token_claims(c@),
                token_signed(c@, config.algorithm, config.secret@),
                config.audience@,
                now,
            ),
        },
{
    match cookie_state {
        None => Err(SsoError::StateMissing),
        Some(cookie) => match query_state {
            None => Err(SsoError::InvalidState),
            Some(query) => {
                if *query != *cookie {
                    return Err(SsoError::InvalidState);
                }
                let claims = read_claims(cookie.as_str());
                let signed = check_signature(cookie.as_str(), config.algorithm, &config.secret);
                if check_state(&claims, signed, &config.audience, now) {
                    Ok(())
                } else {
                    Err(SsoError::InvalidState)
                }
            },
        },
    }
}

/// The state of a callback is accepted exactly when the cookie and the
/// query both hold it, they hold the same, and it is a token that can be
/// read, is validly signed for this audience and has not expired. A missing
/// cookie is reported as such; every other deviation as an invalid state.
pub proof fn lemma_state_accepted_iff(
    query: Option<Seq<char>>,
    cookie: Option<Seq<char>>,
    claims: Option<RawView>,
    signed: bool,
    audience: Seq<char>,
    now: u64,
)
    ensures
        state_verdict(query, cookie, claims, signed, audience, now) is Ok <==> (query is Some
            && cookie is Some && query == cookie && claims is Some && signed && now
            < claims->Some_0.exp && claims->Some_0.aud == audience),
        cookie is None ==> state_verdict(query, cookie, claims, signed, audience, now) == Err::<
            (),
            SsoError,
        >(SsoError::StateMissing),
        cookie is Some && !(state_verdict(query, cookie, claims, signed, audience, now) is Ok)
            ==> state_verdict(query, cookie, claims, signed, audience, now) == Err::<
            (),
            SsoError,
        >(SsoError::InvalidState),
{
}

} // verus!
