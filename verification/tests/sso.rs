use sso_auth::scope::ScopeSet;
use sso_auth::sso::{begin, check_state, verify, SsoError};
use sso_auth::token::{issue, Algorithm, RawClaims, TokenConfig};

fn config() -> TokenConfig {
    TokenConfig {
        algorithm: Algorithm::HS256,
        secret: b"state secret".to_vec(),
        audience: "clients".to_string(),
        ttl: 3600,
        state_ttl: 600,
    }
}

#[test]
fn state_comes_back_in_both_places() {
    let cfg = config();
    let (state, cookie) = begin(&cfg, 100).unwrap();
    assert_eq!(state, cookie);
    assert_eq!(verify(&Some(state.clone()), &Some(cookie.clone()), &cfg, 100), Ok(()));
    assert_eq!(verify(&Some(state), &Some(cookie), &cfg, 699), Ok(()));
}

#[test]
fn missing_cookie_is_reported() {
    let cfg = config();
    let (state, _) = begin(&cfg, 100).unwrap();
    assert_eq!(verify(&Some(state), &None, &cfg, 100), Err(SsoError::StateMissing));
    assert_eq!(verify(&None, &None, &cfg, 100), Err(SsoError::StateMissing));
}

#[test]
fn missing_query_state_is_invalid() {
    let cfg = config();
    let (_, cookie) = begin(&cfg, 100).unwrap();
    assert_eq!(verify(&None, &Some(cookie), &cfg, 100), Err(SsoError::InvalidState));
}

#[test]
fn differing_states_are_invalid() {
    let cfg = config();
    let (state, _) = begin(&cfg, 100).unwrap();
    let (_, later) = begin(&cfg, 101).unwrap();
    assert_ne!(state, later);
    assert_eq!(verify(&Some(state), &Some(later), &cfg, 102), Err(SsoError::InvalidState));
}

#[test]
fn expired_state_is_invalid() {
    let cfg = config();
    let (state, cookie) = begin(&cfg, 100).unwrap();
    assert_eq!(verify(&Some(state), &Some(cookie), &cfg, 700), Err(SsoError::InvalidState));
}

#[test]
fn state_of_another_key_is_invalid() {
    let cfg = config();
    let mut other = config();
    other.secret = b"not ours".to_vec();
    let (state, cookie) = begin(&other, 100).unwrap();
    assert_eq!(verify(&Some(state), &Some(cookie), &cfg, 100), Err(SsoError::InvalidState));
}

#[test]
fn text_that_is_no_token_is_no_state() {
    let cfg = config();
    let text = Some("abc".to_string());
    assert_eq!(verify(&text, &text, &cfg, 100), Err(SsoError::InvalidState));
}

#[test]
fn any_unexpired_token_of_this_key_and_audience_is_a_state() {
    let cfg = config();
    let session = issue("u1".to_string(), "clients".to_string(), ScopeSet::empty(), &cfg, 100).unwrap();
    let text = Some(session);
    assert_eq!(verify(&text, &text, &cfg, 100), Ok(()));
    assert_eq!(verify(&text, &text, &cfg, 3700), Err(SsoError::InvalidState));
}

#[test]
fn state_of_another_audience_is_invalid() {
    let cfg = config();
    let mut other = config();
    other.audience = "services".to_string();
    let (state, cookie) = begin(&other, 100).unwrap();
    assert_eq!(verify(&Some(state), &Some(cookie), &cfg, 100), Err(SsoError::InvalidState));
}

#[test]
fn state_claims_are_judged_field_by_field() {
    let aud = "clients".to_string();
    let good = RawClaims { sub: None, aud: aud.clone(), scope: None, iat: 1, exp: 10 };
    assert!(check_state(&Some(good.clone()), true, &aud, 9));
    assert!(!check_state(&Some(good.clone()), true, &aud, 10));
    assert!(!check_state(&Some(good.clone()), false, &aud, 9));
    assert!(!check_state(&Some(good.clone()), true, &"other".to_string(), 9));
    assert!(!check_state(&None, true, &aud, 9));
    let mut with_subject = good;
    with_subject.sub = Some("u".to_string());
    assert!(check_state(&Some(with_subject.clone()), true, &aud, 9));
    assert!(!check_state(&Some(with_subject), true, &aud, 10));
}
