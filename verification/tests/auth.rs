use ququer_client::auth::{
    challenge_path, is_expired, is_expired_at, login_request, plan_token_at, require_agent_id,
    token_cache, token_path, AuthError, TokenCache, TokenPlan,
};
use ququer_client::crypto::{sign_bytes, SigningKey};
use ququer_client::keys::StoredKeys;
use ququer_client::types::{ChallengeResponse, LoginResponse};

#[test]
fn is_expired_future_unix_timestamp() {
    // Far future timestamp
    assert!(!is_expired("9999999999"));
}

#[test]
fn is_expired_past_unix_timestamp() {
    assert!(is_expired("1000000000"));
}

#[test]
fn is_expired_zero() {
    assert!(is_expired("0"));
}

#[test]
fn is_expired_non_numeric_returns_true() {
    assert!(is_expired("2026-03-28T12:00:00Z"));
    assert!(is_expired("not-a-timestamp"));
    assert!(is_expired(""));
}

#[test]
fn expiry_at_fixed_time() {
    assert!(is_expired_at("100", 100));
    assert!(!is_expired_at("101", 100));
    assert!(!is_expired_at("+101", 100));
    assert!(is_expired_at("+", 100));
    assert!(is_expired_at("-5", 0));
    assert!(is_expired_at(" 101", 0));
    // one past u64::MAX does not parse, so it counts as expired
    assert!(is_expired_at("18446744073709551616", 0));
    assert!(!is_expired_at("18446744073709551615", 18446744073709551614));
}

#[test]
fn token_file_path() {
    assert_eq!(token_path("/home/a/.ququer"), "/home/a/.ququer/token.json");
}

#[test]
fn challenge_path_names_agent() {
    assert_eq!(challenge_path("agent-1"), "/api/auth/challenge?agentId=agent-1");
}

#[test]
fn login_request_signs_challenge() {
    let key = SigningKey::from_bytes(&[5u8; 32]);
    let req = login_request(
        &key,
        "agent-1",
        ChallengeResponse { challenge: "random-challenge-123".to_string() },
    );
    assert_eq!(req.agent_id, "agent-1");
    assert_eq!(req.challenge, "random-challenge-123");
    assert_eq!(req.signature, sign_bytes(&key, b"random-challenge-123"));
}

#[test]
fn token_cache_keeps_login_answer() {
    let cache = token_cache(
        LoginResponse { token: "jwt-token-abc".to_string(), expires_at: "9999999999".to_string() },
        "agent-1",
    );
    assert_eq!(cache.token, "jwt-token-abc");
    assert_eq!(cache.agent_id, "agent-1");
    assert_eq!(cache.expires_at, "9999999999");
}

fn stored(agent: Option<&str>) -> StoredKeys {
    StoredKeys {
        public_key: "aabb".to_string(),
        secret_key: "ccdd".to_string(),
        agent_id: agent.map(String::from),
    }
}

#[test]
fn unregistered_agent_has_no_token() {
    let err = require_agent_id(&stored(None)).unwrap_err();
    assert_eq!(err, AuthError::NoAgentId);
    assert_eq!(err.message(), "no agent_id — run `ququer register` first");
    assert_eq!(plan_token_at(&stored(None), None, 5), Err(AuthError::NoAgentId));
}

#[test]
fn cached_token_used_until_expiry() {
    let cache = |exp: &str| TokenCache {
        token: "tok".to_string(),
        expires_at: exp.to_string(),
        agent_id: "a1".to_string(),
    };
    assert_eq!(
        plan_token_at(&stored(Some("a1")), Some(cache("200")), 100),
        Ok(TokenPlan::UseCached("tok".to_string()))
    );
    assert_eq!(
        plan_token_at(&stored(Some("a1")), Some(cache("200")), 200),
        Ok(TokenPlan::Login("a1".to_string()))
    );
    assert_eq!(
        plan_token_at(&stored(Some("a1")), Some(cache("2026-03-28T12:00:00Z")), 0),
        Ok(TokenPlan::Login("a1".to_string()))
    );
    assert_eq!(
        plan_token_at(&stored(Some("a1")), None, 0),
        Ok(TokenPlan::Login("a1".to_string()))
    );
}
