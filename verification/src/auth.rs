//! Challenge-response login and the cached session token.

use vstd::prelude::*;

use crate::crypto::{signature_text, sign_bytes, SigningKey};
use crate::keys::StoredKeys;
use crate::text::{decimal, join_path, lemma_parse_decimal, parse_u64, parse_u64_spec, path_join};
use crate::types::{ChallengeResponse, LoginRequest, LoginResponse};

verus! {

/// The contents of `token.json`.
#[derive(Debug, PartialEq, Eq)]
pub struct TokenCache {
    pub token: String,
    pub expires_at: String,
    pub agent_id: String,
}

/// `token.json` in the client directory.
pub fn token_path(dir: &str) -> (p: String)
    ensures
        p@ == path_join(dir@, "token.json"@),
{
    join_path(dir, "token.json")
}

/// Whether a token that expires at `expires_at` has expired at Unix time
/// `now`: the expiry must be a Unix timestamp in seconds; any other text
/// counts as expired.
pub open spec fn expired_at(expires_at: Seq<char>, now: u64) -> bool {
    match parse_u64_spec(expires_at) {
        Some(ts) => now >= ts,
        None => true,
    }
}

/// Whether a token that expires at `expires_at` has expired at Unix time `now`.
pub fn is_expired_at(expires_at: &str, now: u64) -> (expired: bool)
    ensures
        expired == expired_at(expires_at@, now),
{
    match parse_u64(expires_at) {
        Some(ts) => now >= ts,
        None => true,
    }
}

/// The current Unix time in seconds, from `SystemTime::now`; none when the
/// clock reads a time before 1970. Nothing is promised of the value: it is
/// the time.
#[verifier::external_body]
fn unix_time_secs() -> (now: Option<u64>) {
    match std::time::SystemTime::now().duration_since(std::time::UNIX_EPOCH) {
        Ok(d) => Some(d.as_secs()),
        Err(_) => None,
    }
}

/// Whether a token that expires at `expires_at` has expired now. Text that is
/// not a Unix timestamp counts as expired, and so does a timestamp of zero;
/// a clock set before 1970 makes every token count as expired.
pub fn is_expired(expires_at: &str) -> (expired: bool)
    ensures
        parse_u64_spec(expires_at@) is None ==> expired,
        parse_u64_spec(expires_at@) == Some(0u64) ==> expired,
        !expired ==> exists|now: u64| !expired_at(expires_at@, now),
{
    match unix_time_secs() {
        Some(now) => is_expired_at(expires_at, now),
        None => true,
    }
}

/// The path that asks for a login challenge.
pub fn challenge_path(agent_id: &str) -> (p: String)
    ensures
        p@ == "/api/auth/challenge?agentId="@ + agent_id@,
{
    let mut p = String::from_str("/api/auth/challenge?agentId=");
    p.append(agent_id);
    p
}

/// The login request that answers a challenge: the challenge text, signed
/// (as UTF-8 bytes) with the agent's key.
pub fn login_request(key: &SigningKey, agent_id: &str, challenge: ChallengeResponse) -> (req:
    LoginRequest)
    ensures
        req.agent_id@ == agent_id@,
        req.challenge@ == challenge.challenge@,
        req.signature@ == signature_text(key@, vstd::utf8::encode_utf8(challenge.challenge@)),
{
    let signature = sign_bytes(key, challenge.challenge.as_str().as_bytes());
    LoginRequest { agent_id: String::from_str(agent_id), challenge: challenge.challenge, signature }
}

/// What is cached after a login.
pub fn token_cache(resp: LoginResponse, agent_id: &str) -> (cache: TokenCache)
    ensures
        cache.token@ == resp.token@,
        cache.expires_at@ == resp.expires_at@,
        cache.agent_id@ == agent_id@,
{
    TokenCache { token: resp.token, expires_at: resp.expires_at, agent_id: String::from_str(agent_id) }
}

/// Why a token cannot be had.
#[derive(Debug, PartialEq, Eq)]
pub enum AuthError {
    /// The keys carry no agent id: the agent was never registered.
    NoAgentId,
}

impl AuthError {
    /// The message shown to the user.
    pub fn message(&self) -> (m: String)
        ensures
            m@ == "no agent_id — run `ququer register` first"@,
    {
        String::from_str("no agent_id — run `ququer register` first")
    }
}

/// The agent id of saved keys; an error when the agent was never registered.
pub fn require_agent_id(stored: &StoredKeys) -> (r: Result<String, AuthError>)
    ensures
        match stored.agent_id {
            Some(a) => (r matches Ok(id) && id@ == a@),
            None => r == Err::<String, AuthError>(AuthError::NoAgentId),
        },
{
    match &stored.agent_id {
        Some(a) => Ok(a.clone()),
        None => Err(AuthError::NoAgentId),
    }
}

/// Where a session token comes from.
#[derive(Debug, PartialEq, Eq)]
pub enum TokenPlan {
    /// The cached token is still valid.
    UseCached(String),
    /// A new login is needed, as the given agent.
    Login(String),
}

/// The token decision at time `now`: the keys must carry an agent id; a
/// cached token that has not expired is used, otherwise the agent logs in.
pub open spec fn token_plan_at(stored: StoredKeys, cached: Option<TokenCache>, now: u64) -> Option<
    (bool, Seq<char>),
> {
    match stored.agent_id {
        None => None,
        Some(a) => match cached {
            Some(c) => if !expired_at(c.expires_at@, now) {
                Some((true, c.token@))
            } else {
                Some((false, a@))
            },
            None => Some((false, a@)),
        },
    }
}

/// The view of a plan: whether the cache is used, and the token or the
/// agent id.
pub open spec fn plan_view(plan: TokenPlan) -> (bool, Seq<char>) {
    match plan {
        TokenPlan::UseCached(t) => (true, t@),
        TokenPlan::Login(a) => (false, a@),
    }
}

/// How to get a session token, given the saved keys and what `token.json`
/// holds (none when it cannot be read) at Unix time `now`.
pub fn plan_token_at(stored: &StoredKeys, cached: Option<TokenCache>, now: u64) -> (r: Result<
    TokenPlan,
    AuthError,
>)
    ensures
        match token_plan_at(*stored, cached, now) {
            None => r == Err::<TokenPlan, AuthError>(AuthError::NoAgentId),
            Some(v) => (r matches Ok(p) && plan_view(p) == v),
        },
{
    let agent_id = match require_agent_id(stored) {
        Ok(a) => a,
        Err(e) => return Err(e),
    };
    match cached {
        Some(c) => {
            if !is_expired_at(c.expires_at.as_str(), now) {
                Ok(TokenPlan::UseCached(c.token))
            } else {
                Ok(TokenPlan::Login(agent_id))
            }
        },
        None => Ok(TokenPlan::Login(agent_id)),
    }
}

/// How to get a session token now (see `plan_token_at`). A clock set before
/// 1970 makes the cached token count as expired.
pub fn plan_token(stored: &StoredKeys, cached: Option<TokenCache>) -> (r: Result<
    TokenPlan,
    AuthError,
>)
    ensures
        stored.agent_id is None ==> r == Err::<TokenPlan, AuthError>(AuthError::NoAgentId),
        stored.agent_id matches Some(a) ==> (r matches Ok(p) && (plan_view(p) == (false, a@) || exists|
            now: u64,
        | token_plan_at(*stored, cached, now) == Some(plan_view(p)))),
{
    match unix_time_secs() {
        Some(now) => plan_token_at(stored, cached, now),
        None => match require_agent_id(stored) {
            Ok(a) => Ok(TokenPlan::Login(a)),
            Err(e) => Err(e),
        },
    }
}

/// A token whose expiry is written as a Unix timestamp has expired exactly
/// from that second on.
pub proof fn lemma_timestamp_expiry(ts: u64, now: u64)
    ensures
        expired_at(decimal(ts as nat), now) == (now >= ts),
{
    lemma_parse_decimal(ts);
}

} // verus!
