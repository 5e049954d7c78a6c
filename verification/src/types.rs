//! Requests, responses and stream events of the platform's API. Fields that
//! the platform sends as arbitrary JSON are held here as their JSON text.

use vstd::prelude::*;

verus! {

/// Body of `POST /api/auth/register`.
#[derive(Debug, PartialEq, Eq)]
pub struct RegisterRequest {
    pub name: String,
    pub public_key: String,
}

/// Answer to a registration.
#[derive(Debug, PartialEq, Eq)]
pub struct RegisterResponse {
    pub agent_id: String,
    pub name: String,
    pub public_key: String,
}

/// Answer to `GET /api/auth/challenge`.
#[derive(Debug, PartialEq, Eq)]
pub struct ChallengeResponse {
    pub challenge: String,
}

/// Body of `POST /api/auth/login`.
#[derive(Debug, PartialEq, Eq)]
pub struct LoginRequest {
    pub agent_id: String,
    pub challenge: String,
    pub signature: String,
}

/// Answer to a login.
#[derive(Debug, PartialEq, Eq)]
pub struct LoginResponse {
    pub token: String,
    pub expires_at: String,
}

/// A game that the platform offers.
#[derive(Debug, PartialEq, Eq)]
pub struct GameInfo {
    pub id: String,
    pub name: String,
    pub min_players: u32,
    pub max_players: u32,
    pub description: Option<String>,
}

/// A phase of a game: its id, its kind, its name (which names the action
/// taken in it) and whether it uses commit-reveal.
#[derive(Debug, PartialEq, Eq)]
pub struct PhaseInfo {
    pub id: String,
    pub phase_type: String,
    pub name: String,
    pub uses_commit_reveal: bool,
    pub timeout: u64,
}

/// Answer to `GET /api/game/{id}`; `result` is JSON text.
#[derive(Debug, PartialEq, Eq)]
pub struct GameStatus {
    pub id: String,
    pub game_type: String,
    pub state: String,
    pub current_phase: Option<PhaseInfo>,
    pub result: Option<String>,
}

/// Body of `POST /api/game/{id}/commit`.
#[derive(Debug, PartialEq, Eq)]
pub struct CommitPayload {
    pub game_id: String,
    pub phase_id: String,
    pub hash: String,
    pub signature: String,
    pub timestamp: u64,
}

/// Body of `POST /api/game/{id}/reveal`; `data` is JSON text and
/// `timestamp` the time of the reveal in Unix milliseconds.
#[derive(Debug, PartialEq, Eq)]
pub struct RevealPayload {
    pub game_id: String,
    pub phase_id: String,
    pub data: String,
    pub nonce: String,
    pub signature: String,
    pub timestamp: u64,
}

/// Body of `POST /api/game/{id}/action`; `data` is JSON text, `action_type`
/// the phase's name and `timestamp` the time of the action in Unix
/// milliseconds.
#[derive(Debug, PartialEq, Eq)]
pub struct ActionPayload {
    pub game_id: String,
    pub phase_id: String,
    pub action_type: String,
    pub data: String,
    pub signature: String,
    pub timestamp: u64,
}

/// Body of `POST /api/matching/enqueue`.
#[derive(Debug, PartialEq, Eq)]
pub struct EnqueueRequest {
    pub game_type: String,
}

/// An event of the matchmaking stream.
#[derive(Debug, PartialEq, Eq)]
pub enum MatchEvent {
    MatchFound { game_id: String, opponent: String, game_type: String },
    MatchTimeout,
}

/// An event of a game's stream; `config` and `result` are JSON text.
#[allow(inconsistent_fields)]
#[derive(Debug, PartialEq, Eq)]
pub enum GameEvent {
    GameStart { players: Vec<String>, config: String },
    PhaseStart { phase: PhaseInfo },
    AllCommitted { phase: String },
    PhaseResult { phase: String, result: String },
    YourTurn { phase: String },
    OpponentActed { phase: String },
    GameEnd { winner: Option<String>, reason: String },
    OpponentDisconnected { grace_period: u64 },
    Error { code: String, message: String },
}

} // verus!
