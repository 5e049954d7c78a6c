use base64::Engine;
use ed25519_dalek::Verifier;
use sha2::{Digest, Sha256};

use ququer_client::crypto::{commit_hash, public_key_to_spki_base64, sign_bytes, SigningKey};
use ququer_client::game::{
    audit_log_path, game_path, game_stream_path, game_verb_path, on_match_event, rank_path,
    rules_path, spectate_path, stats_path, wait_step, watch_message, watch_step, Matched, QueueError,
    StreamError, StreamInput, WaitStep, WatchStep,
};
use ququer_client::types::MatchEvent;

#[test]
fn commit_reveal_hash_chain_integrity() {
    let key = SigningKey::from_bytes(&[20u8; 32]);
    let data = r#"{"action":"paper"}"#;
    let nonce = "fixed-nonce-for-test";

    let hash = commit_hash(data, nonce);
    let commit_sig = sign_bytes(&key, hash.as_bytes());

    // Hash is deterministic
    let reveal_hash = commit_hash(data, nonce);
    assert_eq!(hash, reveal_hash);

    // Signature is base64 and verifiable
    let sig_bytes = base64::engine::general_purpose::STANDARD.decode(&commit_sig).unwrap();
    let sig = ed25519_dalek::Signature::from_bytes(&sig_bytes.try_into().unwrap());
    let dalek = ed25519_dalek::SigningKey::from_bytes(&[20u8; 32]);
    assert!(dalek.verifying_key().verify(hash.as_bytes(), &sig).is_ok());
}

#[test]
fn public_key_is_spki_base64_not_hex() {
    let key = SigningKey::from_bytes(&[99u8; 32]);
    let pk = public_key_to_spki_base64(&key);

    // Should be base64, not hex
    let decoded = base64::engine::general_purpose::STANDARD.decode(&pk).unwrap();
    assert_eq!(decoded.len(), 44); // 12 byte SPKI prefix + 32 byte key

    // Should NOT be 64 chars hex
    assert_ne!(pk.len(), 64);
}

#[test]
fn request_paths() {
    assert_eq!(game_path("game-1"), "/api/game/game-1");
    assert_eq!(game_verb_path("game-1", "commit"), "/api/game/game-1/commit");
    assert_eq!(game_verb_path("g1", "heartbeat"), "/api/game/g1/heartbeat");
    assert_eq!(game_stream_path("game-1"), "/api/sse/game/game-1");
    assert_eq!(spectate_path("game-1"), "/api/sse/spectate/game-1");
    assert_eq!(rules_path("blotto"), "/api/games/blotto/rules");
    assert_eq!(stats_path("a1"), "/api/agent/a1/stats");
    assert_eq!(audit_log_path("g9"), "/api/audit/g9/log");
}

#[test]
fn rank_paths() {
    assert_eq!(rank_path("wealth"), "/api/leaderboard/wealth");
    assert_eq!(rank_path("liars-dice"), "/api/leaderboard/liars-dice");
}

#[test]
fn match_found_is_acknowledged() {
    let m = on_match_event(MatchEvent::MatchFound {
        game_id: "g1".into(),
        opponent: "agent2".into(),
        game_type: "rps".into(),
    })
    .unwrap();
    assert_eq!(
        m,
        Matched {
            game_id: "g1".into(),
            opponent: "agent2".into(),
            game_type: "rps".into(),
            ready_path: "/api/game/g1/ready".into(),
        }
    );
}

#[test]
fn match_timeout_is_an_error() {
    let err = on_match_event(MatchEvent::MatchTimeout).unwrap_err();
    assert_eq!(err, QueueError::TimedOut { dequeue_path: "/api/matching/dequeue".into() });
    assert_eq!(err.message(), "matchmaking timed out");
}

#[test]
fn waiting_takes_first_event() {
    assert!(matches!(wait_step::<u8>(StreamInput::Opened), WaitStep::Continue));
    assert!(matches!(wait_step::<u8>(StreamInput::Message(None)), WaitStep::Continue));
    assert!(matches!(wait_step(StreamInput::Message(Some(3u8))), WaitStep::Event(3)));
    match wait_step::<u8>(StreamInput::Failed("boom".into())) {
        WaitStep::Failed(e) => assert_eq!(e.message(), "SSE error: boom"),
        _ => panic!("expected a failure"),
    }
    match wait_step::<u8>(StreamInput::Ended) {
        WaitStep::Failed(e) => {
            assert_eq!(e, StreamError::Ended);
            assert_eq!(e.message(), "SSE stream ended unexpectedly");
        }
        _ => panic!("expected a failure"),
    }
}

#[test]
fn watching_stops_at_game_end() {
    assert_eq!(watch_step(StreamInput::Opened), WatchStep::Skip);
    assert_eq!(watch_step(StreamInput::Message(None)), WatchStep::Skip);
    assert_eq!(watch_step(StreamInput::Message(Some(None))), WatchStep::Print);
    assert_eq!(
        watch_step(StreamInput::Message(Some(Some("phase_result".into())))),
        WatchStep::Print
    );
    assert_eq!(
        watch_step(StreamInput::Message(Some(Some("game_end".into())))),
        WatchStep::PrintAndStop
    );
    assert_eq!(watch_step(StreamInput::Ended), WatchStep::Stop);
    assert_eq!(
        watch_step(StreamInput::Failed("x".into())),
        WatchStep::Failed(StreamError::Failed("x".into()))
    );
}

#[test]
fn commit_is_sha256_of_data_and_nonce() {
    let data = r#"{"action":"rock"}"#;
    let nonce = "n-1";
    let expected = hex::encode(Sha256::digest(format!("{}:{}", data, nonce).as_bytes()));
    assert_eq!(commit_hash(data, nonce), expected);
}

#[test]
fn watched_messages_are_read_as_json() {
    assert_eq!(watch_message("not json"), WatchStep::Skip);
    assert_eq!(watch_message(r#"{"type":"phase_result","result":1}"#), WatchStep::Print);
    assert_eq!(watch_message(r#"{"type":"game_end","winner":null}"#), WatchStep::PrintAndStop);
    assert_eq!(watch_message(r#"{"type":7}"#), WatchStep::Print);
    assert_eq!(watch_message("[1,2]"), WatchStep::Print);
    assert_eq!(watch_message("\"game_end\""), WatchStep::Print);
}
