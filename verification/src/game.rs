//! Request paths, server-sent event streams, matchmaking and watching a
//! game: the decisions taken on each stream input.

use vstd::prelude::*;

use crate::types::MatchEvent;

verus! {

// ---------------------------------------------------------------- paths

/// `/api/game/<id>`.
pub fn game_path(game_id: &str) -> (p: String)
    ensures
        p@ == "/api/game/"@ + game_id@,
{
    let mut p = String::from_str("/api/game/");
    p.append(game_id);
    p
}

/// `/api/game/<id>/<verb>` (ready, commit, reveal, action, heartbeat).
pub fn game_verb_path(game_id: &str, verb: &str) -> (p: String)
    ensures
        p@ == "/api/game/"@ + game_id@ + "/"@ + verb@,
{
    let mut p = game_path(game_id);
    p.append("/");
    p.append(verb);
    p
}

/// The event stream of a game that the agent plays.
pub fn game_stream_path(game_id: &str) -> (p: String)
    ensures
        p@ == "/api/sse/game/"@ + game_id@,
{
    let mut p = String::from_str("/api/sse/game/");
    p.append(game_id);
    p
}

/// The event stream of a game that the agent watches.
pub fn spectate_path(game_id: &str) -> (p: String)
    ensures
        p@ == "/api/sse/spectate/"@ + game_id@,
{
    let mut p = String::from_str("/api/sse/spectate/");
    p.append(game_id);
    p
}

/// The rules of a game type.
pub fn rules_path(game: &str) -> (p: String)
    ensures
        p@ == "/api/games/"@ + game@ + "/rules"@,
{
    let mut p = String::from_str("/api/games/");
    p.append(game);
    p.append("/rules");
    p
}

/// The leaderboard of a game type, or the wealth leaderboard for `wealth`.
pub fn rank_path(target: &str) -> (p: String)
    ensures
        p@ == "/api/leaderboard/"@ + target@,
{
    let wealth = String::from_str("wealth");
    let t = String::from_str(target);
    if t == wealth {
        let p = String::from_str("/api/leaderboard/wealth");
        proof {
            reveal_strlit("/api/leaderboard/wealth");
            reveal_strlit("/api/leaderboard/");
            reveal_strlit("wealth");
            assert(p@ =~= "/api/leaderboard/"@ + target@);
        }
        p
    } else {
        let mut p = String::from_str("/api/leaderboard/");
        p.append(target);
        p
    }
}

/// The statistics of an agent.
pub fn stats_path(agent_id: &str) -> (p: String)
    ensures
        p@ == "/api/agent/"@ + agent_id@ + "/stats"@,
{
    let mut p = String::from_str("/api/agent/");
    p.append(agent_id);
    p.append("/stats");
    p
}

/// The signed log of a game.
pub fn audit_log_path(game_id: &str) -> (p: String)
    ensures
        p@ == "/api/audit/"@ + game_id@ + "/log"@,
{
    let mut p = String::from_str("/api/audit/");
    p.append(game_id);
    p.append("/log");
    p
}

// ---------------------------------------------------------------- streams

/// What a server-sent event stream delivers next, with each message already
/// read as an event of the expected kind (`None` when it is not one).
#[derive(Debug)]
pub enum StreamInput<T> {
    /// The connection opened.
    Opened,
    /// A message arrived.
    Message(Option<T>),
    /// The connection failed, with the error text.
    Failed(String),
    /// The stream ended.
    Ended,
}

/// Why waiting on a stream failed.
#[derive(Debug, PartialEq, Eq)]
pub enum StreamError {
    /// The connection failed, with the error text.
    Failed(String),
    /// The stream ended before the awaited event.
    Ended,
}

impl StreamError {
    /// The message shown to the user.
    pub fn message(&self) -> (m: String)
        ensures
            match self {
                StreamError::Failed(e) => m@ == "SSE error: "@ + e@,
                StreamError::Ended => m@ == "SSE stream ended unexpectedly"@,
            },
    {
        match self {
            StreamError::Failed(e) => {
                let mut m = String::from_str("SSE error: ");
                m.append(e.as_str());
                m
            },
            StreamError::Ended => String::from_str("SSE stream ended unexpectedly"),
        }
    }
}

/// What to do after one input while waiting for the first event of a kind.
#[derive(Debug)]
pub enum WaitStep<T> {
    /// Keep reading.
    Continue,
    /// The awaited event arrived.
    Event(T),
    /// Stop with an error.
    Failed(StreamError),
}

/// Waiting for the first message that reads as an event: other messages and
/// the opening are skipped, a failure or the end of the stream is an error.
pub fn wait_step<T>(input: StreamInput<T>) -> (step: WaitStep<T>)
    ensures
        match input {
            StreamInput::Opened => step is Continue,
            StreamInput::Message(None) => step is Continue,
            StreamInput::Message(Some(e)) => step == WaitStep::Event(e),
            StreamInput::Failed(m) => step == WaitStep::<T>::Failed(StreamError::Failed(m)),
            StreamInput::Ended => step == WaitStep::<T>::Failed(StreamError::Ended),
        },
{
    match input {
        StreamInput::Opened => WaitStep::Continue,
        StreamInput::Message(None) => WaitStep::Continue,
        StreamInput::Message(Some(e)) => WaitStep::Event(e),
        StreamInput::Failed(m) => WaitStep::Failed(StreamError::Failed(m)),
        StreamInput::Ended => WaitStep::Failed(StreamError::Ended),
    }
}

// ---------------------------------------------------------------- matchmaking

/// A match, and the path that tells the platform the agent is ready.
#[derive(Debug, PartialEq, Eq)]
pub struct Matched {
    pub game_id: String,
    pub opponent: String,
    pub game_type: String,
    pub ready_path: String,
}

/// Why matchmaking failed.
#[derive(Debug, PartialEq, Eq)]
pub enum QueueError {
    /// The platform found no opponent in time; the agent leaves the queue
    /// through `dequeue_path` before giving up.
    TimedOut { dequeue_path: String },
}

impl QueueError {
    /// The message shown to the user.
    pub fn message(&self) -> (m: String)
        ensures
            m@ == "matchmaking timed out"@,
    {
        String::from_str("matchmaking timed out")
    }
}

/// What a matchmaking event means: a match (to be acknowledged as ready) or
/// a timeout, after which the agent leaves the queue so that it can queue
/// again.
pub fn on_match_event(event: MatchEvent) -> (r: Result<Matched, QueueError>)
    ensures
        match event {
            MatchEvent::MatchFound { game_id, opponent, game_type } => (r matches Ok(m) && m.game_id
                == game_id && m.opponent == opponent && m.game_type == game_type && m.ready_path@
                == "/api/game/"@ + game_id@ + "/ready"@),
            MatchEvent::MatchTimeout => (r matches Err(QueueError::TimedOut { dequeue_path })
                && dequeue_path@ == "/api/matching/dequeue"@),
        },
{
    match event {
        MatchEvent::MatchFound { game_id, opponent, game_type } => {
            let ready_path = game_verb_path(game_id.as_str(), "ready");
            proof {
                reveal_strlit("/");
                reveal_strlit("ready");
                reveal_strlit("/ready");
                assert(ready_path@ =~= "/api/game/"@ + game_id@ + "/ready"@);
            }
            Ok(Matched { game_id, opponent, game_type, ready_path })
        },
        MatchEvent::MatchTimeout => Err(
            QueueError::TimedOut { dequeue_path: String::from_str("/api/matching/dequeue") },
        ),
    }
}

// ---------------------------------------------------------------- watching

/// What to do with one input of a watched game's stream.
#[derive(Debug, PartialEq, Eq)]
pub enum WatchStep {
    /// Skip it and keep reading.
    Skip,
    /// Print the message and keep reading.
    Print,
    /// Print the message and stop: the game is over.
    PrintAndStop,
    /// The stream is over; stop.
    Stop,
    /// Stop with an error.
    Failed(StreamError),
}

/// Watching a game: every JSON message is printed, and the message whose
/// `type` is `game_end` is the last. A message is given as `None` when it is
/// not JSON, else with its `type` field when that is a string.
pub fn watch_step(input: StreamInput<Option<String>>) -> (step: WatchStep)
    ensures
        match input {
            StreamInput::Opened => step == WatchStep::Skip,
            StreamInput::Message(None) => step == WatchStep::Skip,
            StreamInput::Message(Some(tag)) => step == (if tag matches Some(t) && t@ == "game_end"@ {
                WatchStep::PrintAndStop
            } else {
                WatchStep::Print
            }),
            StreamInput::Failed(m) => step == WatchStep::Failed(StreamError::Failed(m)),
            StreamInput::Ended => step == WatchStep::Stop,
        },
{
    match input {
        StreamInput::Opened => WatchStep::Skip,
        StreamInput::Message(None) => WatchStep::Skip,
        StreamInput::Message(Some(tag)) => {
            match tag {
                Some(t) => {
                    let end = String::from_str("game_end");
                    if t == end {
                        WatchStep::PrintAndStop
                    } else {
                        WatchStep::Print
                    }
                },
                None => WatchStep::Print,
            }
        },
        StreamInput::Failed(m) => WatchStep::Failed(StreamError::Failed(m)),
        StreamInput::Ended => WatchStep::Stop,
    }
}

/// The `type` field of a JSON text: `None` when the text is not JSON,
/// `Some(None)` when it has no `type` field holding a string, else the
/// string. Named, not written out: it is what `serde_json` reads.
pub uninterp spec fn json_type_field(text: Seq<char>) -> Option<Option<Seq<char>>>;

/// The view of a read `type` field.
pub open spec fn tag_view(t: Option<Option<String>>) -> Option<Option<Seq<char>>> {
    match t {
        None => None,
        Some(None) => Some(None),
        Some(Some(s)) => Some(Some(s@)),
    }
}

/// `serde_json::from_str::<serde_json::Value>`, then the value's `type`
/// field read as a string (`get`, `as_str`): none when the text is not JSON.
#[verifier::external_body]
fn json_type_tag(text: &str) -> (r: Option<Option<String>>)
    ensures
        tag_view(r) == json_type_field(text@),
{
    match serde_json::from_str::<serde_json::Value>(text) {
        Ok(v) => Some(v.get("type").and_then(serde_json::Value::as_str).map(String::from)),
        Err(_) => None,
    }
}

/// What to do with a message of a watched game's stream: a message that is
/// not JSON is skipped, any other is printed, and the one whose `type` is
/// `game_end` is the last.
pub fn watch_message(text: &str) -> (step: WatchStep)
    ensures
        step == (match json_type_field(text@) {
            None => WatchStep::Skip,
            Some(None) => WatchStep::Print,
            Some(Some(t)) => if t == "game_end"@ {
                WatchStep::PrintAndStop
            } else {
                WatchStep::Print
            },
        }),
{
    watch_step(StreamInput::Message(json_type_tag(text)))
}

} // verus!
