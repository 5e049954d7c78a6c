//! Submitting a move. A simultaneous phase with commit-reveal runs in two
//! steps: first a signed commitment (SHA-256 of the move and a fresh nonce),
//! then, once every player has committed, the move and the nonce themselves.
//! Any other phase takes the signed move at once. Both then wait for the
//! phase's result on the game's event stream.

use vstd::prelude::*;
use vstd::utf8::encode_utf8;

use crate::crypto::{
    commit_hash, commit_hash_spec, commit_preimage, generate_nonce, is_uuid_v4_text, sha256,
    sign_bytes, signature_text, SigningKey,
};
use crate::encoding::hex_lower;
use crate::game::StreamInput;
use crate::types::{ActionPayload, CommitPayload, GameEvent, GameStatus, RevealPayload};

verus! {

/// The normal form of JSON text: what `serde_json` writes back after reading
/// it as a JSON value; none when the text is not JSON. Named, not written
/// out: it is what `serde_json::from_str` followed by `to_string` computes.
pub uninterp spec fn json_normal_form(text: Seq<char>) -> Option<Seq<char>>;

/// `serde_json::from_str::<serde_json::Value>`, with the value written back as
/// text (`to_string`); on an error, the error's message.
#[verifier::external_body]
fn json_normalize(text: &str) -> (r: Result<String, String>)
    ensures
        r is Ok <==> json_normal_form(text@) is Some,
        r matches Ok(s) ==> json_normal_form(text@) == Some(s@),
{
    match serde_json::from_str::<serde_json::Value>(text) {
        Ok(v) => Ok(v.to_string()),
        Err(e) => Err(e.to_string()),
    }
}

/// Which event a round was waiting for when its stream broke off.
#[derive(Debug, Clone, Copy, PartialEq, Eq)]
pub enum Awaiting {
    AllCommitted,
    PhaseResult,
}

/// Why a move could not be submitted.
#[derive(Debug, PartialEq, Eq)]
pub enum SubmitError {
    /// The game has no phase that takes moves.
    NoActivePhase,
    /// The move is not JSON; the parser's message.
    InvalidJson(String),
    /// The event stream failed; the error text.
    StreamFailed { awaiting: Awaiting, message: String },
    /// The event stream ended early.
    StreamEnded { awaiting: Awaiting },
}

/// The message shown to the user for an error.
pub open spec fn submit_error_text(e: SubmitError) -> Seq<char> {
    match e {
        SubmitError::NoActivePhase => "no active phase"@,
        SubmitError::InvalidJson(m) => "invalid JSON data: "@ + m@,
        SubmitError::StreamFailed { awaiting: Awaiting::AllCommitted, message } =>
            "SSE error waiting for all_committed: "@ + message@,
        SubmitError::StreamFailed { awaiting: Awaiting::PhaseResult, message } =>
            "SSE error waiting for phase_result: "@ + message@,
        SubmitError::StreamEnded { awaiting: Awaiting::AllCommitted } =>
            "SSE stream ended before all_committed"@,
        SubmitError::StreamEnded { awaiting: Awaiting::PhaseResult } =>
            "SSE stream ended before phase_result"@,
    }
}

impl SubmitError {
    /// The message shown to the user.
    pub fn message(&self) -> (m: String)
        ensures
            m@ == submit_error_text(*self),
    {
        match self {
            SubmitError::NoActivePhase => String::from_str("no active phase"),
            SubmitError::InvalidJson(e) => {
                let mut m = String::from_str("invalid JSON data: ");
                m.append(e.as_str());
                m
            },
            SubmitError::StreamFailed { awaiting, message } => {
                let mut m = match awaiting {
                    Awaiting::AllCommitted => String::from_str(
                        "SSE error waiting for all_committed: ",
                    ),
                    Awaiting::PhaseResult => String::from_str("SSE error waiting for phase_result: "),
                };
                m.append(message.as_str());
                m
            },
            SubmitError::StreamEnded { awaiting } => match awaiting {
                Awaiting::AllCommitted => String::from_str("SSE stream ended before all_committed"),
                Awaiting::PhaseResult => String::from_str("SSE stream ended before phase_result"),
            },
        }
    }
}

/// The move in normal JSON form, which is what is hashed, signed and sent.
pub fn normalize_move(data: &str) -> (r: Result<String, SubmitError>)
    ensures
        match json_normal_form(data@) {
            Some(n) => (r matches Ok(s) && s@ == n),
            None => r matches Err(SubmitError::InvalidJson(_)),
        },
{
    match json_normalize(data) {
        Ok(s) => Ok(s),
        Err(e) => Err(SubmitError::InvalidJson(e)),
    }
}

/// How the current phase takes moves.
#[derive(Debug, Clone, Copy, PartialEq, Eq)]
pub enum SubmitMode {
    /// Commit, then reveal.
    CommitReveal,
    /// A signed action.
    Action,
}

/// The phase to submit to (its id and its name), and how.
#[derive(Debug, PartialEq, Eq)]
pub struct PhaseChoice {
    pub mode: SubmitMode,
    pub phase_id: String,
    pub phase_name: String,
}

/// The phase of a game that a move goes to, by its id: commit-reveal exactly
/// when the phase is simultaneous and uses commit-reveal. A game without a
/// current phase takes no move.
pub fn choose_submission(status: GameStatus) -> (r: Result<PhaseChoice, SubmitError>)
    ensures
        match status.current_phase {
            None => r == Err::<PhaseChoice, SubmitError>(SubmitError::NoActivePhase),
            Some(p) => (r matches Ok(c) && c.phase_id == p.id && c.phase_name == p.name && c.mode == (if p.phase_type@
                == "simultaneous"@ && p.uses_commit_reveal {
                SubmitMode::CommitReveal
            } else {
                SubmitMode::Action
            })),
        },
{
    match status.current_phase {
        None => Err(SubmitError::NoActivePhase),
        Some(p) => {
            let simultaneous = String::from_str("simultaneous");
            let mode = if p.phase_type == simultaneous && p.uses_commit_reveal {
                SubmitMode::CommitReveal
            } else {
                SubmitMode::Action
            };
            Ok(PhaseChoice { mode, phase_id: p.id, phase_name: p.name })
        },
    }
}

/// How a round ended well: with the phase's result (JSON text), or with the
/// end of the whole game.
#[derive(Debug, PartialEq, Eq)]
pub enum RoundOutcome {
    PhaseResult(String),
    GameEnd { winner: Option<String>, reason: String },
}

/// What to do after one input of the game's event stream.
#[derive(Debug, PartialEq, Eq)]
pub enum RoundStep {
    /// Keep reading.
    Continue,
    /// Send this reveal, then keep reading.
    Reveal(RevealPayload),
    /// The round is over.
    Done(RoundOutcome),
    /// The round failed.
    Failed(SubmitError),
}

/// Where a round stands.
#[derive(Debug, Clone, Copy, PartialEq, Eq)]
pub enum RoundStage {
    /// The commitment is sent; waiting until every player has committed.
    AwaitingAllCommitted,
    /// The move is sent; waiting for the phase's result.
    AwaitingPhaseResult,
    /// Nothing more to do.
    Finished,
}

/// The stage after one input.
pub open spec fn next_stage(stage: RoundStage, input: StreamInput<GameEvent>) -> RoundStage {
    match stage {
        RoundStage::AwaitingAllCommitted => match input {
            StreamInput::Message(Some(GameEvent::AllCommitted { .. })) =>
                RoundStage::AwaitingPhaseResult,
            StreamInput::Message(Some(GameEvent::GameEnd { .. })) => RoundStage::Finished,
            StreamInput::Failed(_) => RoundStage::Finished,
            StreamInput::Ended => RoundStage::Finished,
            _ => RoundStage::AwaitingAllCommitted,
        },
        RoundStage::AwaitingPhaseResult => match input {
            StreamInput::Message(Some(GameEvent::PhaseResult { .. })) => RoundStage::Finished,
            StreamInput::Message(Some(GameEvent::GameEnd { .. })) => RoundStage::Finished,
            StreamInput::Failed(_) => RoundStage::Finished,
            StreamInput::Ended => RoundStage::Finished,
            _ => RoundStage::AwaitingPhaseResult,
        },
        RoundStage::Finished => RoundStage::Finished,
    }
}

/// The step taken while waiting for the phase's result: the result or the
/// end of the game ends the round, a failure or the end of the stream is an
/// error, anything else is skipped.
pub open spec fn result_step(input: StreamInput<GameEvent>, step: RoundStep) -> bool {
    match input {
        StreamInput::Message(Some(GameEvent::PhaseResult { result, .. })) => step
            == RoundStep::Done(RoundOutcome::PhaseResult(result)),
        StreamInput::Message(Some(GameEvent::GameEnd { winner, reason })) => step
            == RoundStep::Done(RoundOutcome::GameEnd { winner, reason }),
        StreamInput::Failed(m) => step == RoundStep::Failed(
            SubmitError::StreamFailed { awaiting: Awaiting::PhaseResult, message: m },
        ),
        StreamInput::Ended => step == RoundStep::Failed(
            SubmitError::StreamEnded { awaiting: Awaiting::PhaseResult },
        ),
        _ => step is Continue,
    }
}

/// One input while waiting for the phase's result (see `result_step`).
fn await_result(input: StreamInput<GameEvent>) -> (step: RoundStep)
    ensures
        result_step(input, step),
{
    match input {
        StreamInput::Message(Some(GameEvent::PhaseResult { result, .. })) => RoundStep::Done(
            RoundOutcome::PhaseResult(result),
        ),
        StreamInput::Message(Some(GameEvent::GameEnd { winner, reason })) => RoundStep::Done(
            RoundOutcome::GameEnd { winner, reason },
        ),
        StreamInput::Failed(m) => RoundStep::Failed(
            SubmitError::StreamFailed { awaiting: Awaiting::PhaseResult, message: m },
        ),
        StreamInput::Ended => RoundStep::Failed(
            SubmitError::StreamEnded { awaiting: Awaiting::PhaseResult },
        ),
        _ => RoundStep::Continue,
    }
}

/// A commit-reveal round: the move (normal JSON text), the nonce it was
/// committed with, and where the round stands.
pub struct CommitRevealRound {
    pub game_id: String,
    pub phase_id: String,
    pub key: SigningKey,
    pub data: String,
    pub nonce: String,
    pub stage: RoundStage,
}

/// The commitment of a round: SHA-256 of `data:nonce` in hexadecimal,
/// signed (as the UTF-8 of that text) with the agent's key.
pub open spec fn commitment_of(round: CommitRevealRound, c: CommitPayload, timestamp: u64) -> bool {
    &&& c.game_id@ == round.game_id@
    &&& c.phase_id@ == round.phase_id@
    &&& c.hash@ == commit_hash_spec(round.data@, round.nonce@)
    &&& c.signature@ == signature_text(round.key@, encode_utf8(c.hash@))
    &&& c.timestamp == timestamp
}

/// The reveal of a round at `timestamp`: the move and the nonce, with a
/// signature over the very bytes that the commitment hashed.
pub open spec fn reveal_of(round: CommitRevealRound, p: RevealPayload, timestamp: u64) -> bool {
    &&& p.timestamp == timestamp
    &&& p.game_id@ == round.game_id@
    &&& p.phase_id@ == round.phase_id@
    &&& p.data@ == round.data@
    &&& p.nonce@ == round.nonce@
    &&& p.signature@ == signature_text(round.key@, commit_preimage(round.data@, round.nonce@))
}

/// The step of a commit-reveal round at `timestamp`: while waiting for every
/// commitment, `all_committed` sends the reveal (stamped with `timestamp`)
/// and the end of the game ends the round; then it waits for the result (see
/// `result_step`).
pub open spec fn round_step(
    round: CommitRevealRound,
    input: StreamInput<GameEvent>,
    timestamp: u64,
    step: RoundStep,
) -> bool {
    match round.stage {
        RoundStage::AwaitingAllCommitted => match input {
            StreamInput::Message(Some(GameEvent::AllCommitted { .. })) => (step matches RoundStep::Reveal(
                p,
            ) && reveal_of(round, p, timestamp)),
            StreamInput::Message(Some(GameEvent::GameEnd { winner, reason })) => step
                == RoundStep::Done(RoundOutcome::GameEnd { winner, reason }),
            StreamInput::Failed(m) => step == RoundStep::Failed(
                SubmitError::StreamFailed { awaiting: Awaiting::AllCommitted, message: m },
            ),
            StreamInput::Ended => step == RoundStep::Failed(
                SubmitError::StreamEnded { awaiting: Awaiting::AllCommitted },
            ),
            _ => step is Continue,
        },
        RoundStage::AwaitingPhaseResult => result_step(input, step),
        RoundStage::Finished => false,
    }
}

/// The round keeps its move, nonce and key; only its stage moves on.
pub open spec fn same_round(a: CommitRevealRound, b: CommitRevealRound) -> bool {
    &&& a.game_id == b.game_id
    &&& a.phase_id == b.phase_id
    &&& a.key == b.key
    &&& a.data == b.data
    &&& a.nonce == b.nonce
}

impl CommitRevealRound {
    /// Starts a round for the move `data` (normal JSON text): draws a fresh
    /// nonce and gives the commitment to send, stamped with `timestamp`
    /// (Unix milliseconds).
    pub fn start(
        game_id: &str,
        phase_id: &str,
        key: &SigningKey,
        data: &str,
        timestamp: u64,
    ) -> (r: (CommitRevealRound, CommitPayload))
        ensures
            r.0.game_id@ == game_id@,
            r.0.phase_id@ == phase_id@,
            r.0.key == *key,
            r.0.data@ == data@,
            is_uuid_v4_text(r.0.nonce@),
            r.0.stage == RoundStage::AwaitingAllCommitted,
            commitment_of(r.0, r.1, timestamp),
    {
        let nonce = generate_nonce();
        let hash = commit_hash(data, nonce.as_str());
        let signature = sign_bytes(key, hash.as_str().as_bytes());
        let commit = CommitPayload {
            game_id: String::from_str(game_id),
            phase_id: String::from_str(phase_id),
            hash,
            signature,
            timestamp,
        };
        let round = CommitRevealRound {
            game_id: String::from_str(game_id),
            phase_id: String::from_str(phase_id),
            key: *key,
            data: String::from_str(data),
            nonce,
            stage: RoundStage::AwaitingAllCommitted,
        };
        (round, commit)
    }

    /// Takes one input of the game's event stream at `timestamp` (Unix
    /// milliseconds; see `round_step` and `next_stage`).
    pub fn step(&mut self, input: StreamInput<GameEvent>, timestamp: u64) -> (step: RoundStep)
        requires
            old(self).stage != RoundStage::Finished,
        ensures
            same_round(*old(self), *final(self)),
            final(self).stage == next_stage(old(self).stage, input),
            round_step(*old(self), input, timestamp, step),
            (step is Done || step is Failed) <==> final(self).stage == RoundStage::Finished,
            step is Continue ==> final(self).stage == old(self).stage,
            input matches StreamInput::Message(Some(GameEvent::GameEnd { winner, reason })) ==> step
                == RoundStep::Done(RoundOutcome::GameEnd { winner, reason }),
    {
        match self.stage {
            RoundStage::AwaitingAllCommitted => match input {
                StreamInput::Message(Some(GameEvent::AllCommitted { .. })) => {
                    let mut message = self.data.clone();
                    message.push(':');
                    message.append(self.nonce.as_str());
                    assert(message@ =~= self.data@ + seq![':'] + self.nonce@);
                    let signature = sign_bytes(&self.key, message.as_str().as_bytes());
                    self.stage = RoundStage::AwaitingPhaseResult;
                    RoundStep::Reveal(
                        RevealPayload {
                            game_id: self.game_id.clone(),
                            phase_id: self.phase_id.clone(),
                            data: self.data.clone(),
                            nonce: self.nonce.clone(),
                            signature,
                            timestamp,
                        },
                    )
                },
                StreamInput::Message(Some(GameEvent::GameEnd { winner, reason })) => {
                    self.stage = RoundStage::Finished;
                    RoundStep::Done(RoundOutcome::GameEnd { winner, reason })
                },
                StreamInput::Failed(m) => {
                    self.stage = RoundStage::Finished;
                    RoundStep::Failed(
                        SubmitError::StreamFailed { awaiting: Awaiting::AllCommitted, message: m },
                    )
                },
                StreamInput::Ended => {
                    self.stage = RoundStage::Finished;
                    RoundStep::Failed(SubmitError::StreamEnded { awaiting: Awaiting::AllCommitted })
                },
                _ => RoundStep::Continue,
            },
            RoundStage::AwaitingPhaseResult => {
                let done = match &input {
                    StreamInput::Message(Some(GameEvent::PhaseResult { .. })) => true,
                    StreamInput::Message(Some(GameEvent::GameEnd { .. })) => true,
                    StreamInput::Failed(_) => true,
                    StreamInput::Ended => true,
                    _ => false,
                };
                if done {
                    self.stage = RoundStage::Finished;
                }
                await_result(input)
            },
            RoundStage::Finished => RoundStep::Continue,
        }
    }
}

/// A round that sends a signed action and waits for the phase's result.
#[derive(Debug)]
pub struct ActionRound {
    pub stage: RoundStage,
}

/// The action of a move: the move itself, signed (as UTF-8 of its normal
/// JSON text) with the agent's key, with the phase's name as its type and the
/// time of the action.
pub open spec fn action_of(
    game_id: Seq<char>,
    phase_id: Seq<char>,
    action_type: Seq<char>,
    key: SigningKey,
    data: Seq<char>,
    timestamp: u64,
    p: ActionPayload,
) -> bool {
    &&& p.game_id@ == game_id
    &&& p.phase_id@ == phase_id
    &&& p.action_type@ == action_type
    &&& p.timestamp == timestamp
    &&& p.data@ == data
    &&& p.signature@ == signature_text(key@, encode_utf8(data))
}

impl ActionRound {
    /// Starts an action round for the move `data` (normal JSON text) in the
    /// phase `phase_id` named `action_type`: gives the signed action to send,
    /// stamped with `timestamp` (Unix milliseconds).
    pub fn start(
        game_id: &str,
        phase_id: &str,
        action_type: &str,
        key: &SigningKey,
        data: &str,
        timestamp: u64,
    ) -> (r: (ActionRound, ActionPayload))
        ensures
            r.0.stage == RoundStage::AwaitingPhaseResult,
            action_of(game_id@, phase_id@, action_type@, *key, data@, timestamp, r.1),
    {
        let signature = sign_bytes(key, data.as_bytes());
        (
            ActionRound { stage: RoundStage::AwaitingPhaseResult },
            ActionPayload {
                game_id: String::from_str(game_id),
                phase_id: String::from_str(phase_id),
                action_type: String::from_str(action_type),
                data: String::from_str(data),
                signature,
                timestamp,
            },
        )
    }

    /// Takes one input of the game's event stream (see `result_step`).
    pub fn step(&mut self, input: StreamInput<GameEvent>) -> (step: RoundStep)
        requires
            old(self).stage == RoundStage::AwaitingPhaseResult,
        ensures
            final(self).stage == next_stage(old(self).stage, input),
            result_step(input, step),
            (step is Done || step is Failed) <==> final(self).stage == RoundStage::Finished,
            step is Continue ==> final(self).stage == RoundStage::AwaitingPhaseResult,
            !(step is Reveal),
            input matches StreamInput::Message(Some(GameEvent::GameEnd { winner, reason })) ==> step
                == RoundStep::Done(RoundOutcome::GameEnd { winner, reason }),
            input matches StreamInput::Message(Some(GameEvent::PhaseResult { result, .. })) ==> step
                == RoundStep::Done(RoundOutcome::PhaseResult(result)),
    {
        let done = match &input {
            StreamInput::Message(Some(GameEvent::PhaseResult { .. })) => true,
            StreamInput::Message(Some(GameEvent::GameEnd { .. })) => true,
            StreamInput::Failed(_) => true,
            StreamInput::Ended => true,
            _ => false,
        };
        if done {
            self.stage = RoundStage::Finished;
        }
        await_result(input)
    }
}

/// The stage of a round that starts at `start`, after the given stream
/// inputs.
pub open spec fn stage_from(start: RoundStage, inputs: Seq<StreamInput<GameEvent>>) -> RoundStage
    decreases inputs.len(),
{
    if inputs.len() == 0 {
        start
    } else {
        next_stage(stage_from(start, inputs.drop_last()), inputs.last())
    }
}

/// The stage of a commit-reveal round, started waiting for commitments,
/// after the given stream inputs.
pub open spec fn stage_after(inputs: Seq<StreamInput<GameEvent>>) -> RoundStage {
    stage_from(RoundStage::AwaitingAllCommitted, inputs)
}

/// The round sends its reveal on this input.
pub open spec fn sends_reveal(stage: RoundStage, input: StreamInput<GameEvent>) -> bool {
    stage == RoundStage::AwaitingAllCommitted && input matches StreamInput::Message(
        Some(GameEvent::AllCommitted { .. }),
    )
}

/// The round takes the phase's result on this input.
pub open spec fn takes_result(stage: RoundStage, input: StreamInput<GameEvent>) -> bool {
    stage == RoundStage::AwaitingPhaseResult && input matches StreamInput::Message(
        Some(GameEvent::PhaseResult { .. }),
    )
}

proof fn lemma_stage_after_step(inputs: Seq<StreamInput<GameEvent>>, k: int)
    requires
        0 < k <= inputs.len(),
    ensures
        stage_after(inputs.take(k)) == next_stage(stage_after(inputs.take(k - 1)), inputs[k - 1]),
{
    assert(inputs.take(k).drop_last() =~= inputs.take(k - 1));
}

proof fn lemma_no_waiting_after_reveal(inputs: Seq<StreamInput<GameEvent>>, i: int, k: int)
    requires
        0 <= i < k <= inputs.len(),
        sends_reveal(stage_after(inputs.take(i)), inputs[i]),
    ensures
        stage_after(inputs.take(k)) != RoundStage::AwaitingAllCommitted,
    decreases k - i,
{
    lemma_stage_after_step(inputs, k);
    if k > i + 1 {
        lemma_no_waiting_after_reveal(inputs, i, k - 1);
    }
}

/// A round sends its reveal at most once: after the reveal it never waits
/// for commitments again.
pub proof fn lemma_reveal_sent_once(inputs: Seq<StreamInput<GameEvent>>, i: int, j: int)
    requires
        0 <= i < j < inputs.len(),
        sends_reveal(stage_after(inputs.take(i)), inputs[i]),
    ensures
        !sends_reveal(stage_after(inputs.take(j)), inputs[j]),
{
    lemma_no_waiting_after_reveal(inputs, i, j);
}

proof fn lemma_waiting_result_after_reveal(inputs: Seq<StreamInput<GameEvent>>, j: int)
    requires
        0 <= j <= inputs.len(),
        stage_after(inputs.take(j)) == RoundStage::AwaitingPhaseResult,
    ensures
        exists|i: int| 0 <= i < j && #[trigger] sends_reveal(stage_after(inputs.take(i)), inputs[i]),
    decreases j,
{
    if j == 0 {
        assert(inputs.take(0).len() == 0);
    } else {
        lemma_stage_after_step(inputs, j);
        let prev = stage_after(inputs.take(j - 1));
        if prev == RoundStage::AwaitingAllCommitted {
            assert(sends_reveal(stage_after(inputs.take(j - 1)), inputs[j - 1]));
        } else {
            lemma_waiting_result_after_reveal(inputs, j - 1);
            let i = choose|i: int| 0 <= i < j - 1 && #[trigger] sends_reveal(
                stage_after(inputs.take(i)),
                inputs[i],
            );
            assert(sends_reveal(stage_after(inputs.take(i)), inputs[i]));
        }
    }
}

/// A round takes the phase's result only after it has sent its reveal.
pub proof fn lemma_result_only_after_reveal(inputs: Seq<StreamInput<GameEvent>>, j: int)
    requires
        0 <= j < inputs.len(),
        takes_result(stage_after(inputs.take(j)), inputs[j]),
    ensures
        exists|i: int| 0 <= i < j && #[trigger] sends_reveal(stage_after(inputs.take(i)), inputs[i]),
{
    lemma_waiting_result_after_reveal(inputs, j);
}

/// The reveal opens the commitment: the committed hash is the SHA-256 of
/// the revealed move and nonce, and the reveal is signed over those very
/// bytes with the key that signed the commitment.
pub proof fn lemma_reveal_opens_commitment(
    started: CommitRevealRound,
    commit: CommitPayload,
    timestamp: u64,
    later: CommitRevealRound,
    reveal: RevealPayload,
    reveal_time: u64,
)
    requires
        commitment_of(started, commit, timestamp),
        same_round(started, later),
        reveal_of(later, reveal, reveal_time),
    ensures
        commit.hash@ == hex_lower(sha256(commit_preimage(reveal.data@, reveal.nonce@))),
        commit.hash@ == commit_hash_spec(reveal.data@, reveal.nonce@),
        reveal.signature@ == signature_text(started.key@, commit_preimage(reveal.data@, reveal.nonce@)),
        reveal.game_id@ == commit.game_id@,
        reveal.phase_id@ == commit.phase_id@,
{
}

/// An input that no round acts on: the opening of the stream, a message
/// that is not a game event, and the events `game_start`, `phase_start`,
/// `your_turn`, `opponent_acted` and `error`.
pub open spec fn is_filler(input: StreamInput<GameEvent>) -> bool {
    match input {
        StreamInput::Opened => true,
        StreamInput::Message(None) => true,
        StreamInput::Message(Some(GameEvent::GameStart { .. })) => true,
        StreamInput::Message(Some(GameEvent::PhaseStart { .. })) => true,
        StreamInput::Message(Some(GameEvent::YourTurn { .. })) => true,
        StreamInput::Message(Some(GameEvent::OpponentActed { .. })) => true,
        StreamInput::Message(Some(GameEvent::Error { .. })) => true,
        _ => false,
    }
}

/// The inputs of a stream that are not filler, in order.
pub open spec fn relevant(inputs: Seq<StreamInput<GameEvent>>) -> Seq<StreamInput<GameEvent>> {
    inputs.filter(|i: StreamInput<GameEvent>| !is_filler(i))
}

/// What a round started at `start` is given to act on over a stream: each
/// input that is not filler, with the stage the round is in when it comes.
/// With the round's move, nonce and key (which no step changes), these pairs
/// fix every step that is not `Continue` (see `round_step` and
/// `result_step`), so the requests sent and the outcome.
pub open spec fn effects(start: RoundStage, inputs: Seq<StreamInput<GameEvent>>) -> Seq<
    (RoundStage, StreamInput<GameEvent>),
>
    decreases inputs.len(),
{
    if inputs.len() == 0 {
        Seq::empty()
    } else if is_filler(inputs.last()) {
        effects(start, inputs.drop_last())
    } else {
        effects(start, inputs.drop_last()).push(
            (stage_from(start, inputs.drop_last()), inputs.last()),
        )
    }
}

/// A filler input leaves the stage as it is.
pub proof fn lemma_filler_keeps_stage(stage: RoundStage, input: StreamInput<GameEvent>)
    requires
        is_filler(input),
    ensures
        next_stage(stage, input) == stage,
{
}

proof fn lemma_effects_of_relevant(start: RoundStage, inputs: Seq<StreamInput<GameEvent>>)
    ensures
        stage_from(start, inputs) == stage_from(start, relevant(inputs)),
        effects(start, inputs) == effects(start, relevant(inputs)),
    decreases inputs.len(),
{
    reveal_with_fuel(Seq::filter, 1);
    if inputs.len() > 0 {
        let rest = inputs.drop_last();
        let last = inputs.last();
        lemma_effects_of_relevant(start, rest);
        assert(relevant(inputs) == if is_filler(last) {
            relevant(rest)
        } else {
            relevant(rest).push(last)
        });
        if is_filler(last) {
            lemma_filler_keeps_stage(stage_from(start, rest), last);
        } else {
            assert(relevant(rest).push(last).drop_last() =~= relevant(rest));
        }
    }
}

/// Filler changes nothing: two streams with the same inputs apart from
/// filler (openings, messages that are not game events, and events that no
/// round acts on, inserted anywhere) take a round started at the same stage
/// through the same stages and give it the same inputs to act on, so the
/// same requests and the same outcome.
pub proof fn lemma_filler_changes_nothing(
    start: RoundStage,
    s1: Seq<StreamInput<GameEvent>>,
    s2: Seq<StreamInput<GameEvent>>,
)
    requires
        relevant(s1) == relevant(s2),
    ensures
        stage_from(start, s1) == stage_from(start, s2),
        effects(start, s1) == effects(start, s2),
{
    lemma_effects_of_relevant(start, s1);
    lemma_effects_of_relevant(start, s2);
}

/// A step of a commit-reveal round ends the round exactly when it yields
/// an outcome or an error: never does a finishing input give `Continue`,
/// and never does an input that leaves the round waiting give `Done` or
/// `Failed`. It sends a reveal exactly on `all_committed` while waiting for
/// commitments.
pub proof fn lemma_round_step_finishes_with_outcome(
    round: CommitRevealRound,
    input: StreamInput<GameEvent>,
    timestamp: u64,
    step: RoundStep,
)
    requires
        round.stage != RoundStage::Finished,
        round_step(round, input, timestamp, step),
    ensures
        (step is Done || step is Failed) <==> next_stage(round.stage, input) == RoundStage::Finished,
        step is Reveal <==> (round.stage == RoundStage::AwaitingAllCommitted && input matches StreamInput::Message(
            Some(GameEvent::AllCommitted { .. }),
        )),
        step is Continue ==> next_stage(round.stage, input) == round.stage,
{
}

/// While waiting for the phase's result (in either kind of round), a step
/// yields an outcome or an error exactly when it ends the wait, and never a
/// reveal.
pub proof fn lemma_result_step_finishes_with_outcome(input: StreamInput<GameEvent>, step: RoundStep)
    requires
        result_step(input, step),
    ensures
        (step is Done || step is Failed) <==> next_stage(RoundStage::AwaitingPhaseResult, input)
            == RoundStage::Finished,
        !(step is Reveal),
        step is Continue ==> next_stage(RoundStage::AwaitingPhaseResult, input)
            == RoundStage::AwaitingPhaseResult,
{
}

/// The end of the game ends a round whatever it is waiting for, with the
/// winner and the reason that the event gives.
pub proof fn lemma_game_end_gives_the_end(
    round: CommitRevealRound,
    winner: Option<String>,
    reason: String,
    timestamp: u64,
    step: RoundStep,
    result_wait_step: RoundStep,
)
    requires
        round.stage != RoundStage::Finished,
        round_step(
            round,
            StreamInput::Message(Some(GameEvent::GameEnd { winner, reason })),
            timestamp,
            step,
        ),
        result_step(StreamInput::Message(Some(GameEvent::GameEnd { winner, reason })), result_wait_step),
    ensures
        step == RoundStep::Done(RoundOutcome::GameEnd { winner, reason }),
        result_wait_step == RoundStep::Done(RoundOutcome::GameEnd { winner, reason }),
        next_stage(round.stage, StreamInput::Message(Some(GameEvent::GameEnd { winner, reason })))
            == RoundStage::Finished,
{
}

/// Waiting for commitments, only `all_committed`, the end of the game, a
/// stream failure or the stream's end move the round: any other input (such
/// as `opponent_disconnected`, `your_turn` or a message that is not an
/// event) gives `Continue` and the round keeps waiting.
pub proof fn lemma_commit_wait_ignores_others(
    round: CommitRevealRound,
    input: StreamInput<GameEvent>,
    timestamp: u64,
    step: RoundStep,
)
    requires
        round.stage == RoundStage::AwaitingAllCommitted,
        round_step(round, input, timestamp, step),
        !(input matches StreamInput::Message(Some(GameEvent::AllCommitted { .. }))),
        !(input matches StreamInput::Message(Some(GameEvent::GameEnd { .. }))),
        !(input is Failed),
        !(input is Ended),
    ensures
        step is Continue,
        next_stage(round.stage, input) == RoundStage::AwaitingAllCommitted,
{
}

/// Waiting for the phase's result, only the result, the end of the game, a
/// stream failure or the stream's end move the round: any other input gives
/// `Continue` and the round keeps waiting.
pub proof fn lemma_result_wait_ignores_others(input: StreamInput<GameEvent>, step: RoundStep)
    requires
        result_step(input, step),
        !(input matches StreamInput::Message(Some(GameEvent::PhaseResult { .. }))),
        !(input matches StreamInput::Message(Some(GameEvent::GameEnd { .. }))),
        !(input is Failed),
        !(input is Ended),
    ensures
        step is Continue,
        next_stage(RoundStage::AwaitingPhaseResult, input) == RoundStage::AwaitingPhaseResult,
{
}

/// Waiting for the phase's result, the result ends the round with exactly
/// the result the event carries.
pub proof fn lemma_phase_result_gives_the_result(
    phase: String,
    result: String,
    step: RoundStep,
)
    requires
        result_step(StreamInput::Message(Some(GameEvent::PhaseResult { phase, result })), step),
    ensures
        step == RoundStep::Done(RoundOutcome::PhaseResult(result)),
{
}

} // verus!
