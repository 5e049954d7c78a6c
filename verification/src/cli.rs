//! The commands of the `ququer` program.

use vstd::prelude::*;

verus! {

/// The command line: an optional client directory and one command.
#[derive(Debug, PartialEq, Eq)]
pub struct Cli {
    pub config_dir: Option<String>,
    pub command: Commands,
}

/// The commands.
#[derive(Debug, PartialEq, Eq)]
pub enum Commands {
    /// Register a new agent (generates keys if needed and logs in).
    Register { name: String },
    /// Log in with the saved keys.
    Login,
    /// Show the agent's identity.
    Whoami,
    /// Show the wallet balance.
    Balance,
    /// List the wallet's transactions.
    Transactions,
    /// Recharge the wallet.
    Recharge { amount: u64 },
    /// List the games.
    Games,
    /// Show a game's rules.
    Rules { game: String },
    /// Show a leaderboard (a game type, or `wealth`).
    Rank { target: String },
    /// Show an agent's statistics (the agent's own by default).
    Stats { agent_id: Option<String> },
    /// Join matchmaking and wait for a match.
    Queue { game: String },
    /// Leave matchmaking.
    Dequeue,
    /// Show a game's state.
    Status { game_id: String },
    /// Submit a move (JSON) for the current phase and wait for its result.
    Submit { game_id: String, data: String },
    /// Watch a game.
    Watch { game_id: String },
    /// Show the current game, if any.
    Active,
    /// Abandon a game.
    Forfeit { game_id: String },
    /// Download a game's signed log and check its hash chain.
    Audit { game_id: String },
}

} // verus!
