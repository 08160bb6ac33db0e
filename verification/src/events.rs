//! What an operation reports when it has gone through. The library hands
//! each report back to its caller, who passes it on.

use crate::identity::Identity;
use vstd::prelude::*;

verus! {

/// A game has entered or left the directory.
#[derive(Clone, Debug, PartialEq, Eq)]
pub struct GameEvent {
    /// `"CREATE"` or `"DELETE"`.
    pub label: String,
    pub game_id: Identity,
    /// The neighbour listed after the game, where one was involved.
    pub more_recent_game_id: Option<Identity>,
    /// The neighbour listed before the game.
    pub less_recent_game_id: Option<Identity>,
}

/// A score has been held against a leaderboard.
#[derive(Clone, Debug, PartialEq, Eq)]
pub struct LeaderboardEvent {
    pub game_id: Identity,
    /// The name under which the score was recorded, three characters long.
    pub player_name: String,
    pub first_place_name: String,
    pub second_place_name: String,
    pub third_place_name: String,
}

/// The seats of a game have been set up.
#[derive(Clone, Debug, PartialEq, Eq)]
pub struct NewQueueEvent {
    pub game_id: Identity,
    /// The seats, by index.
    pub queue_nums: Vec<usize>,
    /// The occupant of each seat.
    pub new_player_ids: Vec<Option<Identity>>,
    /// How many players wait on each seat.
    pub num_waiting: Vec<usize>,
}

/// A player has joined a seat.
#[derive(Clone, Copy, Debug, PartialEq, Eq, Structural)]
pub struct JoinQueueEvent {
    pub game_id: Identity,
    /// The seat that the player joined, by index.
    pub queue_num: usize,
    /// The player, now the last of that seat's line.
    pub last_player: Identity,
    /// How many players wait on that seat now.
    pub num_waiting: usize,
}

/// Seats have rotated. The four lists run in parallel, one entry for each
/// seat whose occupant left, in the order of the seats.
#[derive(Clone, Debug, PartialEq, Eq)]
pub struct AdvanceQueueEvent {
    pub game_id: Identity,
    /// The seats that rotated, by index.
    pub queue_nums: Vec<usize>,
    /// Who left each of them.
    pub finished_players: Vec<Identity>,
    /// Who is in play on each of them now.
    pub new_players: Vec<Option<Identity>>,
    /// How many players wait on each of them now.
    pub num_waiting: Vec<usize>,
}

/// The seats of a game have been emptied.
#[derive(Clone, Copy, Debug, PartialEq, Eq, Structural)]
pub struct FinishQueueEvent {
    pub game_id: Identity,
}

/// The funds of a game have been shared out into three pots.
#[derive(Clone, Debug, PartialEq, Eq)]
pub struct PayoutEvent {
    pub game_name: String,
    pub arcade_id: Identity,
    pub player_one_pot_key: Identity,
    pub player_two_pot_key: Identity,
    pub player_three_pot_key: Identity,
    pub player_one_name: String,
    pub player_two_name: String,
    pub player_three_name: String,
}

} // verus!
