//! An arcade directory with seat rotation: games are listed newest first,
//! players queue for the seats of a game, and the seats rotate after each
//! round under one of three policies.

pub mod directory;
pub mod errors;
pub mod events;
pub mod game;
pub mod identity;
pub mod instructions;
pub mod leaderboard;
pub mod payout;
pub mod queue;
pub mod rules;
