//! The reasons for which an operation is refused.

use vstd::prelude::*;

verus! {

/// Why an operation was refused. A refused operation changes nothing.
#[derive(Clone, Copy, Debug, PartialEq, Eq, Structural, Hash)]
pub enum Errors {
    /// The caller is not the owner of the game.
    CannotDeleteUnownedGame,
    /// A leaderboard name has no characters or more than three.
    IllegalName,
    /// The neighbours handed in are not the neighbours of the game.
    GameAccountNotProvidedToDelete,
    /// The seats of the game are already in use.
    AlreadyInitializedGameQueue,
    /// The seat named by the caller is not a seat of the game.
    UnknownSeat,
    /// A seat was asked to advance without the occupant the caller named.
    EmptySeatAdvance,
    /// A seat is empty, or its occupant is neither a winner nor one of the
    /// losers.
    RoleMismatch,
    /// The game has another number of seats than the operation is for.
    CannotAdvanceGameQueueWrongMaxPlayers,
    /// The game rotates under another policy than the operation is for.
    CannotAdvanceGameQueueWrongGameType,
    /// The game holds less than its own reserve.
    InsufficientFundsForPayout,
    /// The first share does not cover the reserve of a pot.
    InsufficientFundsPotOne,
    /// The second share does not cover the reserve of a pot.
    InsufficientFundsPotTwo,
    /// The third share does not cover the reserve of a pot.
    InsufficientFundsPotThree,
}

} // verus!
