//! The directory of the arcade: its games in a chain, newest first.
//!
//! Every game names the game listed before it (the older one) and the game
//! listed after it (the younger one). The newest game names itself as its
//! younger game, and the arcade names the newest game.

use crate::errors::Errors;
use crate::events::GameEvent;
use crate::game::Game;
use crate::identity::Identity;
use crate::leaderboard::{seeded_board, Leaderboard};
use vstd::prelude::*;
use vstd::string::*;

verus! {

/// The head of the directory.
#[derive(Clone, Copy, Debug, PartialEq, Eq, Structural)]
pub struct ArcadeState {
    /// The newest game.
    pub most_recent_game_key: Identity,
    /// The newest pot of the chain of pots, if there is a pot.
    pub most_recent_game_pot_key: Option<Identity>,
    /// Who set the arcade up.
    pub authority: Identity,
}

impl ArcadeState {
    /// The bytes that the head of the directory takes on the ledger.
    pub const MAX_SIZE: usize = 32 + 32 + 33;
}

/// Whether `event` has the given label and names the given games.
pub open spec fn game_event_is(
    event: GameEvent,
    label: Seq<char>,
    game_id: Identity,
    more_recent_game_id: Option<Identity>,
    less_recent_game_id: Option<Identity>,
) -> bool {
    &&& event.label@ == label
    &&& event.game_id == game_id
    &&& event.more_recent_game_id == more_recent_game_id
    &&& event.less_recent_game_id == less_recent_game_id
}

/// Why `owner` cannot take `game` out from between the two games, if so:
/// one of them is not its neighbour, or the game is not the owner's.
pub open spec fn delete_refusal(
    game: Game,
    younger_game: Game,
    older_game: Game,
    owner: Identity,
) -> Option<Errors> {
    if game.key != younger_game.older_game_key || game.key != older_game.younger_game_key {
        Some(Errors::GameAccountNotProvidedToDelete)
    } else if game.owner_wallet != owner {
        Some(Errors::CannotDeleteUnownedGame)
    } else {
        None
    }
}

/// Why `owner` cannot take `game` off the head of the directory, if so:
/// the other game is not the one listed before it, or the game is not the
/// owner's.
pub open spec fn delete_most_recent_refusal(
    game: Game,
    older_game: Game,
    owner: Identity,
) -> Option<Errors> {
    if game.key != older_game.younger_game_key {
        Some(Errors::GameAccountNotProvidedToDelete)
    } else if game.owner_wallet != owner {
        Some(Errors::CannotDeleteUnownedGame)
    } else {
        None
    }
}

/// A new arcade under `authority`, with the game of the given identity as
/// its first and newest game, and without a pot.
pub fn initialize_arcade(authority: Identity, genesis_game_key: Identity) -> (arcade: ArcadeState)
    ensures
        arcade == (ArcadeState {
            most_recent_game_key: genesis_game_key,
            most_recent_game_pot_key: None,
            authority,
        }),
{
    ArcadeState {
        most_recent_game_key: genesis_game_key,
        most_recent_game_pot_key: None,
        authority,
    }
}

/// Makes a game and puts it at the head of the directory.
///
/// The new game is listed after the game that the arcade named as its
/// newest, and names itself as its younger game. It has no seats yet, no
/// strikes, and the leaderboard that every game starts with, under the
/// owner's identity. `most_recent_game_account` gets the new game as its
/// younger game, and the arcade names the new game as its newest.
pub fn create_game(
    arcade_account: &mut ArcadeState,
    most_recent_game_account: &mut Game,
    game_key: Identity,
    owner: Identity,
    title: String,
    web_gl_hash: String,
    game_art_hash: String,
    num_players: u8,
    game_type: u8,
) -> (created: (Game, GameEvent))
    ensures
        created.0.key == game_key,
        created.0.title == title,
        created.0.web_gl_hash == web_gl_hash,
        created.0.game_art_hash == game_art_hash,
        created.0.max_players == num_players,
        created.0.game_type == game_type,
        created.0.strikes == 0,
        created.0.leaderboard@ == seeded_board(owner),
        created.0.lines().len() == 0,
        created.0.younger_game_key == game_key,
        created.0.older_game_key == old(arcade_account).most_recent_game_key,
        created.0.owner_wallet == owner,
        *final(arcade_account) == (ArcadeState {
            most_recent_game_key: game_key,
            ..*old(arcade_account)
        }),
        *final(most_recent_game_account) == (Game {
            younger_game_key: game_key,
            ..*old(most_recent_game_account)
        }),
        game_event_is(
            created.1,
            "CREATE"@,
            game_key,
            None,
            Some(old(arcade_account).most_recent_game_key),
        ),
{
    let older_game_key = arcade_account.most_recent_game_key;
    let game = Game {
        key: game_key,
        title,
        web_gl_hash,
        game_art_hash,
        max_players: num_players,
        game_type,
        strikes: 0,
        leaderboard: Leaderboard::seeded(owner),
        game_queues: Vec::new(),
        younger_game_key: game_key,
        older_game_key,
        owner_wallet: owner,
    };
    arcade_account.most_recent_game_key = game_key;
    most_recent_game_account.younger_game_key = game_key;
    let event = GameEvent {
        label: String::from_str("CREATE"),
        game_id: game_key,
        more_recent_game_id: None,
        less_recent_game_id: Some(older_game_key),
    };
    (game, event)
}

/// Takes a game out from between its two neighbours, which name each other
/// afterwards. Refused, with nothing changed, where one of the two games is
/// not a neighbour of the game, and where the game is not `owner`'s.
pub fn delete_game(
    game_account: &Game,
    younger_game: &mut Game,
    older_game: &mut Game,
    owner: Identity,
) -> (r: Result<GameEvent, Errors>)
    ensures
        match delete_refusal(*game_account, *old(younger_game), *old(older_game), owner) {
            Some(e) => {
                &&& r == Err::<GameEvent, Errors>(e)
                &&& *final(younger_game) == *old(younger_game)
                &&& *final(older_game) == *old(older_game)
            },
            None => {
                &&& r matches Ok(event)
                &&& game_event_is(
                    event,
                    "DELETE"@,
                    game_account.key,
                    Some(old(younger_game).key),
                    Some(old(older_game).key),
                )
                &&& *final(younger_game) == (Game {
                    older_game_key: old(older_game).key,
                    ..*old(younger_game)
                })
                &&& *final(older_game) == (Game {
                    younger_game_key: old(younger_game).key,
                    ..*old(older_game)
                })
            },
        },
{
    if !(game_account.key == younger_game.older_game_key) || !(game_account.key
        == older_game.younger_game_key) {
        return Err(Errors::GameAccountNotProvidedToDelete);
    }
    if !(game_account.owner_wallet == owner) {
        return Err(Errors::CannotDeleteUnownedGame);
    }
    younger_game.older_game_key = older_game.key;
    older_game.younger_game_key = younger_game.key;
    Ok(
        GameEvent {
            label: String::from_str("DELETE"),
            game_id: game_account.key,
            more_recent_game_id: Some(younger_game.key),
            less_recent_game_id: Some(older_game.key),
        },
    )
}

/// Takes the newest game off the head of the directory. The game listed
/// before it becomes the newest: it names itself as its younger game, and
/// the arcade names it. Refused, with nothing changed, where `older_game`
/// is not the game listed before the game, and where the game is not
/// `owner`'s.
pub fn delete_most_recent_game(
    game_account: &Game,
    arcade_state: &mut ArcadeState,
    older_game: &mut Game,
    owner: Identity,
) -> (r: Result<GameEvent, Errors>)
    ensures
        match delete_most_recent_refusal(*game_account, *old(older_game), owner) {
            Some(e) => {
                &&& r == Err::<GameEvent, Errors>(e)
                &&& *final(arcade_state) == *old(arcade_state)
                &&& *final(older_game) == *old(older_game)
            },
            None => {
                &&& r matches Ok(event)
                &&& game_event_is(
                    event,
                    "DELETE"@,
                    game_account.key,
                    None,
                    Some(old(older_game).key),
                )
                &&& *final(arcade_state) == (ArcadeState {
                    most_recent_game_key: old(older_game).key,
                    ..*old(arcade_state)
                })
                &&& *final(older_game) == (Game {
                    younger_game_key: old(older_game).key,
                    ..*old(older_game)
                })
            },
        },
{
    if !(game_account.key == older_game.younger_game_key) {
        return Err(Errors::GameAccountNotProvidedToDelete);
    }
    if !(game_account.owner_wallet == owner) {
        return Err(Errors::CannotDeleteUnownedGame);
    }
    older_game.younger_game_key = older_game.key;
    arcade_state.most_recent_game_key = older_game.key;
    Ok(
        GameEvent {
            label: String::from_str("DELETE"),
            game_id: game_account.key,
            more_recent_game_id: None,
            less_recent_game_id: Some(older_game.key),
        },
    )
}

} // verus!
