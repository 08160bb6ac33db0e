//! Sharing out the funds of a game between its owner and the three best
//! players, and the chain of pots in which the players' shares wait.

use crate::directory::ArcadeState;
use crate::errors::Errors;
use crate::events::PayoutEvent;
use crate::game::Game;
use crate::identity::Identity;
use crate::leaderboard::{seeded_board, Leaderboard, LeaderboardView};
use vstd::prelude::*;

verus! {

/// The share of one player, waiting to be cashed out. The pots form a
/// chain, newest first, that starts at the arcade.
#[derive(Clone, Copy, Debug, PartialEq, Eq, Structural)]
pub struct GamePot {
    /// The game that paid.
    pub game: Identity,
    /// Who may cash the pot out.
    pub winner_wallet: Identity,
    /// The pot after this one in the chain.
    pub next_game_pot: Option<Identity>,
}

impl GamePot {
    /// The bytes that a pot takes on the ledger.
    pub const MAX_SIZE: usize = 2 * 32 + 33;
}

/// The bytes that stand on the ledger in front of every record.
pub const RECORD_HEADER: usize = 8;

/// How the funds of a game are shared out, in lamports.
#[derive(Clone, Copy, Debug, PartialEq, Eq, Structural)]
pub struct PayoutShares {
    pub owner_lamports: u64,
    pub player_one_lamports: u64,
    pub player_two_lamports: u64,
    pub player_three_lamports: u64,
}

/// A payout that has gone through.
#[derive(Clone, Debug, PartialEq, Eq)]
pub struct Payout {
    pub shares: PayoutShares,
    /// The pot of the first place, which is the newest pot afterwards.
    pub player_one_pot: GamePot,
    pub player_two_pot: GamePot,
    pub player_three_pot: GamePot,
    pub event: PayoutEvent,
}

/// The shares of a game that holds `game_lamports` and has to keep
/// `game_reserve`, where a pot has to hold `pot_reserve` at least.
///
/// Half of what the game holds above its reserve goes to the owner. Of an
/// equal amount the first place gets four sevenths, the second two and the
/// third one, each rounded down. There is no payout where the game holds
/// less than its reserve, nor where a share is less than the reserve of a
/// pot.
pub open spec fn shares_of(
    game_lamports: u64,
    game_reserve: u64,
    pot_reserve: u64,
) -> Result<PayoutShares, Errors> {
    if game_lamports < game_reserve {
        Err(Errors::InsufficientFundsForPayout)
    } else {
        let owner = (game_lamports - game_reserve) / 2;
        let first = owner * 4 / 7;
        let second = owner * 2 / 7;
        let third = owner / 7;
        if pot_reserve > first {
            Err(Errors::InsufficientFundsPotOne)
        } else if pot_reserve > second {
            Err(Errors::InsufficientFundsPotTwo)
        } else if pot_reserve > third {
            Err(Errors::InsufficientFundsPotThree)
        } else {
            Ok(
                PayoutShares {
                    owner_lamports: owner as u64,
                    player_one_lamports: first as u64,
                    player_two_lamports: second as u64,
                    player_three_lamports: third as u64,
                },
            )
        }
    }
}

/// Whether `event` tells of a payout of the game of that title into the
/// three pots, and names the three places of `board`.
pub open spec fn payout_event_is(
    event: PayoutEvent,
    game_name: Seq<char>,
    arcade_id: Identity,
    player_one_pot_key: Identity,
    player_two_pot_key: Identity,
    player_three_pot_key: Identity,
    board: LeaderboardView,
) -> bool {
    &&& event.game_name@ == game_name
    &&& event.arcade_id == arcade_id
    &&& event.player_one_pot_key == player_one_pot_key
    &&& event.player_two_pot_key == player_two_pot_key
    &&& event.player_three_pot_key == player_three_pot_key
    &&& event.player_one_name@ == board.first_place.name
    &&& event.player_two_name@ == board.second_place.name
    &&& event.player_three_name@ == board.third_place.name
}

/// What a payout does to a game and to the arcade, and what it hands back.
///
/// Where the funds do not suffice the payout is refused and nothing
/// changes. Otherwise the three pots go to the players on the leaderboard,
/// best first; they are chained one to the next and the third to the pot
/// that was the newest; the arcade names the first as its newest pot; and
/// the game starts again with the leaderboard of a new game.
pub open spec fn payout_outcome(
    game_before: Game,
    game_after: Game,
    arcade_before: ArcadeState,
    arcade_after: ArcadeState,
    arcade_key: Identity,
    game_lamports: u64,
    player_one_pot_key: Identity,
    player_two_pot_key: Identity,
    player_three_pot_key: Identity,
    game_reserve: u64,
    pot_reserve: u64,
    r: Result<Payout, Errors>,
) -> bool {
    match shares_of(game_lamports, game_reserve, pot_reserve) {
        Err(e) => {
            &&& r == Err::<Payout, Errors>(e)
            &&& game_after == game_before
            &&& arcade_after == arcade_before
        },
        Ok(shares) => {
            &&& r matches Ok(payout)
            &&& payout.shares == shares
            &&& payout.player_one_pot == (GamePot {
                game: game_before.key,
                winner_wallet: game_before.leaderboard.first_place.wallet_key,
                next_game_pot: Some(player_two_pot_key),
            })
            &&& payout.player_two_pot == (GamePot {
                game: game_before.key,
                winner_wallet: game_before.leaderboard.second_place.wallet_key,
                next_game_pot: Some(player_three_pot_key),
            })
            &&& payout.player_three_pot == (GamePot {
                game: game_before.key,
                winner_wallet: game_before.leaderboard.third_place.wallet_key,
                next_game_pot: arcade_before.most_recent_game_pot_key,
            })
            &&& payout_event_is(
                payout.event,
                game_before.title@,
                arcade_key,
                player_one_pot_key,
                player_two_pot_key,
                player_three_pot_key,
                game_before.leaderboard@,
            )
            &&& arcade_after == (ArcadeState {
                most_recent_game_pot_key: Some(player_one_pot_key),
                ..arcade_before
            })
            &&& game_after.leaderboard@ == seeded_board(game_before.owner_wallet)
            &&& game_after == (Game { leaderboard: game_after.leaderboard, ..game_before })
        },
    }
}

/// The most bytes of a record for which the rent is asked here.
pub const MAX_RECORD_LEN: usize = 0xffff_ffff;

/// The least balance that keeps a record of `data_len` bytes on the ledger
/// free of rent: 6960 lamports for every byte of the record and of the 128
/// bytes that the ledger keeps beside every record.
pub open spec fn rent_exempt_minimum(data_len: usize) -> int {
    (128 + data_len) * 6960
}

/// Calls `minimum_balance` on the default `Rent` that `anchor_lang` offers
/// in its prelude. Nothing is proved of this call.
///
/// The call adds 128 to the length, multiplies the sum by 3480 in whole
/// numbers, and doubles the product in floating point. The contract claims
/// that the doubling is exact: below the length that it admits the product
/// stays far under 2^53, up to where floating point holds every whole
/// number. Nothing overflows there either.
#[verifier::external_body]
fn minimum_balance(data_len: usize) -> (lamports: u64)
    requires
        data_len <= MAX_RECORD_LEN,
    ensures
        lamports == rent_exempt_minimum(data_len),
{
    anchor_lang::prelude::Rent::default().minimum_balance(data_len)
}

/// What a game has to keep at a payout: the balance that keeps it free of
/// rent.
pub const GAME_RESERVE: u64 = 18_896_400;

/// What a pot has to hold at least: the balance that keeps it free of rent.
pub const POT_RESERVE: u64 = 1_621_680;

/// The two reserves are the balances that keep a game and a pot, each with
/// its header, free of rent.
pub proof fn lemma_reserves()
    ensures
        rent_exempt_minimum((Game::MAX_SIZE + RECORD_HEADER) as usize) == GAME_RESERVE,
        rent_exempt_minimum((GamePot::MAX_SIZE + RECORD_HEADER) as usize) == POT_RESERVE,
{
}

/// Computes the shares of a payout, or says why there is none. What the
/// game keeps after a payout is never less than its reserve.
pub fn split_funds(
    game_lamports: u64,
    game_reserve: u64,
    pot_reserve: u64,
) -> (r: Result<PayoutShares, Errors>)
    ensures
        r == shares_of(game_lamports, game_reserve, pot_reserve),
        r matches Ok(shares) ==> {
            &&& shares.owner_lamports == (game_lamports - game_reserve) / 2
            &&& shares.player_one_lamports == shares.owner_lamports * 4 / 7
            &&& shares.player_two_lamports == shares.owner_lamports * 2 / 7
            &&& shares.player_three_lamports == shares.owner_lamports / 7
        },
        r matches Ok(shares) ==> game_lamports - (shares.owner_lamports
            + shares.player_one_lamports + shares.player_two_lamports
            + shares.player_three_lamports) >= game_reserve,
{
    if game_lamports < game_reserve {
        return Err(Errors::InsufficientFundsForPayout);
    }
    let owner_lamports: u64 = (game_lamports - game_reserve) / 2;
    let wide: u128 = owner_lamports as u128;
    let player_one_lamports: u64 = (wide * 4 / 7) as u64;
    let player_two_lamports: u64 = (wide * 2 / 7) as u64;
    let player_three_lamports: u64 = owner_lamports / 7;
    if pot_reserve > player_one_lamports {
        Err(Errors::InsufficientFundsPotOne)
    } else if pot_reserve > player_two_lamports {
        Err(Errors::InsufficientFundsPotTwo)
    } else if pot_reserve > player_three_lamports {
        Err(Errors::InsufficientFundsPotThree)
    } else {
        Ok(
            PayoutShares {
                owner_lamports,
                player_one_lamports,
                player_two_lamports,
                player_three_lamports,
            },
        )
    }
}

/// Pays out the funds of a game, given the reserves of a game and of a pot.
/// See `payout_outcome`.
pub fn settle_payout(
    game_account: &mut Game,
    arcade_account: &mut ArcadeState,
    arcade_key: Identity,
    game_lamports: u64,
    player_one_pot_key: Identity,
    player_two_pot_key: Identity,
    player_three_pot_key: Identity,
    game_reserve: u64,
    pot_reserve: u64,
) -> (r: Result<Payout, Errors>)
    ensures
        payout_outcome(
            *old(game_account),
            *final(game_account),
            *old(arcade_account),
            *final(arcade_account),
            arcade_key,
            game_lamports,
            player_one_pot_key,
            player_two_pot_key,
            player_three_pot_key,
            game_reserve,
            pot_reserve,
            r,
        ),
{
    match split_funds(game_lamports, game_reserve, pot_reserve) {
        Err(e) => Err(e),
        Ok(shares) => {
            let player_one_pot = GamePot {
                game: game_account.key,
                winner_wallet: game_account.leaderboard.first_place.wallet_key,
                next_game_pot: Some(player_two_pot_key),
            };
            let player_two_pot = GamePot {
                game: game_account.key,
                winner_wallet: game_account.leaderboard.second_place.wallet_key,
                next_game_pot: Some(player_three_pot_key),
            };
            let player_three_pot = GamePot {
                game: game_account.key,
                winner_wallet: game_account.leaderboard.third_place.wallet_key,
                next_game_pot: arcade_account.most_recent_game_pot_key,
            };
            arcade_account.most_recent_game_pot_key = Some(player_one_pot_key);
            let event = PayoutEvent {
                game_name: game_account.title.clone(),
                arcade_id: arcade_key,
                player_one_pot_key,
                player_two_pot_key,
                player_three_pot_key,
                player_one_name: game_account.leaderboard.first_place.name.clone(),
                player_two_name: game_account.leaderboard.second_place.name.clone(),
                player_three_name: game_account.leaderboard.third_place.name.clone(),
            };
            game_account.leaderboard = Leaderboard::seeded(game_account.owner_wallet);
            Ok(Payout { shares, player_one_pot, player_two_pot, player_three_pot, event })
        },
    }
}

/// Pays out the funds of a game: half of what it holds above its own
/// reserve to the owner, and as much again into three pots for the players
/// on the leaderboard. The reserves are the balances that keep a game and a
/// pot free of rent, `GAME_RESERVE` and `POT_RESERVE`. See `payout_outcome`.
pub fn payback_funds(
    game_account: &mut Game,
    arcade_account: &mut ArcadeState,
    arcade_key: Identity,
    game_lamports: u64,
    player_one_pot_key: Identity,
    player_two_pot_key: Identity,
    player_three_pot_key: Identity,
) -> (r: Result<Payout, Errors>)
    ensures
        payout_outcome(
            *old(game_account),
            *final(game_account),
            *old(arcade_account),
            *final(arcade_account),
            arcade_key,
            game_lamports,
            player_one_pot_key,
            player_two_pot_key,
            player_three_pot_key,
            GAME_RESERVE,
            POT_RESERVE,
            r,
        ),
{
    let game_reserve = minimum_balance(Game::MAX_SIZE + RECORD_HEADER);
    let pot_reserve = minimum_balance(GamePot::MAX_SIZE + RECORD_HEADER);
    settle_payout(
        game_account,
        arcade_account,
        arcade_key,
        game_lamports,
        player_one_pot_key,
        player_two_pot_key,
        player_three_pot_key,
        game_reserve,
        pot_reserve,
    )
}

/// Takes a pot out of the chain for its winner: the pot before it names the
/// pot after it. Says whether this was done. Nothing is done where the pot
/// is not `winner`'s, and where `previous_pot_account` is not the pot
/// before it.
pub fn cash_out_pot(
    game_pot_account: &GamePot,
    game_pot_key: Identity,
    previous_pot_account: &mut GamePot,
    winner: Identity,
) -> (done: bool)
    ensures
        done == (game_pot_account.winner_wallet == winner && old(
            previous_pot_account,
        ).next_game_pot == Some(game_pot_key)),
        done ==> *final(previous_pot_account) == (GamePot {
            next_game_pot: game_pot_account.next_game_pot,
            ..*old(previous_pot_account)
        }),
        !done ==> *final(previous_pot_account) == *old(previous_pot_account),
{
    if !(game_pot_account.winner_wallet == winner) {
        return false;
    }
    match previous_pot_account.next_game_pot {
        Some(next) => {
            if next == game_pot_key {
                previous_pot_account.next_game_pot = game_pot_account.next_game_pot;
                true
            } else {
                false
            }
        },
        None => false,
    }
}

/// Takes the newest pot out of the chain for its winner: the arcade names
/// the pot after it as its newest. Says whether this was done. Nothing is
/// done where the pot is not `winner`'s, and where it is not the newest.
pub fn cash_out_most_recent_pot(
    game_pot_account: &GamePot,
    game_pot_key: Identity,
    arcade_state: &mut ArcadeState,
    winner: Identity,
) -> (done: bool)
    ensures
        done == (game_pot_account.winner_wallet == winner && old(
            arcade_state,
        ).most_recent_game_pot_key == Some(game_pot_key)),
        done ==> *final(arcade_state) == (ArcadeState {
            most_recent_game_pot_key: game_pot_account.next_game_pot,
            ..*old(arcade_state)
        }),
        !done ==> *final(arcade_state) == *old(arcade_state),
{
    if !(game_pot_account.winner_wallet == winner) {
        return false;
    }
    match arcade_state.most_recent_game_pot_key {
        Some(newest) => {
            if newest == game_pot_key {
                arcade_state.most_recent_game_pot_key = game_pot_account.next_game_pot;
                true
            } else {
                false
            }
        },
        None => false,
    }
}

} // verus!
