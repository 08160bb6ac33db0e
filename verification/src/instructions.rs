//! The instructions that the arcade takes for the seats of a game, one
//! function for each. An instruction names the number of seats and the
//! policy of the games that it is for, and is refused for any other game.

use crate::errors::Errors;
use crate::events::{AdvanceQueueEvent, FinishQueueEvent, JoinQueueEvent, NewQueueEvent};
use crate::game::{
    finish_outcome, init_outcome, is_new_to, join_outcome, keeps_seats_sound,
    king_of_hill_outcome, normal_outcome, team_outcome, Game,
};
use crate::identity::Identity;
use crate::rules::{seats_sound, KING_OF_HILL, MAX_SEATS, NORMAL, TEAM_KING_OF_HILL};
use vstd::prelude::*;

verus! {

/// Why an instruction for games of `seats` seats is not for this game: the
/// game has another number of seats.
pub open spec fn wrong_seats(game: Game, seats: u8) -> Option<Errors> {
    if game.max_players != seats {
        Some(Errors::CannotAdvanceGameQueueWrongMaxPlayers)
    } else {
        None
    }
}

/// Why an instruction for games of `seats` seats under `policy` is not for
/// this game: the game has another number of seats, or the right number
/// and another policy.
pub open spec fn wrong_game(game: Game, seats: u8, policy: u8) -> Option<Errors> {
    if game.max_players != seats {
        Some(Errors::CannotAdvanceGameQueueWrongMaxPlayers)
    } else if game.game_type != policy {
        Some(Errors::CannotAdvanceGameQueueWrongGameType)
    } else {
        None
    }
}

/// See `wrong_game`.
fn check_game(game: &Game, seats: u8, policy: u8) -> (refusal: Option<Errors>)
    ensures
        refusal == wrong_game(*game, seats, policy),
{
    if game.max_players != seats {
        Some(Errors::CannotAdvanceGameQueueWrongMaxPlayers)
    } else if game.game_type != policy {
        Some(Errors::CannotAdvanceGameQueueWrongGameType)
    } else {
        None
    }
}

/// Sets up the seats of a game, which must be one of `seats` seats.
fn init_game_queue(
    game_account: &mut Game,
    seats: u8,
    player_account: Identity,
) -> (r: Result<NewQueueEvent, Errors>)
    ensures
        match wrong_seats(*old(game_account), seats) {
            Some(e) => r == Err::<NewQueueEvent, Errors>(e) && *final(game_account) == *old(
                game_account,
            ),
            None => init_outcome(*old(game_account), *final(game_account), player_account, r),
        },
        r.is_ok() ==> seats_sound(final(game_account).lines()),
{
    if game_account.max_players != seats {
        return Err(Errors::CannotAdvanceGameQueueWrongMaxPlayers);
    }
    game_account.init(player_account)
}

/// Seats a player in a game where all seats rotate together, which must be
/// one of `seats` seats.
fn join_game_queue(
    game_account: &mut Game,
    seats: u8,
    player_account: Identity,
) -> (r: Result<JoinQueueEvent, Errors>)
    ensures
        match wrong_game(*old(game_account), seats, NORMAL) {
            Some(e) => r == Err::<JoinQueueEvent, Errors>(e) && *final(game_account) == *old(
                game_account,
            ),
            None => join_outcome(*old(game_account), *final(game_account), player_account, None, r),
        },
        is_new_to(player_account, old(game_account).lines()) ==> keeps_seats_sound(
            *old(game_account),
            *final(game_account),
        ),
{
    match check_game(game_account, seats, NORMAL) {
        Some(e) => Err(e),
        None => game_account.join(player_account, None),
    }
}

/// Empties the seats of a game, which must be one of `seats` seats under
/// `policy`.
fn finish_game_queue(
    game_account: &mut Game,
    seats: u8,
    policy: u8,
) -> (r: Result<FinishQueueEvent, Errors>)
    ensures
        match wrong_game(*old(game_account), seats, policy) {
            Some(e) => r == Err::<FinishQueueEvent, Errors>(e) && *final(game_account) == *old(
                game_account,
            ),
            None => r matches Ok(event) && finish_outcome(
                *old(game_account),
                *final(game_account),
                event,
            ),
        },
        keeps_seats_sound(*old(game_account), *final(game_account)),
{
    match check_game(game_account, seats, policy) {
        Some(e) => Err(e),
        None => Ok(game_account.finish()),
    }
}

/// Sets up the only seat of a game and puts `player_account` in play on it.
/// Refused for a game of more seats, for a game of no known policy or of
/// two against two, and while anybody is on the seat.
pub fn init_one_player_game_queue(
    game_account: &mut Game,
    player_account: Identity,
) -> (r: Result<NewQueueEvent, Errors>)
    ensures
        match wrong_seats(*old(game_account), 1) {
            Some(e) => r == Err::<NewQueueEvent, Errors>(e) && *final(game_account) == *old(
                game_account,
            ),
            None => init_outcome(*old(game_account), *final(game_account), player_account, r),
        },
        r.is_ok() ==> seats_sound(final(game_account).lines()),
{
    init_game_queue(game_account, 1, player_account)
}

/// Sets up the two seats of a game and puts `player_account` in play on the
/// first. Refused for a game of another number of seats, for a game of no
/// known policy or of two against two, and while anybody is on a seat of
/// the game.
pub fn init_two_player_game_queue(
    game_account: &mut Game,
    player_account: Identity,
) -> (r: Result<NewQueueEvent, Errors>)
    ensures
        match wrong_seats(*old(game_account), 2) {
            Some(e) => r == Err::<NewQueueEvent, Errors>(e) && *final(game_account) == *old(
                game_account,
            ),
            None => init_outcome(*old(game_account), *final(game_account), player_account, r),
        },
        r.is_ok() ==> seats_sound(final(game_account).lines()),
{
    init_game_queue(game_account, 2, player_account)
}

/// Sets up the three seats of a game and puts `player_account` in play on the
/// first. Refused for a game of another number of seats, for a game of no
/// known policy or of two against two, and while anybody is on a seat of
/// the game.
pub fn init_three_player_game_queue(
    game_account: &mut Game,
    player_account: Identity,
) -> (r: Result<NewQueueEvent, Errors>)
    ensures
        match wrong_seats(*old(game_account), 3) {
            Some(e) => r == Err::<NewQueueEvent, Errors>(e) && *final(game_account) == *old(
                game_account,
            ),
            None => init_outcome(*old(game_account), *final(game_account), player_account, r),
        },
        r.is_ok() ==> seats_sound(final(game_account).lines()),
{
    init_game_queue(game_account, 3, player_account)
}

/// Sets up the four seats of a game and puts `player_account` in play on the
/// first. Refused for a game of another number of seats, for a game of no
/// known policy, and while anybody is on a seat of the game.
pub fn init_four_player_game_queue(
    game_account: &mut Game,
    player_account: Identity,
) -> (r: Result<NewQueueEvent, Errors>)
    ensures
        match wrong_seats(*old(game_account), 4) {
            Some(e) => r == Err::<NewQueueEvent, Errors>(e) && *final(game_account) == *old(
                game_account,
            ),
            None => init_outcome(*old(game_account), *final(game_account), player_account, r),
        },
        r.is_ok() ==> seats_sound(final(game_account).lines()),
{
    init_game_queue(game_account, 4, player_account)
}

/// Puts `player_account` at the end of the line of the only seat of a game:
/// in play at once where the seat is empty. Refused for a game of more
/// seats or of another policy, and for a game whose seat is not set up.
pub fn join_one_player_game_queue(
    game_account: &mut Game,
    player_account: Identity,
) -> (r: Result<JoinQueueEvent, Errors>)
    ensures
        match wrong_game(*old(game_account), 1, NORMAL) {
            Some(e) => r == Err::<JoinQueueEvent, Errors>(e) && *final(game_account) == *old(
                game_account,
            ),
            None => join_outcome(*old(game_account), *final(game_account), player_account, None, r),
        },
        is_new_to(player_account, old(game_account).lines()) ==> keeps_seats_sound(
            *old(game_account),
            *final(game_account),
        ),
{
    join_game_queue(game_account, 1, player_account)
}

/// Seats `player_account` in a game of two seats that rotate together: on
/// the first empty seat, and where every seat is taken, at the end of the
/// line of the first of the seats with the fewest waiting. Refused for a
/// game of another number of seats or of another policy, and for a game
/// whose seats are not set up.
pub fn join_two_player_game_queue(
    game_account: &mut Game,
    player_account: Identity,
) -> (r: Result<JoinQueueEvent, Errors>)
    ensures
        match wrong_game(*old(game_account), 2, NORMAL) {
            Some(e) => r == Err::<JoinQueueEvent, Errors>(e) && *final(game_account) == *old(
                game_account,
            ),
            None => join_outcome(*old(game_account), *final(game_account), player_account, None, r),
        },
        is_new_to(player_account, old(game_account).lines()) ==> keeps_seats_sound(
            *old(game_account),
            *final(game_account),
        ),
{
    join_game_queue(game_account, 2, player_account)
}

/// Seats `player_account` in a game of three seats that rotate together: on
/// the first empty seat, and where every seat is taken, at the end of the
/// line of the first of the seats with the fewest waiting. Refused for a
/// game of another number of seats or of another policy, and for a game
/// whose seats are not set up.
pub fn join_three_player_game_queue(
    game_account: &mut Game,
    player_account: Identity,
) -> (r: Result<JoinQueueEvent, Errors>)
    ensures
        match wrong_game(*old(game_account), 3, NORMAL) {
            Some(e) => r == Err::<JoinQueueEvent, Errors>(e) && *final(game_account) == *old(
                game_account,
            ),
            None => join_outcome(*old(game_account), *final(game_account), player_account, None, r),
        },
        is_new_to(player_account, old(game_account).lines()) ==> keeps_seats_sound(
            *old(game_account),
            *final(game_account),
        ),
{
    join_game_queue(game_account, 3, player_account)
}

/// Seats `player_account` in a game of four seats that rotate together: on
/// the first empty seat, and where every seat is taken, at the end of the
/// line of the first of the seats with the fewest waiting. Refused for a
/// game of another number of seats or of another policy, and for a game
/// whose seats are not set up.
pub fn join_four_player_game_queue(
    game_account: &mut Game,
    player_account: Identity,
) -> (r: Result<JoinQueueEvent, Errors>)
    ensures
        match wrong_game(*old(game_account), 4, NORMAL) {
            Some(e) => r == Err::<JoinQueueEvent, Errors>(e) && *final(game_account) == *old(
                game_account,
            ),
            None => join_outcome(*old(game_account), *final(game_account), player_account, None, r),
        },
        is_new_to(player_account, old(game_account).lines()) ==> keeps_seats_sound(
            *old(game_account),
            *final(game_account),
        ),
{
    join_game_queue(game_account, 4, player_account)
}

/// Why a game is not one in which winners keep their seats, if it is not.
pub open spec fn not_king_of_hill(game: Game) -> Option<Errors> {
    if game.game_type != KING_OF_HILL && game.game_type != TEAM_KING_OF_HILL {
        Some(Errors::CannotAdvanceGameQueueWrongGameType)
    } else {
        None
    }
}

/// Puts `player_account` at the end of the line of seat `queue_num` of a
/// game in which winners keep their seats: in play at once where the seat
/// is empty. Refused for a game of another policy and for a seat that the
/// game does not have.
pub fn join_king_of_hill_game_queue(
    game_account: &mut Game,
    queue_num: usize,
    player_account: Identity,
) -> (r: Result<JoinQueueEvent, Errors>)
    ensures
        match not_king_of_hill(*old(game_account)) {
            Some(e) => r == Err::<JoinQueueEvent, Errors>(e) && *final(game_account) == *old(
                game_account,
            ),
            None => join_outcome(
                *old(game_account),
                *final(game_account),
                player_account,
                Some(queue_num),
                r,
            ),
        },
        is_new_to(player_account, old(game_account).lines()) ==> keeps_seats_sound(
            *old(game_account),
            *final(game_account),
        ),
{
    if game_account.game_type != KING_OF_HILL && game_account.game_type != TEAM_KING_OF_HILL {
        return Err(Errors::CannotAdvanceGameQueueWrongGameType);
    }
    game_account.join(player_account, Some(queue_num))
}

/// Ends a round of a game of one seat: `current_player` leaves and the next
/// in line is in play, or nobody where nobody waits. Refused for a game of
/// more seats or of another policy, and where the seat is empty or held by
/// somebody else.
pub fn advance_one_player_game_queue(
    game_account: &mut Game,
    current_player: Identity,
) -> (r: Result<AdvanceQueueEvent, Errors>)
    ensures
        match wrong_seats(*old(game_account), 1) {
            Some(e) => r == Err::<AdvanceQueueEvent, Errors>(e) && *final(game_account) == *old(
                game_account,
            ),
            None => normal_outcome(
                *old(game_account),
                *final(game_account),
                seq![current_player],
                r,
            ),
        },
        keeps_seats_sound(*old(game_account), *final(game_account)),
{
    if game_account.max_players != 1 {
        return Err(Errors::CannotAdvanceGameQueueWrongMaxPlayers);
    }
    let reported = vec![current_player];
    assert(reported@ =~= seq![current_player]);
    game_account.advance_normal(&reported)
}

/// Ends a round of a game of two seats that rotate together: the named
/// players leave, each their seat in the order of the seats, and the next
/// in each line is in play. Refused for a game of another number of seats or
/// of another policy, and where a seat is empty or held by somebody else
/// than named.
pub fn advance_two_player_game_queue(
    game_account: &mut Game,
    player_one: Identity,
    player_two: Identity,
) -> (r: Result<AdvanceQueueEvent, Errors>)
    ensures
        match wrong_seats(*old(game_account), 2) {
            Some(e) => r == Err::<AdvanceQueueEvent, Errors>(e) && *final(game_account) == *old(
                game_account,
            ),
            None => normal_outcome(
                *old(game_account),
                *final(game_account),
                seq![player_one, player_two],
                r,
            ),
        },
        keeps_seats_sound(*old(game_account), *final(game_account)),
{
    if game_account.max_players != 2 {
        return Err(Errors::CannotAdvanceGameQueueWrongMaxPlayers);
    }
    let reported = vec![player_one, player_two];
    assert(reported@ =~= seq![player_one, player_two]);
    game_account.advance_normal(&reported)
}

/// Ends a round of a game of three seats that rotate together: the named
/// players leave, each their seat in the order of the seats, and the next
/// in each line is in play. Refused for a game of another number of seats or
/// of another policy, and where a seat is empty or held by somebody else
/// than named.
pub fn advance_three_player_game_queue(
    game_account: &mut Game,
    player_one: Identity,
    player_two: Identity,
    player_three: Identity,
) -> (r: Result<AdvanceQueueEvent, Errors>)
    ensures
        match wrong_seats(*old(game_account), 3) {
            Some(e) => r == Err::<AdvanceQueueEvent, Errors>(e) && *final(game_account) == *old(
                game_account,
            ),
            None => normal_outcome(
                *old(game_account),
                *final(game_account),
                seq![player_one, player_two, player_three],
                r,
            ),
        },
        keeps_seats_sound(*old(game_account), *final(game_account)),
{
    if game_account.max_players != 3 {
        return Err(Errors::CannotAdvanceGameQueueWrongMaxPlayers);
    }
    let reported = vec![player_one, player_two, player_three];
    assert(reported@ =~= seq![player_one, player_two, player_three]);
    game_account.advance_normal(&reported)
}

/// Ends a round of a game of four seats that rotate together: the named
/// players leave, each their seat in the order of the seats, and the next
/// in each line is in play. Refused for a game of another number of seats or
/// of another policy, and where a seat is empty or held by somebody else
/// than named.
pub fn advance_four_player_game_queue(
    game_account: &mut Game,
    player_one: Identity,
    player_two: Identity,
    player_three: Identity,
    player_four: Identity,
) -> (r: Result<AdvanceQueueEvent, Errors>)
    ensures
        match wrong_seats(*old(game_account), 4) {
            Some(e) => r == Err::<AdvanceQueueEvent, Errors>(e) && *final(game_account) == *old(
                game_account,
            ),
            None => normal_outcome(
                *old(game_account),
                *final(game_account),
                seq![player_one, player_two, player_three, player_four],
                r,
            ),
        },
        keeps_seats_sound(*old(game_account), *final(game_account)),
{
    if game_account.max_players != 4 {
        return Err(Errors::CannotAdvanceGameQueueWrongMaxPlayers);
    }
    let reported = vec![player_one, player_two, player_three, player_four];
    assert(reported@ =~= seq![player_one, player_two, player_three, player_four]);
    game_account.advance_normal(&reported)
}

/// Ends a round of a game of two seats in which the winner keeps the seat.
/// Every seat held by `losing_player` rotates: the next in line is in play,
/// and where nobody waits the seat takes over the waiting line of the
/// winner's seat, or stays empty if that is empty too or has gone to an
/// earlier seat. Refused for a game of another number of seats or of
/// another policy, and where a seat is empty or held by somebody who is
/// not named.
pub fn advance_two_player_king_of_hill_queue(
    game_account: &mut Game,
    winning_player: Identity,
    losing_player: Identity,
) -> (r: Result<AdvanceQueueEvent, Errors>)
    ensures
        match wrong_seats(*old(game_account), 2) {
            Some(e) => r == Err::<AdvanceQueueEvent, Errors>(e) && *final(game_account) == *old(
                game_account,
            ),
            None => king_of_hill_outcome(
                *old(game_account),
                *final(game_account),
                winning_player,
                seq![losing_player],
                r,
            ),
        },
        keeps_seats_sound(*old(game_account), *final(game_account)),
{
    if game_account.max_players != 2 {
        return Err(Errors::CannotAdvanceGameQueueWrongMaxPlayers);
    }
    let losers = vec![losing_player];
    assert(losers@ =~= seq![losing_player]);
    game_account.advance_king_of_hill(winning_player, &losers)
}

/// Ends a round of a game of three seats in which the winner keeps the seat.
/// Every seat held by any of the losing players rotates: the next in line
/// is in play, and where nobody waits the seat takes over the waiting line
/// of the winner's seat, or stays empty if that is empty too or has gone to
/// an earlier seat. Refused for a game of another number of seats or of
/// another policy, and where a seat is empty or held by somebody who is
/// not named.
pub fn advance_three_player_king_of_hill_queue(
    game_account: &mut Game,
    winning_player: Identity,
    losing_player_one: Identity,
    losing_player_two: Identity,
) -> (r: Result<AdvanceQueueEvent, Errors>)
    ensures
        match wrong_seats(*old(game_account), 3) {
            Some(e) => r == Err::<AdvanceQueueEvent, Errors>(e) && *final(game_account) == *old(
                game_account,
            ),
            None => king_of_hill_outcome(
                *old(game_account),
                *final(game_account),
                winning_player,
                seq![losing_player_one, losing_player_two],
                r,
            ),
        },
        keeps_seats_sound(*old(game_account), *final(game_account)),
{
    if game_account.max_players != 3 {
        return Err(Errors::CannotAdvanceGameQueueWrongMaxPlayers);
    }
    let losers = vec![losing_player_one, losing_player_two];
    assert(losers@ =~= seq![losing_player_one, losing_player_two]);
    game_account.advance_king_of_hill(winning_player, &losers)
}

/// Ends a round of a game of four seats in which the winner keeps the seat.
/// Every seat held by any of the losing players rotates: the next in line
/// is in play, and where nobody waits the seat takes over the waiting line
/// of the winner's seat, or stays empty if that is empty too or has gone to
/// an earlier seat. Refused for a game of another number of seats or of
/// another policy, and where a seat is empty or held by somebody who is
/// not named.
pub fn advance_four_player_king_of_hill_queue(
    game_account: &mut Game,
    winning_player: Identity,
    losing_player_one: Identity,
    losing_player_two: Identity,
    losing_player_three: Identity,
) -> (r: Result<AdvanceQueueEvent, Errors>)
    ensures
        match wrong_seats(*old(game_account), 4) {
            Some(e) => r == Err::<AdvanceQueueEvent, Errors>(e) && *final(game_account) == *old(
                game_account,
            ),
            None => king_of_hill_outcome(
                *old(game_account),
                *final(game_account),
                winning_player,
                seq![losing_player_one, losing_player_two, losing_player_three],
                r,
            ),
        },
        keeps_seats_sound(*old(game_account), *final(game_account)),
{
    if game_account.max_players != 4 {
        return Err(Errors::CannotAdvanceGameQueueWrongMaxPlayers);
    }
    let losers = vec![losing_player_one, losing_player_two, losing_player_three];
    assert(losers@ =~= seq![losing_player_one, losing_player_two, losing_player_three]);
    game_account.advance_king_of_hill(winning_player, &losers)
}

/// Ends a round of two against two on four seats. The winners keep their
/// seats. The seat of each losing player rotates: the next in line is in
/// play, and where nobody waits the seat takes over the waiting line of the
/// winning player of the same number, or stays empty if that is empty too.
/// Refused for a game of another number of seats or of another policy, and
/// where a seat is empty or held by somebody who is none of the four.
pub fn advance_team_king_of_hill_queue(
    game_account: &mut Game,
    winning_player_one: Identity,
    winning_player_two: Identity,
    losing_player_one: Identity,
    losing_player_two: Identity,
) -> (r: Result<AdvanceQueueEvent, Errors>)
    ensures
        match wrong_seats(*old(game_account), MAX_SEATS) {
            Some(e) => r == Err::<AdvanceQueueEvent, Errors>(e) && *final(game_account) == *old(
                game_account,
            ),
            None => team_outcome(
                *old(game_account),
                *final(game_account),
                winning_player_one,
                winning_player_two,
                losing_player_one,
                losing_player_two,
                r,
            ),
        },
        keeps_seats_sound(*old(game_account), *final(game_account)),
{
    if game_account.max_players != MAX_SEATS {
        return Err(Errors::CannotAdvanceGameQueueWrongMaxPlayers);
    }
    game_account.advance_team_king_of_hill(
        winning_player_one,
        winning_player_two,
        losing_player_one,
        losing_player_two,
    )
}

/// Empties the only seat of a game, whoever is still on it. Refused for a
/// game of more seats or of another policy.
pub fn finish_one_player_game_queue(
    game_account: &mut Game,
) -> (r: Result<FinishQueueEvent, Errors>)
    ensures
        match wrong_game(*old(game_account), 1, NORMAL) {
            Some(e) => r == Err::<FinishQueueEvent, Errors>(e) && *final(game_account) == *old(
                game_account,
            ),
            None => r matches Ok(event) && finish_outcome(
                *old(game_account),
                *final(game_account),
                event,
            ),
        },
        keeps_seats_sound(*old(game_account), *final(game_account)),
{
    finish_game_queue(game_account, 1, NORMAL)
}

/// Empties the two seats of a game that rotate together, whoever is still on
/// them. Refused for a game of another number of seats or of another policy.
pub fn finish_two_player_game_queue(
    game_account: &mut Game,
) -> (r: Result<FinishQueueEvent, Errors>)
    ensures
        match wrong_game(*old(game_account), 2, NORMAL) {
            Some(e) => r == Err::<FinishQueueEvent, Errors>(e) && *final(game_account) == *old(
                game_account,
            ),
            None => r matches Ok(event) && finish_outcome(
                *old(game_account),
                *final(game_account),
                event,
            ),
        },
        keeps_seats_sound(*old(game_account), *final(game_account)),
{
    finish_game_queue(game_account, 2, NORMAL)
}

/// Empties the three seats of a game that rotate together, whoever is still on
/// them. Refused for a game of another number of seats or of another policy.
pub fn finish_three_player_game_queue(
    game_account: &mut Game,
) -> (r: Result<FinishQueueEvent, Errors>)
    ensures
        match wrong_game(*old(game_account), 3, NORMAL) {
            Some(e) => r == Err::<FinishQueueEvent, Errors>(e) && *final(game_account) == *old(
                game_account,
            ),
            None => r matches Ok(event) && finish_outcome(
                *old(game_account),
                *final(game_account),
                event,
            ),
        },
        keeps_seats_sound(*old(game_account), *final(game_account)),
{
    finish_game_queue(game_account, 3, NORMAL)
}

/// Empties the four seats of a game that rotate together, whoever is still on
/// them. Refused for a game of another number of seats or of another policy.
pub fn finish_four_player_game_queue(
    game_account: &mut Game,
) -> (r: Result<FinishQueueEvent, Errors>)
    ensures
        match wrong_game(*old(game_account), 4, NORMAL) {
            Some(e) => r == Err::<FinishQueueEvent, Errors>(e) && *final(game_account) == *old(
                game_account,
            ),
            None => r matches Ok(event) && finish_outcome(
                *old(game_account),
                *final(game_account),
                event,
            ),
        },
        keeps_seats_sound(*old(game_account), *final(game_account)),
{
    finish_game_queue(game_account, 4, NORMAL)
}

/// Empties the two seats of a game in which the winner keeps the seat,
/// whoever is still on them. Refused for a game of another number of seats
/// or of another policy.
pub fn finish_two_player_king_of_hill_queue(
    game_account: &mut Game,
) -> (r: Result<FinishQueueEvent, Errors>)
    ensures
        match wrong_game(*old(game_account), 2, KING_OF_HILL) {
            Some(e) => r == Err::<FinishQueueEvent, Errors>(e) && *final(game_account) == *old(
                game_account,
            ),
            None => r matches Ok(event) && finish_outcome(
                *old(game_account),
                *final(game_account),
                event,
            ),
        },
        keeps_seats_sound(*old(game_account), *final(game_account)),
{
    finish_game_queue(game_account, 2, KING_OF_HILL)
}

/// Empties the three seats of a game in which the winner keeps the seat,
/// whoever is still on them. Refused for a game of another number of seats
/// or of another policy.
pub fn finish_three_player_king_of_hill_queue(
    game_account: &mut Game,
) -> (r: Result<FinishQueueEvent, Errors>)
    ensures
        match wrong_game(*old(game_account), 3, KING_OF_HILL) {
            Some(e) => r == Err::<FinishQueueEvent, Errors>(e) && *final(game_account) == *old(
                game_account,
            ),
            None => r matches Ok(event) && finish_outcome(
                *old(game_account),
                *final(game_account),
                event,
            ),
        },
        keeps_seats_sound(*old(game_account), *final(game_account)),
{
    finish_game_queue(game_account, 3, KING_OF_HILL)
}

/// Empties the four seats of a game in which the winner keeps the seat,
/// whoever is still on them. Refused for a game of another number of seats
/// or of another policy.
pub fn finish_four_player_king_of_hill_queue(
    game_account: &mut Game,
) -> (r: Result<FinishQueueEvent, Errors>)
    ensures
        match wrong_game(*old(game_account), 4, KING_OF_HILL) {
            Some(e) => r == Err::<FinishQueueEvent, Errors>(e) && *final(game_account) == *old(
                game_account,
            ),
            None => r matches Ok(event) && finish_outcome(
                *old(game_account),
                *final(game_account),
                event,
            ),
        },
        keeps_seats_sound(*old(game_account), *final(game_account)),
{
    finish_game_queue(game_account, 4, KING_OF_HILL)
}

/// Empties the four seats of a game of two against two, whoever is still on
/// them. Refused for a game of another number of seats or of another policy.
pub fn finish_team_king_of_hill_queue(
    game_account: &mut Game,
) -> (r: Result<FinishQueueEvent, Errors>)
    ensures
        match wrong_game(*old(game_account), MAX_SEATS, TEAM_KING_OF_HILL) {
            Some(e) => r == Err::<FinishQueueEvent, Errors>(e) && *final(game_account) == *old(
                game_account,
            ),
            None => r matches Ok(event) && finish_outcome(
                *old(game_account),
                *final(game_account),
                event,
            ),
        },
        keeps_seats_sound(*old(game_account), *final(game_account)),
{
    finish_game_queue(game_account, MAX_SEATS, TEAM_KING_OF_HILL)
}

} // verus!
