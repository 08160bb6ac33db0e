//! The rules of the seats, stated over the lines alone: where a player who
//! joins is put, and what a round does to the seats.
//!
//! The lines of a game are a sequence of lines, one for each seat in the
//! order of the seats. Every function here is a mathematical one: the
//! operations on a game are held to them.

use crate::errors::Errors;
use crate::identity::Identity;
use crate::queue::{lemma_nobody_waits_iff_tail_is_occupant, occupant, tail, waiting_count};
use vstd::prelude::*;

verus! {

/// Seats rotate together: every occupant leaves after every round.
pub const NORMAL: u8 = 0;

/// The winner of a round keeps the seat and the losers leave.
pub const KING_OF_HILL: u8 = 1;

/// Two play against two on four seats; the winners keep their seats.
pub const TEAM_KING_OF_HILL: u8 = 2;

/// The most seats that a game can have.
pub const MAX_SEATS: u8 = 4;

/// One of the two sides of a round. A round with a single winner has only
/// side `One`.
#[derive(Clone, Copy, Debug, PartialEq, Eq, Structural)]
pub enum Side {
    One,
    Two,
}

/// What a round means for a seat.
#[derive(Clone, Copy, Debug, PartialEq, Eq, Structural)]
pub enum Role {
    /// The occupant has won for the side and keeps the seat.
    Winner(Side),
    /// The occupant has lost for the side and leaves the seat.
    Loser(Side),
}

/// `n` empty seats.
pub open spec fn empty_seats(n: nat) -> Seq<Seq<Identity>> {
    Seq::new(n, |i: int| Seq::<Identity>::empty())
}

/// No line holds an identity twice.
pub open spec fn lines_distinct(lines: Seq<Seq<Identity>>) -> bool {
    forall|i: int| 0 <= i < lines.len() ==> (#[trigger] lines[i]).no_duplicates()
}

/// On every seat nobody waits exactly where the last of the line is the
/// occupant.
pub open spec fn seats_hold(lines: Seq<Seq<Identity>>) -> bool {
    forall|i: int|
        0 <= i < lines.len() ==> (waiting_count(#[trigger] lines[i]) == 0 <==> tail(lines[i])
            == occupant(lines[i]))
}

/// No line holds an identity twice, and on every seat nobody waits exactly
/// where the last of the line is the occupant.
pub open spec fn seats_sound(lines: Seq<Seq<Identity>>) -> bool {
    lines_distinct(lines) && seats_hold(lines)
}

/// The role of a seat in a round with one winner: the winner's seat wins,
/// and a seat held by any of the losers loses. `None` where the occupant is
/// none of them, and where nobody is on the seat.
pub open spec fn king_of_hill_role(
    line: Seq<Identity>,
    winner: Identity,
    losers: Seq<Identity>,
) -> Option<Role> {
    if line.len() == 0 {
        None
    } else if line[0] == winner {
        Some(Role::Winner(Side::One))
    } else if losers.contains(line[0]) {
        Some(Role::Loser(Side::One))
    } else {
        None
    }
}

/// The role of a seat in a round of two against two. The first winner and
/// the first loser stand for side `One`, the second ones for side `Two`;
/// an occupant named more than once has the first role that fits, in the
/// order first winner, second winner, first loser, second loser. `None`
/// where the occupant is none of the four, and where nobody is on the seat.
pub open spec fn team_role(
    line: Seq<Identity>,
    winner_one: Identity,
    winner_two: Identity,
    loser_one: Identity,
    loser_two: Identity,
) -> Option<Role> {
    if line.len() == 0 {
        None
    } else if line[0] == winner_one {
        Some(Role::Winner(Side::One))
    } else if line[0] == winner_two {
        Some(Role::Winner(Side::Two))
    } else if line[0] == loser_one {
        Some(Role::Loser(Side::One))
    } else if line[0] == loser_two {
        Some(Role::Loser(Side::Two))
    } else {
        None
    }
}

/// Every seat has a role in the round with one winner.
pub open spec fn king_of_hill_matched(
    lines: Seq<Seq<Identity>>,
    winner: Identity,
    losers: Seq<Identity>,
) -> bool {
    forall|i: int|
        0 <= i < lines.len() ==> king_of_hill_role(#[trigger] lines[i], winner, losers).is_some()
}

/// The roles of all seats in a round with one winner, where every seat has
/// one.
pub open spec fn king_of_hill_roles(
    lines: Seq<Seq<Identity>>,
    winner: Identity,
    losers: Seq<Identity>,
) -> Seq<Role> {
    Seq::new(
        lines.len(),
        |i: int| king_of_hill_role(lines[i], winner, losers).unwrap(),
    )
}

/// Every seat has a role in the round of two against two.
pub open spec fn team_matched(
    lines: Seq<Seq<Identity>>,
    winner_one: Identity,
    winner_two: Identity,
    loser_one: Identity,
    loser_two: Identity,
) -> bool {
    forall|i: int|
        0 <= i < lines.len() ==> team_role(
            #[trigger] lines[i],
            winner_one,
            winner_two,
            loser_one,
            loser_two,
        ).is_some()
}

/// The roles of all seats in a round of two against two, where every seat
/// has one.
pub open spec fn team_roles(
    lines: Seq<Seq<Identity>>,
    winner_one: Identity,
    winner_two: Identity,
    loser_one: Identity,
    loser_two: Identity,
) -> Seq<Role> {
    Seq::new(
        lines.len(),
        |i: int| team_role(lines[i], winner_one, winner_two, loser_one, loser_two).unwrap(),
    )
}

/// The roles fit the lines: there is a role for every seat, and somebody
/// is on every seat.
pub open spec fn roles_fit(lines: Seq<Seq<Identity>>, roles: Seq<Role>) -> bool {
    &&& roles.len() == lines.len()
    &&& forall|i: int| 0 <= i < lines.len() ==> (#[trigger] lines[i]).len() >= 1
}

/// The seat that feeds the losing seats of `side`: among the first `n`
/// seats the last one that has won for the side.
pub open spec fn source_seat(roles: Seq<Role>, side: Side, n: int) -> Option<int>
    decreases n,
{
    if n <= 0 {
        None
    } else if roles[n - 1] == Role::Winner(side) {
        Some(n - 1)
    } else {
        source_seat(roles, side, n - 1)
    }
}

/// Seat `i` loses for `side` and nobody waits on it.
pub open spec fn starved(lines: Seq<Seq<Identity>>, roles: Seq<Role>, side: Side, i: int) -> bool {
    roles[i] == Role::Loser(side) && lines[i].len() <= 1
}

/// One of the first `n` seats loses for `side` with nobody waiting on it.
pub open spec fn starved_before(
    lines: Seq<Seq<Identity>>,
    roles: Seq<Role>,
    side: Side,
    n: int,
) -> bool
    decreases n,
{
    n > 0 && (starved_before(lines, roles, side, n - 1) || starved(lines, roles, side, n - 1))
}

/// The source seat of `side`, where somebody waits on it.
pub open spec fn surplus_seat(
    lines: Seq<Seq<Identity>>,
    roles: Seq<Role>,
    side: Side,
) -> Option<int> {
    match source_seat(roles, side, roles.len() as int) {
        Some(w) => if lines[w].len() >= 2 {
            Some(w)
        } else {
            None
        },
        None => None,
    }
}

/// The line of seat `i` after the round.
///
/// On a losing seat the occupant leaves and the next in line moves up.
/// Where nobody waits there, the seat takes over the whole waiting line of
/// its side's source seat, provided that line is not empty and no earlier
/// seat of the side was in the same need; else the seat is empty. A winning
/// seat keeps its line, but for a source seat whose waiting line went to a
/// losing seat: it keeps the winner alone.
pub open spec fn rotated_line(
    lines: Seq<Seq<Identity>>,
    roles: Seq<Role>,
    i: int,
) -> Seq<Identity> {
    match roles[i] {
        Role::Loser(side) => if lines[i].len() >= 2 {
            lines[i].skip(1)
        } else if starved_before(lines, roles, side, i) {
            Seq::empty()
        } else {
            match surplus_seat(lines, roles, side) {
                Some(w) => lines[w].skip(1),
                None => Seq::empty(),
            }
        },
        Role::Winner(side) => if surplus_seat(lines, roles, side) == Some(i) && starved_before(
            lines,
            roles,
            side,
            lines.len() as int,
        ) {
            lines[i].take(1)
        } else {
            lines[i]
        },
    }
}

/// The lines of all seats after the round.
pub open spec fn rotated(lines: Seq<Seq<Identity>>, roles: Seq<Role>) -> Seq<Seq<Identity>> {
    Seq::new(lines.len(), |i: int| rotated_line(lines, roles, i))
}

/// The losing seats among the first `n`, in the order of the seats.
pub open spec fn rotating_seats(roles: Seq<Role>, n: int) -> Seq<int>
    decreases n,
{
    if n <= 0 {
        Seq::empty()
    } else if roles[n - 1] is Loser {
        rotating_seats(roles, n - 1).push(n - 1)
    } else {
        rotating_seats(roles, n - 1)
    }
}

/// All seats from the first to the last.
pub open spec fn all_seats(n: nat) -> Seq<int> {
    Seq::new(n, |i: int| i)
}

/// The lines after every seat has lost its occupant.
pub open spec fn advanced(lines: Seq<Seq<Identity>>) -> Seq<Seq<Identity>> {
    Seq::new(lines.len(), |i: int| lines[i].skip(1))
}

/// `reported` names the occupant of every seat, seat by seat, and no seat
/// is empty.
pub open spec fn occupants_are(lines: Seq<Seq<Identity>>, reported: Seq<Identity>) -> bool {
    &&& reported.len() == lines.len()
    &&& forall|i: int|
        0 <= i < lines.len() ==> (#[trigger] lines[i]).len() >= 1 && lines[i][0] == reported[i]
}

/// The lines after `player` has joined seat `seat`.
pub open spec fn joined(
    lines: Seq<Seq<Identity>>,
    seat: int,
    player: Identity,
) -> Seq<Seq<Identity>> {
    lines.update(seat, lines[seat].push(player))
}

/// Among the first `n` seats the first one with a line as short as any of
/// them.
pub open spec fn first_shortest(lines: Seq<Seq<Identity>>, n: int) -> int
    decreases n,
{
    if n <= 1 {
        0
    } else {
        let best = first_shortest(lines, n - 1);
        if lines[n - 1].len() < lines[best].len() {
            n - 1
        } else {
            best
        }
    }
}

/// The seat that a player joins where the seats are kept in balance: the
/// first empty seat, and where every seat is taken, the first of the seats
/// on which the fewest players wait.
pub open spec fn balanced_seat(lines: Seq<Seq<Identity>>) -> int {
    first_shortest(lines, lines.len() as int)
}

/// The lines after the players have joined one after the other, each on the
/// seat that keeps the balance.
pub open spec fn joined_all(lines: Seq<Seq<Identity>>, players: Seq<Identity>) -> Seq<
    Seq<Identity>,
>
    decreases players.len(),
{
    if players.len() == 0 {
        lines
    } else {
        let before = joined_all(lines, players.drop_last());
        joined(before, balanced_seat(before), players.last())
    }
}

/// The seat that a joining player is put on, or why the player is turned
/// away. Where all seats rotate together the seat is the one that keeps
/// the balance, whatever the caller asks for. Where winners keep their
/// seats the caller has to name a seat of the game.
pub open spec fn join_seat(
    game_type: u8,
    lines: Seq<Seq<Identity>>,
    seat_hint: Option<usize>,
) -> Result<int, Errors> {
    if game_type == NORMAL {
        if lines.len() == 0 {
            Err(Errors::UnknownSeat)
        } else {
            Ok(balanced_seat(lines))
        }
    } else if game_type == KING_OF_HILL || game_type == TEAM_KING_OF_HILL {
        match seat_hint {
            Some(seat) => if seat < lines.len() {
                Ok(seat as int)
            } else {
                Err(Errors::UnknownSeat)
            },
            None => Err(Errors::UnknownSeat),
        }
    } else {
        Err(Errors::CannotAdvanceGameQueueWrongGameType)
    }
}

/// Why the seats of a game cannot be set up, if they cannot: the game has
/// no seats or more than four, it has no known policy, it is played two
/// against two on other than four seats, or its seats are in use.
pub open spec fn init_refusal(
    max_players: u8,
    game_type: u8,
    lines: Seq<Seq<Identity>>,
) -> Option<Errors> {
    if max_players == 0 || max_players > MAX_SEATS {
        Some(Errors::CannotAdvanceGameQueueWrongMaxPlayers)
    } else if game_type > TEAM_KING_OF_HILL {
        Some(Errors::CannotAdvanceGameQueueWrongGameType)
    } else if game_type == TEAM_KING_OF_HILL && max_players != MAX_SEATS {
        Some(Errors::CannotAdvanceGameQueueWrongMaxPlayers)
    } else if lines.len() != 0 && lines != empty_seats(max_players as nat) {
        Some(Errors::AlreadyInitializedGameQueue)
    } else {
        None
    }
}

/// New seats with `player` in play on the first of them.
pub open spec fn opened(seats: nat, player: Identity) -> Seq<Seq<Identity>> {
    Seq::new(
        seats,
        |i: int|
            if i == 0 {
                seq![player]
            } else {
                Seq::<Identity>::empty()
            },
    )
}

/// Every line is at most one longer than any line of a later seat and never
/// shorter.
pub open spec fn staircase(lines: Seq<Seq<Identity>>) -> bool {
    forall|i: int, j: int|
        0 <= i < j < lines.len() ==> (#[trigger] lines[j]).len() <= (#[trigger] lines[i]).len()
            <= lines[j].len() + 1
}

/// The first `k` seats hold one player each, `players[i]` on seat `i`, and
/// the other seats are empty.
pub open spec fn filled_in_order(seats: nat, players: Seq<Identity>) -> Seq<Seq<Identity>> {
    Seq::new(
        seats,
        |i: int|
            if i < players.len() {
                seq![players[i]]
            } else {
                Seq::<Identity>::empty()
            },
    )
}

/// `first_shortest` names a seat among the first `n`; no line among them is
/// shorter than its line, and every line before it is longer.
pub proof fn lemma_first_shortest(lines: Seq<Seq<Identity>>, n: int)
    requires
        1 <= n <= lines.len(),
    ensures
        0 <= first_shortest(lines, n) < n,
        forall|j: int|
            0 <= j < n ==> lines[first_shortest(lines, n)].len() <= (#[trigger] lines[j]).len(),
        forall|j: int|
            0 <= j < first_shortest(lines, n) ==> lines[first_shortest(lines, n)].len() < (
            #[trigger] lines[j]).len(),
    decreases n,
{
    if n > 1 {
        lemma_first_shortest(lines, n - 1);
    }
}

/// The seat that keeps the balance is the first empty seat where there is
/// one. Where every seat is taken, no seat has fewer players waiting, and
/// every seat before it has more.
pub proof fn lemma_balanced_seat(lines: Seq<Seq<Identity>>)
    requires
        lines.len() > 0,
    ensures
        0 <= balanced_seat(lines) < lines.len(),
        (exists|j: int| 0 <= j < lines.len() && (#[trigger] lines[j]).len() == 0) ==> {
            &&& lines[balanced_seat(lines)].len() == 0
            &&& forall|j: int| 0 <= j < balanced_seat(lines) ==> (#[trigger] lines[j]).len() > 0
        },
        (forall|j: int| 0 <= j < lines.len() ==> (#[trigger] lines[j]).len() > 0) ==> {
            &&& forall|j: int|
                0 <= j < lines.len() ==> waiting_count(lines[balanced_seat(lines)])
                    <= waiting_count(#[trigger] lines[j])
            &&& forall|j: int|
                0 <= j < balanced_seat(lines) ==> waiting_count(lines[balanced_seat(lines)])
                    < waiting_count(#[trigger] lines[j])
        },
{
    lemma_first_shortest(lines, lines.len() as int);
}

/// A join that keeps the balance keeps the staircase.
proof fn lemma_join_keeps_staircase(lines: Seq<Seq<Identity>>, player: Identity)
    requires
        lines.len() > 0,
        staircase(lines),
    ensures
        staircase(joined(lines, balanced_seat(lines), player)),
{
    lemma_first_shortest(lines, lines.len() as int);
    let seat = balanced_seat(lines);
    let after = joined(lines, seat, player);
    assert forall|i: int, j: int| 0 <= i < j < after.len() implies (#[trigger] after[j]).len()
        <= (#[trigger] after[i]).len() <= after[j].len() + 1 by {}
}

/// Joins that keep the balance, into seats that are all empty at first,
/// build a staircase.
proof fn lemma_joined_all_staircase(seats: nat, players: Seq<Identity>)
    requires
        seats >= 1,
    ensures
        joined_all(empty_seats(seats), players).len() == seats,
        staircase(joined_all(empty_seats(seats), players)),
    decreases players.len(),
{
    if players.len() > 0 {
        lemma_joined_all_staircase(seats, players.drop_last());
        let before = joined_all(empty_seats(seats), players.drop_last());
        lemma_first_shortest(before, before.len() as int);
        lemma_join_keeps_staircase(before, players.last());
    }
}

/// After any number of joins into seats that were all empty at first, each
/// on the seat that keeps the balance, the numbers of players waiting on
/// any two seats differ by one at most.
pub proof fn lemma_joins_keep_balance(seats: nat, players: Seq<Identity>)
    requires
        seats >= 1,
    ensures
        joined_all(empty_seats(seats), players).len() == seats,
        forall|i: int, j: int|
            0 <= i < seats && 0 <= j < seats ==> waiting_count(
                #[trigger] joined_all(empty_seats(seats), players)[i],
            ) <= waiting_count(#[trigger] joined_all(empty_seats(seats), players)[j]) + 1,
{
    lemma_joined_all_staircase(seats, players);
    let after = joined_all(empty_seats(seats), players);
    assert forall|i: int, j: int| 0 <= i < seats && 0 <= j < seats implies waiting_count(
        #[trigger] after[i],
    ) <= waiting_count(#[trigger] after[j]) + 1 by {}
}

/// As long as no more players have joined than there are seats, all empty
/// at first, each player has gone to a seat of their own and is in play
/// there with nobody waiting: the first on the first seat, the second on
/// the second, and so on.
pub proof fn lemma_first_joins_fill_seats(seats: nat, players: Seq<Identity>)
    requires
        players.len() <= seats,
    ensures
        joined_all(empty_seats(seats), players) == filled_in_order(seats, players),
        players.len() > 0 ==> balanced_seat(
            joined_all(empty_seats(seats), players.drop_last()),
        ) == players.len() - 1,
    decreases players.len(),
{
    if players.len() > 0 {
        let earlier = players.drop_last();
        lemma_first_joins_fill_seats(seats, earlier);
        let before = joined_all(empty_seats(seats), earlier);
        lemma_first_shortest(before, before.len() as int);
        let seat = balanced_seat(before);
        let next = earlier.len() as int;
        assert(before[next].len() == 0);
        assert(seat == next);
        assert forall|i: int| 0 <= i < seats implies joined(before, seat, players.last())[i]
            =~= filled_in_order(seats, players)[i] by {}
        assert(joined(before, seat, players.last()) =~= filled_in_order(seats, players));
    }
}

/// Where no line holds an identity twice, nobody waits on a seat exactly
/// where the last of its line is the occupant.
pub proof fn lemma_distinct_seats_hold(lines: Seq<Seq<Identity>>)
    ensures
        lines_distinct(lines) ==> seats_sound(lines),
{
    if lines_distinct(lines) {
        assert forall|i: int| 0 <= i < lines.len() implies (waiting_count(#[trigger] lines[i])
            == 0 <==> tail(lines[i]) == occupant(lines[i])) by {
            lemma_nobody_waits_iff_tail_is_occupant(lines[i]);
        }
    }
}

} // verus!
