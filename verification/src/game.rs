//! A game with its seats, and the operations that seat players and rotate
//! them.

use crate::errors::Errors;
use crate::events::{AdvanceQueueEvent, FinishQueueEvent, JoinQueueEvent, NewQueueEvent};
use crate::identity::Identity;
use crate::leaderboard::Leaderboard;
use crate::queue::{occupant, waiting_count, GameQueue};
use crate::rules::{
    advanced, all_seats, balanced_seat, empty_seats, first_shortest, init_refusal, join_seat,
    joined, king_of_hill_matched, king_of_hill_role, king_of_hill_roles, lines_distinct,
    occupants_are, opened, roles_fit, rotated, rotated_line, rotating_seats, seats_sound,
    source_seat, starved_before, surplus_seat, team_matched, team_role, team_roles, Role, Side,
    KING_OF_HILL, MAX_SEATS, NORMAL, TEAM_KING_OF_HILL,
};
use std::collections::VecDeque;
use vstd::prelude::*;

verus! {

/// A game of the arcade.
#[derive(Clone, Debug, PartialEq, Eq)]
pub struct Game {
    /// The game's own identity.
    pub key: Identity,
    pub title: String,
    pub web_gl_hash: String,
    pub game_art_hash: String,
    /// The number of seats.
    pub max_players: u8,
    /// The policy under which the seats rotate.
    pub game_type: u8,
    pub strikes: u8,
    pub leaderboard: Leaderboard,
    /// The seats: none before they are first set up, `max_players` after.
    pub game_queues: Vec<GameQueue>,
    /// The game listed after this one, or the game itself where it is the
    /// newest.
    pub younger_game_key: Identity,
    /// The game listed before this one.
    pub older_game_key: Identity,
    pub owner_wallet: Identity,
}

/// `event` tells of each seat in `seats` who left it and how it stands.
pub open spec fn reports_rotation(
    event: AdvanceQueueEvent,
    game_id: Identity,
    before: Seq<Seq<Identity>>,
    after: Seq<Seq<Identity>>,
    seats: Seq<int>,
) -> bool {
    &&& event.game_id == game_id
    &&& event.queue_nums@.len() == seats.len()
    &&& event.finished_players@.len() == seats.len()
    &&& event.new_players@.len() == seats.len()
    &&& event.num_waiting@.len() == seats.len()
    &&& forall|k: int|
        #![trigger seats[k]]
        #![trigger event.queue_nums@[k]]
        #![trigger event.finished_players@[k]]
        #![trigger event.new_players@[k]]
        #![trigger event.num_waiting@[k]]
        0 <= k < seats.len() ==> {
            &&& event.queue_nums@[k] == seats[k]
            &&& event.finished_players@[k] == before[seats[k]][0]
            &&& event.new_players@[k] == occupant(after[seats[k]])
            &&& event.num_waiting@[k] == waiting_count(after[seats[k]])
        }
}

/// `event` tells of `seats` seats of which the first holds `player` and
/// the others nobody.
pub open spec fn reports_new_seats(
    event: NewQueueEvent,
    game_id: Identity,
    seats: nat,
    player: Identity,
) -> bool {
    &&& event.game_id == game_id
    &&& event.queue_nums@.len() == seats
    &&& event.new_player_ids@.len() == seats
    &&& event.num_waiting@.len() == seats
    &&& forall|k: int|
        #![trigger event.queue_nums@[k]]
        #![trigger event.new_player_ids@[k]]
        #![trigger event.num_waiting@[k]]
        0 <= k < seats ==> {
            &&& event.queue_nums@[k] == k
            &&& event.new_player_ids@[k] == (if k == 0 {
                Some(player)
            } else {
                None
            })
            &&& event.num_waiting@[k] == 0
        }
}

/// What a round with one winner does to a game and what it hands back.
///
/// The round is refused, and the game stays as it is, where the game
/// rotates under another policy and where a seat is empty or held by
/// somebody who is neither the winner nor one of the losers. Otherwise the
/// seats rotate and the event tells of every losing seat.
pub open spec fn king_of_hill_outcome(
    before: Game,
    after: Game,
    winner: Identity,
    losers: Seq<Identity>,
    r: Result<AdvanceQueueEvent, Errors>,
) -> bool {
    if before.game_type != KING_OF_HILL {
        r == Err::<AdvanceQueueEvent, Errors>(Errors::CannotAdvanceGameQueueWrongGameType) && after
            == before
    } else if !king_of_hill_matched(before.lines(), winner, losers) {
        r == Err::<AdvanceQueueEvent, Errors>(Errors::RoleMismatch) && after == before
    } else {
        &&& r matches Ok(event)
        &&& after.same_record(&before)
        &&& after.lines() == rotated(
            before.lines(),
            king_of_hill_roles(before.lines(), winner, losers),
        )
        &&& reports_rotation(
            event,
            before.key,
            before.lines(),
            after.lines(),
            rotating_seats(
                king_of_hill_roles(before.lines(), winner, losers),
                before.lines().len() as int,
            ),
        )
    }
}

/// What a round of two against two does to a game and what it hands back.
///
/// The round is refused, and the game stays as it is, where the game
/// rotates under another policy, where it has other than four seats, and
/// where a seat is empty or held by somebody who is none of the four.
/// Otherwise the seats rotate and the event tells of every losing seat.
pub open spec fn team_outcome(
    before: Game,
    after: Game,
    winner_one: Identity,
    winner_two: Identity,
    loser_one: Identity,
    loser_two: Identity,
    r: Result<AdvanceQueueEvent, Errors>,
) -> bool {
    if before.game_type != TEAM_KING_OF_HILL {
        r == Err::<AdvanceQueueEvent, Errors>(Errors::CannotAdvanceGameQueueWrongGameType) && after
            == before
    } else if before.lines().len() != MAX_SEATS {
        r == Err::<AdvanceQueueEvent, Errors>(Errors::CannotAdvanceGameQueueWrongMaxPlayers)
            && after == before
    } else if !team_matched(before.lines(), winner_one, winner_two, loser_one, loser_two) {
        r == Err::<AdvanceQueueEvent, Errors>(Errors::RoleMismatch) && after == before
    } else {
        &&& r matches Ok(event)
        &&& after.same_record(&before)
        &&& after.lines() == rotated(
            before.lines(),
            team_roles(before.lines(), winner_one, winner_two, loser_one, loser_two),
        )
        &&& reports_rotation(
            event,
            before.key,
            before.lines(),
            after.lines(),
            rotating_seats(
                team_roles(before.lines(), winner_one, winner_two, loser_one, loser_two),
                before.lines().len() as int,
            ),
        )
    }
}

/// What a round after which everybody leaves does to a game and what it
/// hands back.
///
/// The round is refused, and the game stays as it is, where the game
/// rotates under another policy, and where a seat is empty or held by
/// somebody else than reported. Otherwise every occupant leaves and the
/// event tells of every seat.
pub open spec fn normal_outcome(
    before: Game,
    after: Game,
    reported: Seq<Identity>,
    r: Result<AdvanceQueueEvent, Errors>,
) -> bool {
    if before.game_type != NORMAL {
        r == Err::<AdvanceQueueEvent, Errors>(Errors::CannotAdvanceGameQueueWrongGameType) && after
            == before
    } else if !occupants_are(before.lines(), reported) {
        r == Err::<AdvanceQueueEvent, Errors>(Errors::EmptySeatAdvance) && after == before
    } else {
        &&& r matches Ok(event)
        &&& after.same_record(&before)
        &&& after.lines() == advanced(before.lines())
        &&& reports_rotation(
            event,
            before.key,
            before.lines(),
            after.lines(),
            all_seats(before.lines().len()),
        )
    }
}

/// What a join does to a game and what it hands back: the player stands
/// at the end of the line of the seat that the rules give, and the event
/// names that seat and says how many wait on it now. A player who is
/// turned away leaves the game as it is.
pub open spec fn join_outcome(
    before: Game,
    after: Game,
    player: Identity,
    seat_hint: Option<usize>,
    r: Result<JoinQueueEvent, Errors>,
) -> bool {
    match join_seat(before.game_type, before.lines(), seat_hint) {
        Ok(seat) => {
            &&& 0 <= seat < before.lines().len()
            &&& r matches Ok(event)
            &&& event.game_id == before.key
            &&& event.queue_num == seat
            &&& event.last_player == player
            &&& event.num_waiting == waiting_count(after.lines()[seat])
            &&& after.same_record(&before)
            &&& after.lines() == joined(before.lines(), seat, player)
        },
        Err(e) => r == Err::<JoinQueueEvent, Errors>(e) && after == before,
    }
}

/// What setting up the seats does to a game and what it hands back: as
/// many seats as the game has players, with `player` in play on the first
/// of them. Where it is refused the game stays as it is.
pub open spec fn init_outcome(
    before: Game,
    after: Game,
    player: Identity,
    r: Result<NewQueueEvent, Errors>,
) -> bool {
    match init_refusal(before.max_players, before.game_type, before.lines()) {
        Some(e) => r == Err::<NewQueueEvent, Errors>(e) && after == before,
        None => {
            &&& r matches Ok(event)
            &&& reports_new_seats(event, before.key, before.max_players as nat, player)
            &&& after.same_record(&before)
            &&& after.lines() == opened(before.max_players as nat, player)
        },
    }
}

/// What emptying the seats does to a game and what it hands back.
pub open spec fn finish_outcome(before: Game, after: Game, event: FinishQueueEvent) -> bool {
    &&& event == (FinishQueueEvent { game_id: before.key })
    &&& after.same_record(&before)
    &&& after.lines() == empty_seats(before.lines().len())
}

/// If no line of the game held an identity twice before, none does
/// afterwards, and on every seat nobody waits exactly where the last of the
/// line is the occupant.
pub open spec fn keeps_seats_sound(before: Game, after: Game) -> bool {
    lines_distinct(before.lines()) ==> seats_sound(after.lines())
}

/// `player` is on no line.
pub open spec fn is_new_to(player: Identity, lines: Seq<Seq<Identity>>) -> bool {
    forall|i: int| 0 <= i < lines.len() ==> !(#[trigger] lines[i]).contains(player)
}

/// The line of seat `j` when the first `k` seats have been dealt with.
spec fn partly_rotated_line(lines: Seq<Seq<Identity>>, roles: Seq<Role>, k: int, j: int) -> Seq<
    Identity,
> {
    match roles[j] {
        Role::Loser(_) => if j < k {
            rotated_line(lines, roles, j)
        } else {
            lines[j]
        },
        Role::Winner(side) => if surplus_seat(lines, roles, side) == Some(j) && starved_before(
            lines,
            roles,
            side,
            k,
        ) {
            lines[j].take(1)
        } else {
            lines[j]
        },
    }
}

/// The source seat of a side wins for that side and lies among the seats.
proof fn lemma_source_seat(roles: Seq<Role>, side: Side, n: int)
    requires
        0 <= n <= roles.len(),
    ensures
        source_seat(roles, side, n) matches Some(w) ==> 0 <= w < n && roles[w] == Role::Winner(
            side,
        ),
    decreases n,
{
    if n > 0 && roles[n - 1] != Role::Winner(side) {
        lemma_source_seat(roles, side, n - 1);
    }
}

/// Whether `who` is one of `list`.
fn is_listed(list: &Vec<Identity>, who: Identity) -> (found: bool)
    ensures
        found == list@.contains(who),
{
    let mut k: usize = 0;
    while k < list.len()
        invariant
            k <= list@.len(),
            forall|j: int| 0 <= j < k ==> list@[j] != who,
        decreases list@.len() - k,
    {
        if list[k] == who {
            return true;
        }
        k += 1;
    }
    false
}

/// The last seat that has won for `side`.
fn find_source(roles: &Vec<Role>, side: Side) -> (source: Option<usize>)
    ensures
        match source {
            Some(w) => source_seat(roles@, side, roles@.len() as int) == Some(w as int),
            None => source_seat(roles@, side, roles@.len() as int).is_none(),
        },
{
    let mut source: Option<usize> = None;
    let mut k: usize = 0;
    while k < roles.len()
        invariant
            k <= roles@.len(),
            match source {
                Some(w) => source_seat(roles@, side, k as int) == Some(w as int),
                None => source_seat(roles@, side, k as int).is_none(),
            },
        decreases roles@.len() - k,
    {
        if roles[k] == Role::Winner(side) {
            source = Some(k);
        }
        k += 1;
    }
    source
}

impl Game {
    /// The bytes that a game takes on the ledger.
    pub const MAX_SIZE: usize = 30 * 4 + 2 * 256 * 4 + 3 + Leaderboard::MAX_SIZE + (4 + 4 * 32) + 3
        * 32;

    /// The lines of the seats, seat by seat.
    pub open spec fn lines(&self) -> Seq<Seq<Identity>> {
        Seq::new(self.game_queues@.len(), |i: int| self.game_queues@[i]@)
    }

    /// The two games differ in their seats at most.
    pub open spec fn same_record(&self, other: &Game) -> bool {
        &&& self.key == other.key
        &&& self.title == other.title
        &&& self.web_gl_hash == other.web_gl_hash
        &&& self.game_art_hash == other.game_art_hash
        &&& self.max_players == other.max_players
        &&& self.game_type == other.game_type
        &&& self.strikes == other.strikes
        &&& self.leaderboard == other.leaderboard
        &&& self.younger_game_key == other.younger_game_key
        &&& self.older_game_key == other.older_game_key
        &&& self.owner_wallet == other.owner_wallet
    }

    /// The number of seats that are set up.
    pub fn seat_count(&self) -> (n: usize)
        ensures
            n == self.lines().len(),
    {
        self.game_queues.len()
    }

    /// Lets the occupant of every losing seat go and fills the seat again:
    /// from its own line, else from the line of its side's source seat.
    fn rotate(&mut self, roles: &Vec<Role>) -> (event: AdvanceQueueEvent)
        requires
            roles_fit(old(self).lines(), roles@),
        ensures
            final(self).same_record(old(self)),
            final(self).lines() == rotated(old(self).lines(), roles@),
            reports_rotation(
                event,
                old(self).key,
                old(self).lines(),
                final(self).lines(),
                rotating_seats(roles@, roles@.len() as int),
            ),
    {
        let ghost before = self.lines();
        let n = self.game_queues.len();
        let source_one = find_source(roles, Side::One);
        let source_two = find_source(roles, Side::Two);
        let mut queue_nums: Vec<usize> = Vec::new();
        let mut finished_players: Vec<Identity> = Vec::new();
        let mut new_players: Vec<Option<Identity>> = Vec::new();
        let mut num_waiting: Vec<usize> = Vec::new();
        proof {
            lemma_source_seat(roles@, Side::One, n as int);
            lemma_source_seat(roles@, Side::Two, n as int);
        }
        let mut i: usize = 0;
        while i < n
            invariant
                i <= n,
                n == roles@.len(),
                n == before.len(),
                n == self.game_queues@.len(),
                roles_fit(before, roles@),
                self.same_record(old(self)),
                match source_one {
                    Some(w) => source_seat(roles@, Side::One, n as int) == Some(w as int),
                    None => source_seat(roles@, Side::One, n as int).is_none(),
                },
                match source_two {
                    Some(w) => source_seat(roles@, Side::Two, n as int) == Some(w as int),
                    None => source_seat(roles@, Side::Two, n as int).is_none(),
                },
                source_seat(roles@, Side::One, n as int) matches Some(w) ==> 0 <= w < n
                    && roles@[w] == Role::Winner(Side::One),
                source_seat(roles@, Side::Two, n as int) matches Some(w) ==> 0 <= w < n
                    && roles@[w] == Role::Winner(Side::Two),
                forall|j: int|
                    0 <= j < n ==> self.game_queues@[j]@ == #[trigger] partly_rotated_line(
                        before,
                        roles@,
                        i as int,
                        j,
                    ),
                queue_nums@.len() == rotating_seats(roles@, i as int).len(),
                finished_players@.len() == queue_nums@.len(),
                new_players@.len() == queue_nums@.len(),
                num_waiting@.len() == queue_nums@.len(),
                forall|k: int|
                    #![trigger rotating_seats(roles@, i as int)[k]]
                    0 <= k < queue_nums@.len() ==> {
                        let seat = rotating_seats(roles@, i as int)[k];
                        &&& queue_nums@[k] == seat
                        &&& 0 <= seat < i
                        &&& finished_players@[k] == before[seat][0]
                        &&& new_players@[k] == occupant(rotated_line(before, roles@, seat))
                        &&& num_waiting@[k] == waiting_count(rotated_line(before, roles@, seat))
                    },
            decreases n - i,
        {
            let ghost lines_now = self.lines();
            assert(self.game_queues@[i as int]@ == partly_rotated_line(
                before,
                roles@,
                i as int,
                i as int,
            ));
            match roles[i] {
                Role::Loser(side) => {
                    let source = match side {
                        Side::One => source_one,
                        Side::Two => source_two,
                    };
                    let finished = self.game_queues[i].line[0];
                    self.game_queues[i].line.pop_front();
                    if self.game_queues[i].line.len() == 0 {
                        if let Some(w) = source {
                            assert(self.game_queues@[w as int]@ == partly_rotated_line(
                                before,
                                roles@,
                                i as int,
                                w as int,
                            ));
                            if self.game_queues[w].line.len() >= 2 {
                                let keeper = self.game_queues[w].line[0];
                                let mut carried: VecDeque<Identity> = VecDeque::new();
                                core::mem::swap(&mut self.game_queues[w].line, &mut carried);
                                carried.pop_front();
                                self.game_queues[w].line.push_back(keeper);
                                self.game_queues[i].line = carried;
                            }
                        }
                    }
                    let now = self.game_queues[i].current_player();
                    let waiting = self.game_queues[i].waiting_count();
                    queue_nums.push(i);
                    finished_players.push(finished);
                    new_players.push(now);
                    num_waiting.push(waiting);
                    assert forall|j: int| 0 <= j < n implies self.game_queues@[j]@
                        == #[trigger] partly_rotated_line(before, roles@, i + 1, j) by {
                        assert(lines_now[j] == partly_rotated_line(before, roles@, i as int, j));
                    }
                },
                _ => {
                    assert forall|j: int| 0 <= j < n implies self.game_queues@[j]@
                        == #[trigger] partly_rotated_line(before, roles@, i + 1, j) by {
                        assert(lines_now[j] == partly_rotated_line(before, roles@, i as int, j));
                    }
                },
            }
            i += 1;
        }
        assert(self.lines() =~= rotated(before, roles@)) by {
            assert forall|j: int| 0 <= j < n implies self.game_queues@[j]@ == rotated_line(
                before,
                roles@,
                j,
            ) by {
                assert(self.game_queues@[j]@ == partly_rotated_line(before, roles@, n as int, j));
            }
        }
        AdvanceQueueEvent {
            game_id: self.key,
            queue_nums,
            finished_players,
            new_players,
            num_waiting,
        }
    }

    /// The role of every seat in a round with one winner, or `None` where
    /// a seat has none.
    fn king_of_hill_seat_roles(&self, winner: Identity, losers: &Vec<Identity>) -> (roles: Option<
        Vec<Role>,
    >)
        ensures
            king_of_hill_matched(self.lines(), winner, losers@) ==> (roles matches Some(v) && v@
                == king_of_hill_roles(self.lines(), winner, losers@) && roles_fit(
                self.lines(),
                v@,
            )),
            !king_of_hill_matched(self.lines(), winner, losers@) ==> roles.is_none(),
    {
        let n = self.game_queues.len();
        let mut roles: Vec<Role> = Vec::new();
        let mut i: usize = 0;
        while i < n
            invariant
                i <= n,
                n == self.game_queues@.len(),
                roles@.len() == i,
                forall|j: int|
                    0 <= j < i ==> (#[trigger] king_of_hill_role(
                        self.lines()[j],
                        winner,
                        losers@,
                    )) == Some(roles@[j]),
            decreases n - i,
        {
            let role = match self.game_queues[i].current_player() {
                None => {
                    assert(king_of_hill_role(
                        self.lines()[i as int],
                        winner,
                        losers@,
                    ).is_none());
                    return None;
                },
                Some(who) => {
                    if who == winner {
                        Role::Winner(Side::One)
                    } else if is_listed(losers, who) {
                        Role::Loser(Side::One)
                    } else {
                        assert(king_of_hill_role(
                            self.lines()[i as int],
                            winner,
                            losers@,
                        ).is_none());
                        return None;
                    }
                },
            };
            roles.push(role);
            i += 1;
        }
        assert forall|j: int| 0 <= j < n implies (#[trigger] self.lines()[j]).len() >= 1 by {
            assert(king_of_hill_role(self.lines()[j], winner, losers@).is_some());
        }
        Some(roles)
    }

    /// The role of every seat in a round of two against two, or `None`
    /// where a seat has none.
    fn team_seat_roles(
        &self,
        winner_one: Identity,
        winner_two: Identity,
        loser_one: Identity,
        loser_two: Identity,
    ) -> (roles: Option<Vec<Role>>)
        ensures
            team_matched(self.lines(), winner_one, winner_two, loser_one, loser_two) ==> (
            roles matches Some(v) && v@ == team_roles(
                self.lines(),
                winner_one,
                winner_two,
                loser_one,
                loser_two,
            ) && roles_fit(self.lines(), v@)),
            !team_matched(self.lines(), winner_one, winner_two, loser_one, loser_two)
                ==> roles.is_none(),
    {
        let n = self.game_queues.len();
        let mut roles: Vec<Role> = Vec::new();
        let mut i: usize = 0;
        while i < n
            invariant
                i <= n,
                n == self.game_queues@.len(),
                roles@.len() == i,
                forall|j: int|
                    0 <= j < i ==> (#[trigger] team_role(
                        self.lines()[j],
                        winner_one,
                        winner_two,
                        loser_one,
                        loser_two,
                    )) == Some(roles@[j]),
            decreases n - i,
        {
            let role = match self.game_queues[i].current_player() {
                None => {
                    assert(team_role(
                        self.lines()[i as int],
                        winner_one,
                        winner_two,
                        loser_one,
                        loser_two,
                    ).is_none());
                    return None;
                },
                Some(who) => {
                    if who == winner_one {
                        Role::Winner(Side::One)
                    } else if who == winner_two {
                        Role::Winner(Side::Two)
                    } else if who == loser_one {
                        Role::Loser(Side::One)
                    } else if who == loser_two {
                        Role::Loser(Side::Two)
                    } else {
                        assert(team_role(
                            self.lines()[i as int],
                            winner_one,
                            winner_two,
                            loser_one,
                            loser_two,
                        ).is_none());
                        return None;
                    }
                },
            };
            roles.push(role);
            i += 1;
        }
        assert forall|j: int| 0 <= j < n implies (#[trigger] self.lines()[j]).len() >= 1 by {
            assert(team_role(
                self.lines()[j],
                winner_one,
                winner_two,
                loser_one,
                loser_two,
            ).is_some());
        }
        Some(roles)
    }

    /// Ends a round that `winner` has won against `losers`.
    ///
    /// The winner keeps the seat. Every seat held by one of the losers
    /// rotates: the next in line moves up, and where nobody waits the seat
    /// takes over the waiting line of the winner's seat, or stays empty if
    /// that is empty too or has gone to an earlier seat. The round is
    /// refused where the game rotates under another policy, and where a seat
    /// is empty or held by somebody who is neither the winner nor one of the
    /// losers: a seat that a round has left empty has to be joined before
    /// the next round.
    pub fn advance_king_of_hill(
        &mut self,
        winner: Identity,
        losers: &Vec<Identity>,
    ) -> (r: Result<AdvanceQueueEvent, Errors>)
        ensures
            king_of_hill_outcome(*old(self), *final(self), winner, losers@, r),
            keeps_seats_sound(*old(self), *final(self)),
    {
        if self.game_type != KING_OF_HILL {
            return Err(Errors::CannotAdvanceGameQueueWrongGameType);
        }
        match self.king_of_hill_seat_roles(winner, losers) {
            None => Err(Errors::RoleMismatch),
            Some(roles) => {
                proof {
                    lemma_rotated_keeps_distinct(self.lines(), roles@);
                }
                Ok(self.rotate(&roles))
            },
        }
    }

    /// Ends a round of two against two on four seats.
    ///
    /// The winners keep their seats. The seat of each loser rotates: the
    /// next in line moves up, and where nobody waits the seat takes over the
    /// waiting line of the winner of the same number, or stays empty if that
    /// is empty too. The round is refused where the game rotates under
    /// another policy or has other than four seats, and where a seat is
    /// empty or held by somebody who is none of the four.
    pub fn advance_team_king_of_hill(
        &mut self,
        winner_one: Identity,
        winner_two: Identity,
        loser_one: Identity,
        loser_two: Identity,
    ) -> (r: Result<AdvanceQueueEvent, Errors>)
        ensures
            team_outcome(
                *old(self),
                *final(self),
                winner_one,
                winner_two,
                loser_one,
                loser_two,
                r,
            ),
            keeps_seats_sound(*old(self), *final(self)),
    {
        if self.game_type != TEAM_KING_OF_HILL {
            return Err(Errors::CannotAdvanceGameQueueWrongGameType);
        }
        if self.game_queues.len() != 4 {
            return Err(Errors::CannotAdvanceGameQueueWrongMaxPlayers);
        }
        match self.team_seat_roles(winner_one, winner_two, loser_one, loser_two) {
            None => Err(Errors::RoleMismatch),
            Some(roles) => {
                proof {
                    lemma_rotated_keeps_distinct(self.lines(), roles@);
                }
                Ok(self.rotate(&roles))
            },
        }
    }

    /// Ends a round after which every occupant leaves. `reported` names the
    /// occupant of each seat, seat by seat.
    ///
    /// On every seat the next in line moves up; a seat on which nobody waits
    /// is empty afterwards. The round is refused where the game rotates
    /// under another policy, and where a seat is empty or held by somebody
    /// else than reported.
    pub fn advance_normal(
        &mut self,
        reported: &Vec<Identity>,
    ) -> (r: Result<AdvanceQueueEvent, Errors>)
        ensures
            normal_outcome(*old(self), *final(self), reported@, r),
            keeps_seats_sound(*old(self), *final(self)),
    {
        if self.game_type != NORMAL {
            return Err(Errors::CannotAdvanceGameQueueWrongGameType);
        }
        let n = self.game_queues.len();
        if reported.len() != n {
            return Err(Errors::EmptySeatAdvance);
        }
        let mut i: usize = 0;
        while i < n
            invariant
                i <= n,
                n == self.game_queues@.len(),
                n == reported@.len(),
                *self == *old(self),
                self.game_type == NORMAL,
                forall|j: int|
                    0 <= j < i ==> (#[trigger] self.lines()[j]).len() >= 1 && self.lines()[j][0]
                        == reported@[j],
            decreases n - i,
        {
            match self.game_queues[i].current_player() {
                None => {
                    assert(self.lines()[i as int].len() == 0);
                    return Err(Errors::EmptySeatAdvance);
                },
                Some(who) => {
                    if who != reported[i] {
                        assert(self.lines()[i as int][0] != reported@[i as int]);
                        return Err(Errors::EmptySeatAdvance);
                    }
                },
            }
            i += 1;
        }
        let ghost before = self.lines();
        let mut queue_nums: Vec<usize> = Vec::new();
        let mut finished_players: Vec<Identity> = Vec::new();
        let mut new_players: Vec<Option<Identity>> = Vec::new();
        let mut num_waiting: Vec<usize> = Vec::new();
        let mut i: usize = 0;
        while i < n
            invariant
                i <= n,
                n == self.game_queues@.len(),
                n == before.len(),
                occupants_are(before, reported@),
                self.same_record(old(self)),
                forall|j: int|
                    0 <= j < n ==> #[trigger] self.game_queues@[j]@ == (if j < i {
                        before[j].skip(1)
                    } else {
                        before[j]
                    }),
                queue_nums@.len() == i,
                finished_players@.len() == i,
                new_players@.len() == i,
                num_waiting@.len() == i,
                forall|k: int|
                    #![trigger queue_nums@[k]]
                    0 <= k < i ==> {
                        &&& queue_nums@[k] == k
                        &&& finished_players@[k] == before[k][0]
                        &&& new_players@[k] == occupant(before[k].skip(1))
                        &&& num_waiting@[k] == waiting_count(before[k].skip(1))
                    },
            decreases n - i,
        {
            assert(self.game_queues@[i as int]@ == before[i as int]);
            let finished = self.game_queues[i].line[0];
            self.game_queues[i].line.pop_front();
            let now = self.game_queues[i].current_player();
            let waiting = self.game_queues[i].waiting_count();
            queue_nums.push(i);
            finished_players.push(finished);
            new_players.push(now);
            num_waiting.push(waiting);
            i += 1;
        }
        assert(self.lines() =~= advanced(before));
        proof {
            lemma_advanced_keeps_distinct(before);
        }
        Ok(
            AdvanceQueueEvent {
                game_id: self.key,
                queue_nums,
                finished_players,
                new_players,
                num_waiting,
            },
        )
    }

    /// The first of the seats with the shortest line.
    fn find_balanced_seat(&self) -> (seat: usize)
        requires
            self.lines().len() > 0,
        ensures
            seat == balanced_seat(self.lines()),
            seat < self.lines().len(),
    {
        let n = self.game_queues.len();
        let mut best: usize = 0;
        let mut i: usize = 1;
        while i < n
            invariant
                1 <= i <= n,
                n == self.game_queues@.len(),
                best < i,
                best == first_shortest(self.lines(), i as int),
            decreases n - i,
        {
            if self.game_queues[i].line.len() < self.game_queues[best].line.len() {
                best = i;
            }
            i += 1;
        }
        best
    }

    /// Seats `player`.
    ///
    /// Where all seats rotate together, the player goes on the first empty
    /// seat and is in play at once; where every seat is taken, to the end
    /// of the line of the seat on which the fewest wait, the first of them
    /// among equals. `seat_hint` is not looked at. Where winners keep their
    /// seats, the player goes to the end of the line of the seat that
    /// `seat_hint` names, and is refused without a seat of that index.
    pub fn join(
        &mut self,
        player: Identity,
        seat_hint: Option<usize>,
    ) -> (r: Result<JoinQueueEvent, Errors>)
        ensures
            join_outcome(*old(self), *final(self), player, seat_hint, r),
            is_new_to(player, old(self).lines()) ==> keeps_seats_sound(*old(self), *final(self)),
    {
        let seat = if self.game_type == NORMAL {
            if self.game_queues.len() == 0 {
                return Err(Errors::UnknownSeat);
            }
            self.find_balanced_seat()
        } else if self.game_type == KING_OF_HILL || self.game_type == TEAM_KING_OF_HILL {
            match seat_hint {
                Some(seat) => {
                    if seat >= self.game_queues.len() {
                        return Err(Errors::UnknownSeat);
                    }
                    seat
                },
                None => {
                    return Err(Errors::UnknownSeat);
                },
            }
        } else {
            return Err(Errors::CannotAdvanceGameQueueWrongGameType);
        };
        let ghost before = self.lines();
        let num_waiting = self.game_queues[seat].line.len();
        self.game_queues[seat].enqueue(player);
        assert(self.lines() =~= joined(before, seat as int, player));
        Ok(JoinQueueEvent { game_id: self.key, queue_num: seat, last_player: player, num_waiting })
    }

    /// Whether the game has seats and nobody is on any of them.
    fn seats_are_empty(&self) -> (empty: bool)
        ensures
            empty == (self.lines() == empty_seats(self.lines().len())),
    {
        let n = self.game_queues.len();
        let mut i: usize = 0;
        while i < n
            invariant
                i <= n,
                n == self.game_queues@.len(),
                forall|j: int| 0 <= j < i ==> (#[trigger] self.lines()[j]).len() == 0,
            decreases n - i,
        {
            if self.game_queues[i].line.len() != 0 {
                assert(self.lines()[i as int].len() != 0);
                return false;
            }
            i += 1;
        }
        assert forall|j: int| 0 <= j < n implies #[trigger] self.lines()[j] =~= Seq::empty() by {}
        assert(self.lines() =~= empty_seats(self.lines().len()));
        true
    }

    /// Sets up the seats of the game, as many as it has players, and puts
    /// `player` in play on the first of them.
    ///
    /// This is refused for a game of no seats or more than four, for a game
    /// of no known policy, for a game of two against two on other than four
    /// seats, and while anybody is on a seat.
    pub fn init(&mut self, player: Identity) -> (r: Result<NewQueueEvent, Errors>)
        ensures
            init_outcome(*old(self), *final(self), player, r),
            r.is_ok() ==> seats_sound(final(self).lines()),
    {
        if self.max_players == 0 || self.max_players > MAX_SEATS {
            return Err(Errors::CannotAdvanceGameQueueWrongMaxPlayers);
        }
        if self.game_type > TEAM_KING_OF_HILL {
            return Err(Errors::CannotAdvanceGameQueueWrongGameType);
        }
        if self.game_type == TEAM_KING_OF_HILL && self.max_players != MAX_SEATS {
            return Err(Errors::CannotAdvanceGameQueueWrongMaxPlayers);
        }
        let n = self.max_players as usize;
        if self.game_queues.len() != 0 {
            if self.game_queues.len() != n || !self.seats_are_empty() {
                assert(empty_seats(n as nat).len() == n);
                return Err(Errors::AlreadyInitializedGameQueue);
            }
        }
        let mut seats: Vec<GameQueue> = Vec::new();
        let mut queue_nums: Vec<usize> = Vec::new();
        let mut new_player_ids: Vec<Option<Identity>> = Vec::new();
        let mut num_waiting: Vec<usize> = Vec::new();
        let mut i: usize = 0;
        while i < n
            invariant
                i <= n,
                seats@.len() == i,
                queue_nums@.len() == i,
                new_player_ids@.len() == i,
                num_waiting@.len() == i,
                forall|k: int|
                    0 <= k < i ==> (#[trigger] seats@[k])@ == opened(n as nat, player)[k],
                forall|k: int| 0 <= k < i ==> #[trigger] queue_nums@[k] == k,
                forall|k: int|
                    0 <= k < i ==> #[trigger] new_player_ids@[k] == (if k == 0 {
                        Some(player)
                    } else {
                        None
                    }),
                forall|k: int| 0 <= k < i ==> #[trigger] num_waiting@[k] == 0,
            decreases n - i,
        {
            let mut seat = GameQueue::new();
            if i == 0 {
                seat.enqueue(player);
                new_player_ids.push(Some(player));
            } else {
                new_player_ids.push(None);
            }
            seats.push(seat);
            queue_nums.push(i);
            num_waiting.push(0);
            i += 1;
        }
        self.game_queues = seats;
        assert(self.lines() =~= opened(n as nat, player));
        Ok(NewQueueEvent { game_id: self.key, queue_nums, new_player_ids, num_waiting })
    }

    /// Empties every seat, whoever is still on it. This never fails, and
    /// doing it again changes nothing.
    pub fn finish(&mut self) -> (event: FinishQueueEvent)
        ensures
            finish_outcome(*old(self), *final(self), event),
            seats_sound(final(self).lines()),
    {
        let n = self.game_queues.len();
        let mut i: usize = 0;
        while i < n
            invariant
                i <= n,
                n == self.game_queues@.len(),
                self.same_record(old(self)),
                forall|j: int| 0 <= j < i ==> (#[trigger] self.game_queues@[j])@.len() == 0,
            decreases n - i,
        {
            self.game_queues[i].reset();
            i += 1;
        }
        assert forall|j: int| 0 <= j < n implies #[trigger] self.lines()[j] =~= Seq::empty() by {}
        assert(self.lines() =~= empty_seats(n as nat));
        FinishQueueEvent { game_id: self.key }
    }
}

/// A stretch of a line that holds no identity twice holds none twice.
proof fn lemma_stretch_distinct(line: Seq<Identity>, from: int, to: int)
    requires
        line.no_duplicates(),
        0 <= from <= to <= line.len(),
    ensures
        line.subrange(from, to).no_duplicates(),
{
    let stretch = line.subrange(from, to);
    assert forall|a: int, b: int|
        0 <= a < stretch.len() && 0 <= b < stretch.len() && a != b implies stretch[a]
        != stretch[b] by {}
}

/// A round leaves no identity twice on a line that held none twice.
pub proof fn lemma_rotated_keeps_distinct(lines: Seq<Seq<Identity>>, roles: Seq<Role>)
    requires
        roles_fit(lines, roles),
    ensures
        lines_distinct(lines) ==> lines_distinct(rotated(lines, roles)),
{
    if lines_distinct(lines) {
        lemma_source_seat(roles, Side::One, roles.len() as int);
        lemma_source_seat(roles, Side::Two, roles.len() as int);
        assert forall|i: int| 0 <= i < lines.len() implies (#[trigger] rotated(
            lines,
            roles,
        )[i]).no_duplicates() by {
            match roles[i] {
                Role::Loser(side) => {
                    if lines[i].len() >= 2 {
                        lemma_stretch_distinct(lines[i], 1, lines[i].len() as int);
                    } else {
                        match surplus_seat(lines, roles, side) {
                            Some(w) => {
                                lemma_stretch_distinct(lines[w], 1, lines[w].len() as int);
                            },
                            None => {},
                        }
                    }
                },
                Role::Winner(side) => {
                    if lines[i].len() >= 1 {
                        lemma_stretch_distinct(lines[i], 0, 1);
                    }
                },
            }
        }
    }
}

/// When every occupant leaves, no identity stands twice on a line that held
/// none twice.
pub proof fn lemma_advanced_keeps_distinct(lines: Seq<Seq<Identity>>)
    requires
        forall|i: int| 0 <= i < lines.len() ==> (#[trigger] lines[i]).len() >= 1,
    ensures
        lines_distinct(lines) ==> lines_distinct(advanced(lines)),
{
    if lines_distinct(lines) {
        assert forall|i: int| 0 <= i < lines.len() implies (#[trigger] advanced(
            lines,
        )[i]).no_duplicates() by {
            lemma_stretch_distinct(lines[i], 1, lines[i].len() as int);
        }
    }
}

/// On a game of one seat that is empty, a player who joins is in play at
/// once, and the round that follows takes just that player off and leaves
/// the seat empty again.
pub proof fn lemma_join_then_advance_on_one_seat(
    before: Game,
    seated: Game,
    after: Game,
    player: Identity,
    join_result: Result<JoinQueueEvent, Errors>,
    advance_result: Result<AdvanceQueueEvent, Errors>,
)
    requires
        before.game_type == NORMAL,
        before.lines() == empty_seats(1),
        join_outcome(before, seated, player, None, join_result),
        normal_outcome(seated, after, seq![player], advance_result),
    ensures
        join_result == Ok::<JoinQueueEvent, Errors>(
            JoinQueueEvent {
                game_id: before.key,
                queue_num: 0,
                last_player: player,
                num_waiting: 0,
            },
        ),
        seated.lines() == opened(1, player),
        advance_result matches Ok(event) && event.queue_nums@ == seq![0usize]
            && event.finished_players@ == seq![player] && event.new_players@ == seq![
            None::<Identity>,
        ] && event.num_waiting@ == seq![0usize],
        after.lines() == empty_seats(1),
{
    reveal_with_fuel(first_shortest, 2);
    assert(seated.lines() =~= opened(1, player));
    assert(after.lines() =~= empty_seats(1)) by {
        assert(after.lines()[0] =~= Seq::<Identity>::empty());
    }
}

/// Emptying the seats twice in a row gives the same empty seats and the
/// same report both times.
pub proof fn lemma_finish_twice(
    before: Game,
    once: Game,
    twice: Game,
    first: FinishQueueEvent,
    second: FinishQueueEvent,
)
    requires
        finish_outcome(before, once, first),
        finish_outcome(once, twice, second),
    ensures
        once.lines() == empty_seats(before.lines().len()),
        twice.lines() == once.lines(),
        twice.same_record(&once),
        second == first,
{
}

} // verus!
