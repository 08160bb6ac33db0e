//! A seat of a game: the player in play and the line waiting behind them.

use crate::errors::Errors;
use crate::identity::Identity;
use std::collections::VecDeque;
use vstd::prelude::*;

verus! {

/// The player in play on a line, if the line is not empty.
pub open spec fn occupant(line: Seq<Identity>) -> Option<Identity> {
    if line.len() == 0 {
        None
    } else {
        Some(line[0])
    }
}

/// The last entry of a line: the occupant itself where nobody waits.
pub open spec fn tail(line: Seq<Identity>) -> Option<Identity> {
    if line.len() == 0 {
        None
    } else {
        Some(line.last())
    }
}

/// How many entries of a line wait behind its occupant.
pub open spec fn waiting_count(line: Seq<Identity>) -> nat {
    if line.len() == 0 {
        0
    } else {
        (line.len() - 1) as nat
    }
}

/// One entry of a line, with the entry that stands behind it.
#[derive(Clone, Copy, Debug, PartialEq, Eq, Structural)]
pub struct Player {
    /// Who stands here.
    pub wallet_key: Identity,
    /// Who stands behind, if anybody does.
    pub next_player: Option<Identity>,
}

/// A seat. Its line starts with the occupant and goes on with those who
/// wait, in the order in which they joined. An empty line is an empty seat.
#[derive(Clone, Debug, PartialEq, Eq)]
pub struct GameQueue {
    pub line: VecDeque<Identity>,
}

impl View for GameQueue {
    type V = Seq<Identity>;

    open spec fn view(&self) -> Seq<Identity> {
        self.line@
    }
}

impl GameQueue {
    /// An empty seat.
    pub fn new() -> (seat: GameQueue)
        ensures
            seat@ == Seq::<Identity>::empty(),
    {
        GameQueue { line: VecDeque::new() }
    }

    /// The player in play, or `None` on an empty seat.
    pub fn current_player(&self) -> (p: Option<Identity>)
        ensures
            p == occupant(self@),
    {
        if self.line.len() == 0 {
            None
        } else {
            Some(self.line[0])
        }
    }

    /// The last entry of the line, or `None` on an empty seat.
    pub fn last_player(&self) -> (p: Option<Identity>)
        ensures
            p == tail(self@),
    {
        let n = self.line.len();
        if n == 0 {
            None
        } else {
            Some(self.line[n - 1])
        }
    }

    /// The number of players who wait behind the occupant.
    pub fn waiting_count(&self) -> (n: usize)
        ensures
            n == waiting_count(self@),
    {
        let n = self.line.len();
        if n == 0 {
            0
        } else {
            n - 1
        }
    }

    /// The entry at `position` (0 is the occupant) with its successor, or
    /// `None` where the line is shorter.
    pub fn player(&self, position: usize) -> (entry: Option<Player>)
        ensures
            entry == (if position < self@.len() {
                Some(
                    Player {
                        wallet_key: self@[position as int],
                        next_player: if position + 1 < self@.len() {
                            Some(self@[position + 1])
                        } else {
                            None
                        },
                    },
                )
            } else {
                None
            }),
    {
        let n = self.line.len();
        if position < n {
            let next_player = if position < n - 1 {
                Some(self.line[position + 1])
            } else {
                None
            };
            Some(Player { wallet_key: self.line[position], next_player })
        } else {
            None
        }
    }

    /// Puts `player` at the end of the line. On an empty seat the player is
    /// in play at once and nobody waits.
    pub fn enqueue(&mut self, player: Identity)
        ensures
            final(self)@ == old(self)@.push(player),
            tail(final(self)@) == Some(player),
            occupant(final(self)@) == (if old(self)@.len() == 0 {
                Some(player)
            } else {
                occupant(old(self)@)
            }),
            waiting_count(final(self)@) == (if old(self)@.len() == 0 {
                0
            } else {
                waiting_count(old(self)@) + 1
            }),
            old(self)@.no_duplicates() && !old(self)@.contains(player)
                ==> final(self)@.no_duplicates(),
    {
        proof {
            lemma_push_keeps_distinct(self@, player);
        }
        self.line.push_back(player);
    }

    /// Takes the occupant off the seat and puts the next in line in play.
    /// Returns who left and who is in play now. An empty seat is refused.
    pub fn pop_active(&mut self) -> (r: Result<(Identity, Option<Identity>), Errors>)
        ensures
            old(self)@.len() == 0 ==> r == Err::<(Identity, Option<Identity>), Errors>(
                Errors::EmptySeatAdvance,
            ) && final(self)@ == old(self)@,
            old(self)@.len() > 0 ==> r == Ok::<(Identity, Option<Identity>), Errors>(
                (old(self)@[0], occupant(old(self)@.skip(1))),
            ) && final(self)@ == old(self)@.skip(1),
            old(self)@.len() == 1 ==> occupant(final(self)@).is_none() && tail(
                final(self)@,
            ).is_none(),
            old(self)@.len() > 1 ==> tail(final(self)@) == tail(old(self)@) && waiting_count(
                final(self)@,
            ) == waiting_count(old(self)@) - 1,
            old(self)@.no_duplicates() ==> final(self)@.no_duplicates(),
    {
        match self.line.pop_front() {
            None => Err(Errors::EmptySeatAdvance),
            Some(finished) => {
                let next = self.current_player();
                Ok((finished, next))
            },
        }
    }

    /// Empties the seat, whoever still waits.
    pub fn reset(&mut self)
        ensures
            final(self)@ == Seq::<Identity>::empty(),
    {
        self.line.clear();
    }
}

/// A line without repeated entries stays so when a new entry joins it.
pub proof fn lemma_push_keeps_distinct(line: Seq<Identity>, player: Identity)
    ensures
        line.no_duplicates() && !line.contains(player) ==> line.push(player).no_duplicates(),
{
}

/// Nobody waits exactly where the last entry is the occupant: on every line
/// one way round, and the other way round on every line that holds no
/// identity twice.
pub proof fn lemma_nobody_waits_iff_tail_is_occupant(line: Seq<Identity>)
    ensures
        waiting_count(line) == 0 ==> tail(line) == occupant(line),
        line.no_duplicates() ==> (waiting_count(line) == 0 <==> tail(line) == occupant(line)),
{
}

} // verus!
