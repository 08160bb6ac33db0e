//! The three best scores of a game.

use crate::errors::Errors;
use crate::events::LeaderboardEvent;
use crate::game::Game;
use crate::identity::Identity;
use vstd::prelude::*;
use vstd::string::*;

verus! {

/// What a place on the leaderboard holds, as plain values.
pub struct PlaceView {
    pub name: Seq<char>,
    pub wallet_key: Identity,
    pub score: u128,
}

/// One place on the leaderboard.
#[derive(Clone, Debug, PartialEq, Eq)]
pub struct Place {
    /// Three characters, as on an arcade cabinet.
    pub name: String,
    /// Who scored.
    pub wallet_key: Identity,
    pub score: u128,
}

impl View for Place {
    type V = PlaceView;

    open spec fn view(&self) -> PlaceView {
        PlaceView { name: self.name@, wallet_key: self.wallet_key, score: self.score }
    }
}

/// The three places of a leaderboard, best first, as plain values.
pub struct LeaderboardView {
    pub first_place: PlaceView,
    pub second_place: PlaceView,
    pub third_place: PlaceView,
}

impl LeaderboardView {
    /// No place scores more than the place above it.
    pub open spec fn sorted(self) -> bool {
        self.first_place.score >= self.second_place.score >= self.third_place.score
    }

    /// Every name has exactly three characters.
    pub open spec fn named(self) -> bool {
        &&& self.first_place.name.len() == 3
        &&& self.second_place.name.len() == 3
        &&& self.third_place.name.len() == 3
    }
}

/// The leaderboard of a game.
#[derive(Clone, Debug, PartialEq, Eq)]
pub struct Leaderboard {
    pub first_place: Place,
    pub second_place: Place,
    pub third_place: Place,
}

impl View for Leaderboard {
    type V = LeaderboardView;

    open spec fn view(&self) -> LeaderboardView {
        LeaderboardView {
            first_place: self.first_place@,
            second_place: self.second_place@,
            third_place: self.third_place@,
        }
    }
}

/// A name of one, two or three characters filled up with spaces to three;
/// no other name has such a form.
pub open spec fn normalized_name(name: Seq<char>) -> Option<Seq<char>> {
    if name.len() == 1 {
        Some(name + seq![' ', ' '])
    } else if name.len() == 2 {
        Some(name + seq![' '])
    } else if name.len() == 3 {
        Some(name)
    } else {
        None
    }
}

/// The leaderboard after `place` has been held against it: a score that
/// does not beat the third place changes nothing; otherwise the new place
/// goes above the best place that it beats, the places below move down by
/// one and the former third place is dropped.
pub open spec fn ranked(board: LeaderboardView, place: PlaceView) -> LeaderboardView {
    if place.score <= board.third_place.score {
        board
    } else if place.score > board.first_place.score {
        LeaderboardView {
            first_place: place,
            second_place: board.first_place,
            third_place: board.second_place,
        }
    } else if place.score > board.second_place.score {
        LeaderboardView {
            first_place: board.first_place,
            second_place: place,
            third_place: board.second_place,
        }
    } else {
        LeaderboardView {
            first_place: board.first_place,
            second_place: board.second_place,
            third_place: place,
        }
    }
}

/// The leaderboard that every game starts with.
pub open spec fn seeded_board(owner: Identity) -> LeaderboardView {
    LeaderboardView {
        first_place: PlaceView { name: seq!['A', 'A', 'A'], wallet_key: owner, score: 100 },
        second_place: PlaceView { name: seq!['B', 'B', 'B'], wallet_key: owner, score: 50 },
        third_place: PlaceView { name: seq!['C', 'C', 'C'], wallet_key: owner, score: 25 },
    }
}

/// Fills a name up to three characters, or refuses it.
pub fn normalize_name(name: String) -> (r: Result<String, Errors>)
    ensures
        normalized_name(name@) matches Some(n) ==> r matches Ok(s) && s@ == n,
        normalized_name(name@).is_none() ==> r == Err::<String, Errors>(Errors::IllegalName),
{
    let n = name.as_str().unicode_len();
    if n == 1 {
        proof {
            reveal_strlit("  ");
        }
        Ok(name.concat("  "))
    } else if n == 2 {
        proof {
            reveal_strlit(" ");
        }
        Ok(name.concat(" "))
    } else if n == 3 {
        Ok(name)
    } else {
        Err(Errors::IllegalName)
    }
}

impl Place {
    /// The bytes that a place takes on the ledger.
    pub const MAX_SIZE: usize = 3 * 4 + 32 + 16;
}

impl Leaderboard {
    /// The bytes that a leaderboard takes on the ledger.
    pub const MAX_SIZE: usize = 3 * Place::MAX_SIZE;

    /// The leaderboard of a new game: three low scores under the owner's
    /// identity.
    pub fn seeded(owner: Identity) -> (board: Leaderboard)
        ensures
            board@ == seeded_board(owner),
            board@.sorted(),
            board@.named(),
    {
        proof {
            reveal_strlit("AAA");
            reveal_strlit("BBB");
            reveal_strlit("CCC");
            assert("AAA"@ =~= seq!['A', 'A', 'A']);
            assert("BBB"@ =~= seq!['B', 'B', 'B']);
            assert("CCC"@ =~= seq!['C', 'C', 'C']);
        }
        Leaderboard {
            first_place: Place { name: String::from_str("AAA"), wallet_key: owner, score: 100 },
            second_place: Place { name: String::from_str("BBB"), wallet_key: owner, score: 50 },
            third_place: Place { name: String::from_str("CCC"), wallet_key: owner, score: 25 },
        }
    }

    /// Holds `place` against the three places and puts it where it belongs.
    pub fn insert(&mut self, place: Place)
        ensures
            final(self)@ == ranked(old(self)@, place@),
            old(self)@.sorted() ==> final(self)@.sorted(),
            old(self)@.named() && place@.name.len() == 3 ==> final(self)@.named(),
    {
        if place.score > self.third_place.score {
            if place.score > self.first_place.score {
                core::mem::swap(&mut self.second_place, &mut self.third_place);
                core::mem::swap(&mut self.first_place, &mut self.second_place);
                self.first_place = place;
            } else if place.score > self.second_place.score {
                core::mem::swap(&mut self.second_place, &mut self.third_place);
                self.second_place = place;
            } else {
                self.third_place = place;
            }
        }
    }

    /// Records a score under a name of one to three characters. A name of
    /// any other length is refused, and the leaderboard stays as it was.
    pub fn record(
        &mut self,
        name: String,
        wallet_key: Identity,
        score: u128,
    ) -> (r: Result<(), Errors>)
        ensures
            normalized_name(name@) matches Some(n) ==> r == Ok::<(), Errors>(()) && final(self)@
                == ranked(old(self)@, PlaceView { name: n, wallet_key, score }),
            normalized_name(name@).is_none() ==> r == Err::<(), Errors>(Errors::IllegalName)
                && final(self)@ == old(self)@,
            old(self)@.sorted() ==> final(self)@.sorted(),
            old(self)@.named() ==> final(self)@.named(),
    {
        match normalize_name(name) {
            Err(e) => Err(e),
            Ok(name) => {
                self.insert(Place { name, wallet_key, score });
                Ok(())
            },
        }
    }
}

/// A leaderboard that is sorted stays sorted whatever place is held against
/// it, and the leaderboard of a new game is sorted.
pub proof fn lemma_ranked_keeps_sorted(board: LeaderboardView, place: PlaceView, owner: Identity)
    ensures
        board.sorted() ==> ranked(board, place).sorted(),
        seeded_board(owner).sorted(),
{
}

/// Whether `event` tells of a score recorded under `player_name` and of the
/// three names on `board`.
pub open spec fn leaderboard_event_is(
    event: LeaderboardEvent,
    game_id: Identity,
    player_name: Seq<char>,
    board: LeaderboardView,
) -> bool {
    &&& event.game_id == game_id
    &&& event.player_name@ == player_name
    &&& event.first_place_name@ == board.first_place.name
    &&& event.second_place_name@ == board.second_place.name
    &&& event.third_place_name@ == board.third_place.name
}

/// Holds the score of a finished game against the leaderboard of the game.
///
/// The name is filled up with spaces to three characters. A score that
/// beats the third place goes above the best place that it beats, and the
/// places below move down. The event names the three places as they stand
/// afterwards. A name of no characters or of more than three is refused,
/// and nothing changes.
pub fn update_leaderboard(
    game_account: &mut Game,
    player_name: String,
    score: u128,
    wallet_key: Identity,
) -> (r: Result<LeaderboardEvent, Errors>)
    ensures
        match normalized_name(player_name@) {
            None => {
                &&& r == Err::<LeaderboardEvent, Errors>(Errors::IllegalName)
                &&& *final(game_account) == *old(game_account)
            },
            Some(name) => {
                &&& r matches Ok(event)
                &&& leaderboard_event_is(
                    event,
                    old(game_account).key,
                    name,
                    final(game_account).leaderboard@,
                )
                &&& final(game_account).leaderboard@ == ranked(
                    old(game_account).leaderboard@,
                    PlaceView { name, wallet_key, score },
                )
                &&& *final(game_account) == (Game {
                    leaderboard: final(game_account).leaderboard,
                    ..*old(game_account)
                })
            },
        },
        old(game_account).leaderboard@.sorted() ==> final(game_account).leaderboard@.sorted(),
        old(game_account).leaderboard@.named() ==> final(game_account).leaderboard@.named(),
{
    match normalize_name(player_name) {
        Err(e) => Err(e),
        Ok(name) => {
            let recorded_name = name.clone();
            game_account.leaderboard.insert(Place { name, wallet_key, score });
            Ok(
                LeaderboardEvent {
                    game_id: game_account.key,
                    player_name: recorded_name,
                    first_place_name: game_account.leaderboard.first_place.name.clone(),
                    second_place_name: game_account.leaderboard.second_place.name.clone(),
                    third_place_name: game_account.leaderboard.third_place.name.clone(),
                },
            )
        },
    }
}

} // verus!
