use arcade::directory::ArcadeState;
use arcade::errors::Errors;
use arcade::events::PayoutEvent;
use arcade::game::Game;
use arcade::identity::Identity;
use arcade::leaderboard::{update_leaderboard, Leaderboard};
use arcade::payout::{
    cash_out_most_recent_pot, cash_out_pot, payback_funds, settle_payout, split_funds, GamePot,
    Payout, PayoutShares, RECORD_HEADER,
};

const GAME_RESERVE: u64 = 18_896_400;
const POT_RESERVE: u64 = 1_621_680;

fn pid(n: u128) -> Identity {
    Identity::new(4, n)
}

fn paying_game() -> Game {
    let mut game = Game {
        key: pid(10),
        title: "Galaga".to_string(),
        web_gl_hash: "w".to_string(),
        game_art_hash: "a".to_string(),
        max_players: 2,
        game_type: 0,
        strikes: 0,
        leaderboard: Leaderboard::seeded(pid(20)),
        game_queues: Vec::new(),
        younger_game_key: pid(10),
        older_game_key: pid(9),
        owner_wallet: pid(20),
    };
    assert!(update_leaderboard(&mut game, "ANN".to_string(), 900, pid(31)).is_ok());
    assert!(update_leaderboard(&mut game, "BO".to_string(), 800, pid(32)).is_ok());
    assert!(update_leaderboard(&mut game, "C".to_string(), 700, pid(33)).is_ok());
    game
}

fn paying_arcade() -> ArcadeState {
    ArcadeState {
        most_recent_game_key: pid(10),
        most_recent_game_pot_key: Some(pid(77)),
        authority: pid(1),
    }
}

fn shares(owner: u64, one: u64, two: u64, three: u64) -> PayoutShares {
    PayoutShares {
        owner_lamports: owner,
        player_one_lamports: one,
        player_two_lamports: two,
        player_three_lamports: three,
    }
}

#[test]
fn the_sizes_of_the_records_are_fixed() {
    assert_eq!(Leaderboard::MAX_SIZE, 180);
    assert_eq!(Game::MAX_SIZE, 2579);
    assert_eq!(GamePot::MAX_SIZE, 97);
    assert_eq!(ArcadeState::MAX_SIZE, 97);
    assert_eq!(RECORD_HEADER, 8);
}

#[test]
fn the_funds_above_the_reserve_are_split_in_sevenths() {
    assert_eq!(split_funds(1_000 + 2 * 7_000, 1_000, 0), Ok(shares(7_000, 4_000, 2_000, 1_000)));
    assert_eq!(
        split_funds(1_000 + 2 * 7_000 + 1, 1_000, 1_000),
        Ok(shares(7_000, 4_000, 2_000, 1_000))
    );
}

#[test]
fn shares_are_rounded_down() {
    assert_eq!(split_funds(100, 0, 0), Ok(shares(50, 28, 14, 7)));
    assert_eq!(split_funds(27, 0, 0), Ok(shares(13, 7, 3, 1)));
    assert_eq!(split_funds(1, 0, 0), Ok(shares(0, 0, 0, 0)));
    assert_eq!(split_funds(0, 0, 0), Ok(shares(0, 0, 0, 0)));
}

#[test]
fn the_largest_funds_are_split_without_overflow() {
    let owner = u64::MAX / 2;
    assert_eq!(
        split_funds(u64::MAX, 0, 0),
        Ok(shares(
            owner,
            (owner as u128 * 4 / 7) as u64,
            (owner as u128 * 2 / 7) as u64,
            owner / 7
        ))
    );
    assert_eq!(
        split_funds(u64::MAX, 0, 0),
        Ok(shares(
            9_223_372_036_854_775_807,
            5_270_498_306_774_157_604,
            2_635_249_153_387_078_802,
            1_317_624_576_693_539_401
        ))
    );
}

#[test]
fn funds_below_the_reserve_are_not_paid_out() {
    assert_eq!(split_funds(999, 1_000, 0), Err(Errors::InsufficientFundsForPayout));
    assert_eq!(split_funds(0, 1, 0), Err(Errors::InsufficientFundsForPayout));
    assert_eq!(split_funds(1_000, 1_000, 0), Ok(shares(0, 0, 0, 0)));
}

#[test]
fn each_share_has_to_cover_a_pot() {
    assert_eq!(split_funds(2 * 7_000, 0, 4_001), Err(Errors::InsufficientFundsPotOne));
    assert_eq!(split_funds(2 * 7_000, 0, 4_000), Err(Errors::InsufficientFundsPotTwo));
    assert_eq!(split_funds(2 * 7_000, 0, 2_001), Err(Errors::InsufficientFundsPotTwo));
    assert_eq!(split_funds(2 * 7_000, 0, 2_000), Err(Errors::InsufficientFundsPotThree));
    assert_eq!(split_funds(2 * 7_000, 0, 1_001), Err(Errors::InsufficientFundsPotThree));
    assert_eq!(split_funds(2 * 7_000, 0, 1_000), Ok(shares(7_000, 4_000, 2_000, 1_000)));
    assert_eq!(split_funds(1_000, 1_000, 1), Err(Errors::InsufficientFundsPotOne));
}

#[test]
fn the_game_keeps_its_reserve_after_a_payout() {
    let mut lamports: u64 = 5_000;
    while lamports < 5_200 {
        if let Ok(s) = split_funds(lamports, 5_000, 0) {
            let paid = s.owner_lamports
                + s.player_one_lamports
                + s.player_two_lamports
                + s.player_three_lamports;
            assert!(lamports - paid >= 5_000);
        } else {
            panic!("refused");
        }
        lamports += 1;
    }
}

#[test]
fn a_payout_fills_three_pots_and_starts_the_leaderboard_again() {
    let mut game = paying_game();
    let mut arcade = paying_arcade();
    let before = game.clone();
    let r = settle_payout(
        &mut game,
        &mut arcade,
        pid(2),
        15_000,
        pid(41),
        pid(42),
        pid(43),
        1_000,
        500,
    );
    assert_eq!(
        r,
        Ok(Payout {
            shares: shares(7_000, 4_000, 2_000, 1_000),
            player_one_pot: GamePot {
                game: pid(10),
                winner_wallet: pid(31),
                next_game_pot: Some(pid(42)),
            },
            player_two_pot: GamePot {
                game: pid(10),
                winner_wallet: pid(32),
                next_game_pot: Some(pid(43)),
            },
            player_three_pot: GamePot {
                game: pid(10),
                winner_wallet: pid(33),
                next_game_pot: Some(pid(77)),
            },
            event: PayoutEvent {
                game_name: "Galaga".to_string(),
                arcade_id: pid(2),
                player_one_pot_key: pid(41),
                player_two_pot_key: pid(42),
                player_three_pot_key: pid(43),
                player_one_name: "ANN".to_string(),
                player_two_name: "BO ".to_string(),
                player_three_name: "C  ".to_string(),
            },
        })
    );
    assert_eq!(
        arcade,
        ArcadeState { most_recent_game_pot_key: Some(pid(41)), ..paying_arcade() }
    );
    assert_eq!(game, Game { leaderboard: Leaderboard::seeded(pid(20)), ..before });
}

#[test]
fn the_first_payout_ends_the_chain_of_pots() {
    let mut game = paying_game();
    let mut arcade = ArcadeState { most_recent_game_pot_key: None, ..paying_arcade() };
    let r = settle_payout(&mut game, &mut arcade, pid(2), 14_000, pid(41), pid(42), pid(43), 0, 0);
    match r {
        Ok(payout) => assert_eq!(payout.player_three_pot.next_game_pot, None),
        Err(e) => panic!("refused: {:?}", e),
    }
    assert_eq!(arcade.most_recent_game_pot_key, Some(pid(41)));
}

#[test]
fn a_refused_payout_changes_nothing() {
    let mut game = paying_game();
    let mut arcade = paying_arcade();
    let before = game.clone();
    assert_eq!(
        settle_payout(&mut game, &mut arcade, pid(2), 999, pid(41), pid(42), pid(43), 1_000, 0),
        Err(Errors::InsufficientFundsForPayout)
    );
    assert_eq!(
        settle_payout(
            &mut game,
            &mut arcade,
            pid(2),
            15_000,
            pid(41),
            pid(42),
            pid(43),
            1_000,
            1_001
        ),
        Err(Errors::InsufficientFundsPotThree)
    );
    assert_eq!(game, before);
    assert_eq!(arcade, paying_arcade());
}

#[test]
fn a_payout_takes_the_reserves_from_the_rent() {
    let mut game = paying_game();
    let mut arcade = paying_arcade();
    let funds = GAME_RESERVE + 2 * 7 * POT_RESERVE;
    let r = payback_funds(&mut game, &mut arcade, pid(2), funds, pid(41), pid(42), pid(43));
    match r {
        Ok(payout) => assert_eq!(
            payout.shares,
            shares(7 * POT_RESERVE, 4 * POT_RESERVE, 2 * POT_RESERVE, POT_RESERVE)
        ),
        Err(e) => panic!("refused: {:?}", e),
    }
    assert_eq!(arcade.most_recent_game_pot_key, Some(pid(41)));
    assert_eq!(game.leaderboard, Leaderboard::seeded(pid(20)));
}

#[test]
fn a_payout_is_refused_one_lamport_short_of_the_rent() {
    let mut game = paying_game();
    let mut arcade = paying_arcade();
    let before = game.clone();
    let funds = GAME_RESERVE + 2 * 7 * POT_RESERVE;
    assert_eq!(
        payback_funds(&mut game, &mut arcade, pid(2), funds - 2, pid(41), pid(42), pid(43)),
        Err(Errors::InsufficientFundsPotThree)
    );
    assert_eq!(
        payback_funds(&mut game, &mut arcade, pid(2), GAME_RESERVE - 1, pid(41), pid(42), pid(43)),
        Err(Errors::InsufficientFundsForPayout)
    );
    assert_eq!(
        payback_funds(&mut game, &mut arcade, pid(2), GAME_RESERVE, pid(41), pid(42), pid(43)),
        Err(Errors::InsufficientFundsPotOne)
    );
    assert_eq!(
        payback_funds(
            &mut game,
            &mut arcade,
            pid(2),
            GAME_RESERVE + 4 * POT_RESERVE,
            pid(41),
            pid(42),
            pid(43)
        ),
        Err(Errors::InsufficientFundsPotTwo)
    );
    assert_eq!(game, before);
    assert_eq!(arcade, paying_arcade());
}

#[test]
fn a_pot_is_taken_out_of_the_chain() {
    let pot = GamePot { game: pid(10), winner_wallet: pid(31), next_game_pot: Some(pid(43)) };
    let mut previous =
        GamePot { game: pid(11), winner_wallet: pid(35), next_game_pot: Some(pid(42)) };
    assert!(cash_out_pot(&pot, pid(42), &mut previous, pid(31)));
    assert_eq!(
        previous,
        GamePot { game: pid(11), winner_wallet: pid(35), next_game_pot: Some(pid(43)) }
    );
    let last = GamePot { game: pid(10), winner_wallet: pid(31), next_game_pot: None };
    assert!(cash_out_pot(&last, pid(43), &mut previous, pid(31)));
    assert_eq!(previous.next_game_pot, None);
}

#[test]
fn a_pot_stays_in_the_chain_for_anybody_else() {
    let pot = GamePot { game: pid(10), winner_wallet: pid(31), next_game_pot: Some(pid(43)) };
    let mut previous =
        GamePot { game: pid(11), winner_wallet: pid(35), next_game_pot: Some(pid(42)) };
    let before = previous;
    assert!(!cash_out_pot(&pot, pid(42), &mut previous, pid(32)));
    assert!(!cash_out_pot(&pot, pid(41), &mut previous, pid(31)));
    assert_eq!(previous, before);
    let mut end = GamePot { game: pid(11), winner_wallet: pid(35), next_game_pot: None };
    assert!(!cash_out_pot(&pot, pid(42), &mut end, pid(31)));
    assert_eq!(end.next_game_pot, None);
}

#[test]
fn the_newest_pot_is_taken_off_the_arcade() {
    let pot = GamePot { game: pid(10), winner_wallet: pid(31), next_game_pot: Some(pid(43)) };
    let mut arcade = paying_arcade();
    assert!(cash_out_most_recent_pot(&pot, pid(77), &mut arcade, pid(31)));
    assert_eq!(arcade, ArcadeState { most_recent_game_pot_key: Some(pid(43)), ..paying_arcade() });
}

#[test]
fn the_newest_pot_stays_for_anybody_else() {
    let pot = GamePot { game: pid(10), winner_wallet: pid(31), next_game_pot: Some(pid(43)) };
    let mut arcade = paying_arcade();
    assert!(!cash_out_most_recent_pot(&pot, pid(77), &mut arcade, pid(32)));
    assert!(!cash_out_most_recent_pot(&pot, pid(78), &mut arcade, pid(31)));
    assert_eq!(arcade, paying_arcade());
    let mut none = ArcadeState { most_recent_game_pot_key: None, ..paying_arcade() };
    assert!(!cash_out_most_recent_pot(&pot, pid(77), &mut none, pid(31)));
    assert_eq!(none.most_recent_game_pot_key, None);
}
