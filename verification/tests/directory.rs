use arcade::directory::{
    create_game, delete_game, delete_most_recent_game, initialize_arcade, ArcadeState,
};
use arcade::errors::Errors;
use arcade::events::{GameEvent, LeaderboardEvent};
use arcade::game::Game;
use arcade::identity::Identity;
use arcade::leaderboard::{update_leaderboard, Leaderboard, Place};

fn did(n: u128) -> Identity {
    Identity::new(3, n)
}

fn genesis() -> Game {
    Game {
        key: did(1),
        title: String::new(),
        web_gl_hash: String::new(),
        game_art_hash: String::new(),
        max_players: 0,
        game_type: 0,
        strikes: 0,
        leaderboard: Leaderboard::seeded(did(0)),
        game_queues: Vec::new(),
        younger_game_key: did(1),
        older_game_key: did(1),
        owner_wallet: did(0),
    }
}

fn add_game(arcade: &mut ArcadeState, newest: &mut Game, key: u128, owner: u128) -> Game {
    let (game, _) = create_game(
        arcade,
        newest,
        did(key),
        did(owner),
        format!("game {}", key),
        "webgl".to_string(),
        "art".to_string(),
        2,
        1,
    );
    game
}

#[test]
fn a_new_arcade_names_its_first_game() {
    let arcade = initialize_arcade(did(50), did(1));
    assert_eq!(
        arcade,
        ArcadeState {
            most_recent_game_key: did(1),
            most_recent_game_pot_key: None,
            authority: did(50),
        }
    );
}

#[test]
fn a_new_game_goes_to_the_head_of_the_directory() {
    let mut arcade = initialize_arcade(did(50), did(1));
    let mut first = genesis();
    let (game, event) = create_game(
        &mut arcade,
        &mut first,
        did(2),
        did(60),
        "Asteroids".to_string(),
        "hash-of-build".to_string(),
        "hash-of-art".to_string(),
        3,
        1,
    );
    assert_eq!(
        game,
        Game {
            key: did(2),
            title: "Asteroids".to_string(),
            web_gl_hash: "hash-of-build".to_string(),
            game_art_hash: "hash-of-art".to_string(),
            max_players: 3,
            game_type: 1,
            strikes: 0,
            leaderboard: Leaderboard {
                first_place: Place { name: "AAA".to_string(), wallet_key: did(60), score: 100 },
                second_place: Place { name: "BBB".to_string(), wallet_key: did(60), score: 50 },
                third_place: Place { name: "CCC".to_string(), wallet_key: did(60), score: 25 },
            },
            game_queues: Vec::new(),
            younger_game_key: did(2),
            older_game_key: did(1),
            owner_wallet: did(60),
        }
    );
    assert_eq!(
        event,
        GameEvent {
            label: "CREATE".to_string(),
            game_id: did(2),
            more_recent_game_id: None,
            less_recent_game_id: Some(did(1)),
        }
    );
    assert_eq!(arcade.most_recent_game_key, did(2));
    assert_eq!(arcade.authority, did(50));
    assert_eq!(first.younger_game_key, did(2));
    assert_eq!(first, Game { younger_game_key: did(2), ..genesis() });
}

#[test]
fn games_are_chained_newest_first() {
    let mut arcade = initialize_arcade(did(50), did(1));
    let mut first = genesis();
    let mut second = add_game(&mut arcade, &mut first, 2, 60);
    let mut third = add_game(&mut arcade, &mut second, 3, 61);
    let fourth = add_game(&mut arcade, &mut third, 4, 62);
    assert_eq!(arcade.most_recent_game_key, did(4));
    assert_eq!((fourth.older_game_key, fourth.younger_game_key), (did(3), did(4)));
    assert_eq!((third.older_game_key, third.younger_game_key), (did(2), did(4)));
    assert_eq!((second.older_game_key, second.younger_game_key), (did(1), did(3)));
    assert_eq!(first.younger_game_key, did(2));
}

#[test]
fn a_deleted_game_leaves_its_neighbours_linked() {
    let mut arcade = initialize_arcade(did(50), did(1));
    let mut first = genesis();
    let mut second = add_game(&mut arcade, &mut first, 2, 60);
    let mut third = add_game(&mut arcade, &mut second, 3, 61);
    let mut fourth = add_game(&mut arcade, &mut third, 4, 62);
    let event = delete_game(&third, &mut fourth, &mut second, did(61));
    assert_eq!(
        event,
        Ok(GameEvent {
            label: "DELETE".to_string(),
            game_id: did(3),
            more_recent_game_id: Some(did(4)),
            less_recent_game_id: Some(did(2)),
        })
    );
    assert_eq!(fourth.older_game_key, did(2));
    assert_eq!(second.younger_game_key, did(4));
    assert_eq!(fourth.younger_game_key, did(4));
    assert_eq!(second.older_game_key, did(1));
    assert_eq!(arcade.most_recent_game_key, did(4));
}

#[test]
fn a_game_is_not_deleted_between_wrong_neighbours() {
    let mut arcade = initialize_arcade(did(50), did(1));
    let mut first = genesis();
    let mut second = add_game(&mut arcade, &mut first, 2, 60);
    let mut third = add_game(&mut arcade, &mut second, 3, 61);
    let mut fourth = add_game(&mut arcade, &mut third, 4, 62);
    let (first_before, second_before, fourth_before) =
        (first.clone(), second.clone(), fourth.clone());
    assert_eq!(
        delete_game(&third, &mut fourth, &mut first, did(61)),
        Err(Errors::GameAccountNotProvidedToDelete)
    );
    assert_eq!(
        delete_game(&third, &mut second, &mut first, did(61)),
        Err(Errors::GameAccountNotProvidedToDelete)
    );
    assert_eq!(
        delete_game(&third, &mut second, &mut fourth, did(61)),
        Err(Errors::GameAccountNotProvidedToDelete)
    );
    assert_eq!(first, first_before);
    assert_eq!(second, second_before);
    assert_eq!(fourth, fourth_before);
}

#[test]
fn only_the_owner_deletes_a_game() {
    let mut arcade = initialize_arcade(did(50), did(1));
    let mut first = genesis();
    let mut second = add_game(&mut arcade, &mut first, 2, 60);
    let mut third = add_game(&mut arcade, &mut second, 3, 61);
    let (first_before, third_before) = (first.clone(), third.clone());
    assert_eq!(
        delete_game(&second, &mut third, &mut first, did(61)),
        Err(Errors::CannotDeleteUnownedGame)
    );
    assert_eq!(first, first_before);
    assert_eq!(third, third_before);
    assert_eq!(
        delete_most_recent_game(&third, &mut arcade, &mut second, did(60)),
        Err(Errors::CannotDeleteUnownedGame)
    );
    assert_eq!(arcade.most_recent_game_key, did(3));
    assert_eq!(second.younger_game_key, did(3));
}

#[test]
fn wrong_neighbours_are_named_before_a_wrong_owner() {
    let mut arcade = initialize_arcade(did(50), did(1));
    let mut first = genesis();
    let mut second = add_game(&mut arcade, &mut first, 2, 60);
    let mut third = add_game(&mut arcade, &mut second, 3, 61);
    let fourth = add_game(&mut arcade, &mut third, 4, 62);
    assert_eq!(
        delete_game(&fourth, &mut second, &mut first, did(99)),
        Err(Errors::GameAccountNotProvidedToDelete)
    );
    assert_eq!(
        delete_most_recent_game(&fourth, &mut arcade, &mut second, did(99)),
        Err(Errors::GameAccountNotProvidedToDelete)
    );
}

#[test]
fn the_newest_game_is_taken_off_the_head() {
    let mut arcade = initialize_arcade(did(50), did(1));
    let mut first = genesis();
    let mut second = add_game(&mut arcade, &mut first, 2, 60);
    let third = add_game(&mut arcade, &mut second, 3, 61);
    let event = delete_most_recent_game(&third, &mut arcade, &mut second, did(61));
    assert_eq!(
        event,
        Ok(GameEvent {
            label: "DELETE".to_string(),
            game_id: did(3),
            more_recent_game_id: None,
            less_recent_game_id: Some(did(2)),
        })
    );
    assert_eq!(arcade.most_recent_game_key, did(2));
    assert_eq!(second.younger_game_key, did(2));
    assert_eq!(second.older_game_key, did(1));
    assert_eq!(arcade.authority, did(50));
}

#[test]
fn the_newest_game_is_not_taken_off_without_the_game_before_it() {
    let mut arcade = initialize_arcade(did(50), did(1));
    let mut first = genesis();
    let mut second = add_game(&mut arcade, &mut first, 2, 60);
    let third = add_game(&mut arcade, &mut second, 3, 61);
    let first_before = first.clone();
    assert_eq!(
        delete_most_recent_game(&third, &mut arcade, &mut first, did(61)),
        Err(Errors::GameAccountNotProvidedToDelete)
    );
    assert_eq!(arcade.most_recent_game_key, did(3));
    assert_eq!(first, first_before);
}

#[test]
fn a_score_is_held_against_the_leaderboard_of_the_game() {
    let mut arcade = initialize_arcade(did(50), did(1));
    let mut first = genesis();
    let mut game = add_game(&mut arcade, &mut first, 2, 60);
    let before = game.clone();
    let event = update_leaderboard(&mut game, "Z".to_string(), 60, did(70));
    assert_eq!(
        event,
        Ok(LeaderboardEvent {
            game_id: did(2),
            player_name: "Z  ".to_string(),
            first_place_name: "AAA".to_string(),
            second_place_name: "Z  ".to_string(),
            third_place_name: "BBB".to_string(),
        })
    );
    assert_eq!(
        game.leaderboard,
        Leaderboard {
            first_place: Place { name: "AAA".to_string(), wallet_key: did(60), score: 100 },
            second_place: Place { name: "Z  ".to_string(), wallet_key: did(70), score: 60 },
            third_place: Place { name: "BBB".to_string(), wallet_key: did(60), score: 50 },
        }
    );
    assert_eq!(game, Game { leaderboard: game.leaderboard.clone(), ..before });
}

#[test]
fn a_low_score_is_reported_and_changes_nothing() {
    let mut arcade = initialize_arcade(did(50), did(1));
    let mut first = genesis();
    let mut game = add_game(&mut arcade, &mut first, 2, 60);
    let before = game.clone();
    let event = update_leaderboard(&mut game, "ab".to_string(), 25, did(70));
    assert_eq!(
        event,
        Ok(LeaderboardEvent {
            game_id: did(2),
            player_name: "ab ".to_string(),
            first_place_name: "AAA".to_string(),
            second_place_name: "BBB".to_string(),
            third_place_name: "CCC".to_string(),
        })
    );
    assert_eq!(game, before);
}

#[test]
fn a_score_under_a_long_name_is_refused() {
    let mut arcade = initialize_arcade(did(50), did(1));
    let mut first = genesis();
    let mut game = add_game(&mut arcade, &mut first, 2, 60);
    let before = game.clone();
    assert_eq!(
        update_leaderboard(&mut game, "AAAA".to_string(), 200, did(70)),
        Err(Errors::IllegalName)
    );
    assert_eq!(
        update_leaderboard(&mut game, String::new(), 200, did(70)),
        Err(Errors::IllegalName)
    );
    assert_eq!(game, before);
}
