use arcade::errors::Errors;
use arcade::identity::Identity;
use arcade::leaderboard::{normalize_name, Leaderboard, Place};

fn board_id(n: u128) -> Identity {
    Identity::new(n, n)
}

fn place(name: &str, who: u128, score: u128) -> Place {
    Place { name: name.to_string(), wallet_key: board_id(who), score }
}

fn board(first: Place, second: Place, third: Place) -> Leaderboard {
    Leaderboard { first_place: first, second_place: second, third_place: third }
}

fn is_sorted(b: &Leaderboard) -> bool {
    b.first_place.score >= b.second_place.score && b.second_place.score >= b.third_place.score
}

#[test]
fn a_new_leaderboard_holds_three_low_scores() {
    let b = Leaderboard::seeded(board_id(9));
    assert_eq!(b, board(place("AAA", 9, 100), place("BBB", 9, 50), place("CCC", 9, 25)));
    assert!(is_sorted(&b));
}

#[test]
fn a_score_between_first_and_second_becomes_second() {
    let mut b = Leaderboard::seeded(board_id(9));
    assert_eq!(b.record("Z".to_string(), board_id(1), 60), Ok(()));
    assert_eq!(b, board(place("AAA", 9, 100), place("Z  ", 1, 60), place("BBB", 9, 50)));
}

#[test]
fn a_one_letter_name_gets_two_spaces() {
    let mut b = Leaderboard::seeded(board_id(9));
    assert_eq!(b.record("A".to_string(), board_id(1), 200), Ok(()));
    assert_eq!(b.first_place, place("A  ", 1, 200));
    assert_eq!(b, board(place("A  ", 1, 200), place("AAA", 9, 100), place("BBB", 9, 50)));
}

#[test]
fn a_four_letter_name_is_refused() {
    let mut b = Leaderboard::seeded(board_id(9));
    assert_eq!(b.record("AAAA".to_string(), board_id(1), 200), Err(Errors::IllegalName));
    assert_eq!(b, Leaderboard::seeded(board_id(9)));
}

#[test]
fn an_empty_name_is_refused() {
    let mut b = Leaderboard::seeded(board_id(9));
    assert_eq!(b.record(String::new(), board_id(1), 200), Err(Errors::IllegalName));
    assert_eq!(b, Leaderboard::seeded(board_id(9)));
    assert_eq!(normalize_name(String::new()), Err(Errors::IllegalName));
}

#[test]
fn names_are_filled_up_to_three_characters() {
    assert_eq!(normalize_name("Q".to_string()), Ok("Q  ".to_string()));
    assert_eq!(normalize_name("QR".to_string()), Ok("QR ".to_string()));
    assert_eq!(normalize_name("QRS".to_string()), Ok("QRS".to_string()));
    assert_eq!(normalize_name("QRST".to_string()), Err(Errors::IllegalName));
    assert_eq!(normalize_name("QRSTUVWXYZ".to_string()), Err(Errors::IllegalName));
}

#[test]
fn names_are_measured_in_characters_not_bytes() {
    assert_eq!(normalize_name("\u{e9}".to_string()), Ok("\u{e9}  ".to_string()));
    assert_eq!(
        normalize_name("\u{e9}\u{e8}\u{ea}".to_string()),
        Ok("\u{e9}\u{e8}\u{ea}".to_string())
    );
    assert_eq!(
        normalize_name("\u{e9}\u{e8}\u{ea}\u{eb}".to_string()),
        Err(Errors::IllegalName)
    );
}

#[test]
fn a_score_that_does_not_beat_the_third_changes_nothing() {
    let mut b = Leaderboard::seeded(board_id(9));
    assert_eq!(b.record("LOW".to_string(), board_id(1), 24), Ok(()));
    assert_eq!(b, Leaderboard::seeded(board_id(9)));
    assert_eq!(b.record("TIE".to_string(), board_id(1), 25), Ok(()));
    assert_eq!(b, Leaderboard::seeded(board_id(9)));
    assert_eq!(b.record("NIL".to_string(), board_id(1), 0), Ok(()));
    assert_eq!(b, Leaderboard::seeded(board_id(9)));
}

#[test]
fn a_score_above_the_third_only_becomes_third() {
    let mut b = Leaderboard::seeded(board_id(9));
    assert_eq!(b.record("NEW".to_string(), board_id(1), 26), Ok(()));
    assert_eq!(b, board(place("AAA", 9, 100), place("BBB", 9, 50), place("NEW", 1, 26)));
}

#[test]
fn a_score_equal_to_the_second_becomes_third() {
    let mut b = Leaderboard::seeded(board_id(9));
    assert_eq!(b.record("EQ".to_string(), board_id(1), 50), Ok(()));
    assert_eq!(b, board(place("AAA", 9, 100), place("BBB", 9, 50), place("EQ ", 1, 50)));
}

#[test]
fn a_score_equal_to_the_first_becomes_second() {
    let mut b = Leaderboard::seeded(board_id(9));
    assert_eq!(b.record("EQ".to_string(), board_id(1), 100), Ok(()));
    assert_eq!(b, board(place("AAA", 9, 100), place("EQ ", 1, 100), place("BBB", 9, 50)));
}

#[test]
fn the_best_score_moves_the_others_down() {
    let mut b = Leaderboard::seeded(board_id(9));
    assert_eq!(b.record("TOP".to_string(), board_id(1), u128::MAX), Ok(()));
    assert_eq!(b, board(place("TOP", 1, u128::MAX), place("AAA", 9, 100), place("BBB", 9, 50)));
}

#[test]
fn insert_takes_a_place_as_it_is() {
    let mut b = Leaderboard::seeded(board_id(9));
    b.insert(place("MID", 3, 75));
    assert_eq!(b, board(place("AAA", 9, 100), place("MID", 3, 75), place("BBB", 9, 50)));
    b.insert(place("LOW", 4, 1));
    assert_eq!(b, board(place("AAA", 9, 100), place("MID", 3, 75), place("BBB", 9, 50)));
}

#[test]
fn the_leaderboard_stays_sorted_under_any_scores() {
    let mut b = Leaderboard::seeded(board_id(9));
    let scores: [u128; 12] = [60, 10, 300, 300, 25, 26, 99, 100, 101, 0, 1000, 50];
    for (i, s) in scores.iter().enumerate() {
        assert_eq!(b.record("P".to_string(), board_id(i as u128), *s), Ok(()));
        assert!(is_sorted(&b));
    }
    assert_eq!(b.first_place.score, 1000);
    assert_eq!(b.second_place.score, 300);
    assert_eq!(b.third_place.score, 300);
    assert_eq!(b.second_place.wallet_key, board_id(2));
    assert_eq!(b.third_place.wallet_key, board_id(3));
}
