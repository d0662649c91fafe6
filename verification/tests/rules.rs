use guessing_game::{
    is_valid_number, new_game, GameError, GameState, Identity, NewGame, MAX_NUMBER, MIN_NUMBER,
};

fn key(first: u8, last: u8) -> [u8; 32] {
    let mut bytes = [7u8; 32];
    bytes[0] = first;
    bytes[31] = last;
    bytes
}

fn record(creator: Identity, is_active: bool, winner: Option<Identity>) -> GameState {
    GameState { secret_number: 42, attempts: 3, creator, is_active, winner, bump: 1 }
}

#[test]
fn valid_numbers_are_1_to_100() {
    assert_eq!(MIN_NUMBER, 1);
    assert_eq!(MAX_NUMBER, 100);
    assert!(!is_valid_number(0));
    assert!(is_valid_number(1));
    assert!(is_valid_number(42));
    assert!(is_valid_number(100));
    assert!(!is_valid_number(101));
    assert!(!is_valid_number(255));
}

#[test]
fn identities_are_equal_when_all_bytes_are() {
    let a = Identity::new(key(1, 2));
    let b = Identity::new(key(1, 2));
    assert!(a == b);
    assert!(!(a != b));
    assert_eq!(a.to_bytes(), key(1, 2));
    assert_eq!(a.bytes, key(1, 2));
}

#[test]
fn identities_differ_when_one_byte_does() {
    let a = Identity::new(key(1, 2));
    assert!(a != Identity::new(key(0, 2)));
    assert!(a != Identity::new(key(1, 3)));
    let mut middle = key(1, 2);
    middle[16] = 8;
    assert!(a != Identity::new(middle));
    assert!(!(a == Identity::new(middle)));
}

#[test]
fn identity_keeps_its_bytes() {
    let mut bytes = [0u8; 32];
    let mut i: usize = 0;
    while i < 32 {
        bytes[i] = (i * 8) as u8;
        i += 1;
    }
    assert_eq!(Identity::new(bytes).to_bytes(), bytes);
}

#[test]
fn guess_error_checks_the_game_then_the_guesser_then_the_number() {
    let creator = Identity::new(key(1, 1));
    let guesser = Identity::new(key(2, 2));
    let active = record(creator, true, None);
    let won = record(creator, false, Some(guesser));

    assert_eq!(active.guess_error(&guesser, 42), None);
    assert_eq!(active.guess_error(&guesser, 1), None);
    assert_eq!(active.guess_error(&guesser, 100), None);
    assert_eq!(active.guess_error(&guesser, 0), Some(GameError::InvalidNumber));
    assert_eq!(active.guess_error(&guesser, 101), Some(GameError::InvalidNumber));
    assert_eq!(active.guess_error(&creator, 42), Some(GameError::CannotGuessOwnGame));
    assert_eq!(active.guess_error(&creator, 0), Some(GameError::CannotGuessOwnGame));
    assert_eq!(active.guess_error(&creator, 101), Some(GameError::CannotGuessOwnGame));
    assert_eq!(active.guess_error(&creator, 255), Some(GameError::CannotGuessOwnGame));
    assert_eq!(won.guess_error(&guesser, 42), Some(GameError::GameNotActive));
    assert_eq!(won.guess_error(&guesser, 0), Some(GameError::GameNotActive));
    assert_eq!(won.guess_error(&creator, 42), Some(GameError::GameNotActive));
    assert_eq!(won.guess_error(&creator, 0), Some(GameError::GameNotActive));
}

#[test]
fn close_error_checks_the_caller_then_the_game() {
    let creator = Identity::new(key(1, 1));
    let guesser = Identity::new(key(2, 2));
    let active = record(creator, true, None);
    let won = record(creator, false, Some(guesser));

    assert_eq!(active.close_error(&creator), Some(GameError::GameStillActive));
    assert_eq!(active.close_error(&guesser), Some(GameError::UnAuthorized));
    assert_eq!(won.close_error(&guesser), Some(GameError::UnAuthorized));
    assert_eq!(won.close_error(&creator), None);
}

#[test]
fn checks_leave_the_record_alone() {
    let creator = Identity::new(key(1, 1));
    let active = record(creator, true, None);
    let before = active;
    let _ = active.guess_error(&creator, 0);
    let _ = active.close_error(&creator);
    assert_eq!(active, before);
}

#[test]
fn each_error_has_its_sentence() {
    assert_eq!(GameError::InvalidNumber.message(), "Secret number must be between 1 and 100");
    assert_eq!(
        GameError::CannotGuessOwnGame.message(),
        "The creator of the game cannot make guesses"
    );
    assert_eq!(GameError::GameNotActive.message(), "The game is not active");
    assert_eq!(GameError::GameStillActive.message(), "The game is still active");
    assert_eq!(GameError::UnAuthorized.message(), "Only the creator can close this game");
}

#[test]
fn rejected_setup_leaves_no_record() {
    let ctx = NewGame { creator: Identity::new(key(1, 1)), bump: 9 };
    let result = new_game(&ctx, 0);
    assert!(result.is_err());
    assert_eq!(result.ok(), None);
    assert_eq!(ctx, NewGame { creator: Identity::new(key(1, 1)), bump: 9 });
}
