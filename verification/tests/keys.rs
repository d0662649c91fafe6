use anchor_lang::prelude::Pubkey;
use guessing_game::messages::{closed_line, created_line, guess_line};
use guessing_game::{GuessOutcome, Identity};

fn samples() -> Vec<[u8; 32]> {
    let mut keys = vec![[0u8; 32], [1u8; 32], [255u8; 32]];
    let mut position: usize = 0;
    while position < 32 {
        let mut one_off = [0u8; 32];
        one_off[position] = 1;
        keys.push(one_off);
        let mut high_bit = [255u8; 32];
        high_bit[position] = 127;
        keys.push(high_bit);
        position += 1;
    }
    keys
}

#[test]
fn identities_are_equal_exactly_when_the_public_keys_are() {
    let keys = samples();
    for a in keys.iter() {
        for b in keys.iter() {
            let same_key = Pubkey::new_from_array(*a) == Pubkey::new_from_array(*b);
            assert_eq!(Identity::new(*a) == Identity::new(*b), same_key);
            assert_eq!(Identity::new(*a) != Identity::new(*b), !same_key);
        }
    }
}

#[test]
fn identity_and_public_key_hold_the_same_bytes() {
    for bytes in samples() {
        let key = Pubkey::new_from_array(bytes);
        let identity = Identity::new(key.to_bytes());
        assert_eq!(identity.to_bytes(), bytes);
        assert_eq!(Pubkey::new_from_array(identity.to_bytes()), key);
    }
}

#[test]
fn lines_name_a_party_as_its_public_key_is_displayed() {
    for bytes in samples() {
        let key = Pubkey::new_from_array(bytes);
        let identity = Identity::new(bytes);
        assert_eq!(created_line(&identity), format!("New game created by {}", key));
        assert_eq!(
            guess_line(GuessOutcome::Correct, &identity, 42, 3),
            format!("{} guessed the correct number {} in {} attempts!", key, 42, 3)
        );
        assert_eq!(
            closed_line(&identity),
            format!("Game has been closed. {} retrieves the funds.", key)
        );
    }
}
