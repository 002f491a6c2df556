use hangman::game::GameData;
use hangman::game::GamePhase;
use hangman::game::StatusKind;
use hangman::game::UserInputStatus;
use hangman::game::validate_user_guess;

#[test]
fn new_game_starts_clean() {
    let gd = GameData::new("cat", 5);
    assert_eq!(gd.secret_line, "cat");
    assert_eq!(gd.discovered_letters, "");
    assert_eq!(gd.lives, 5);
    assert_eq!(gd.status, "");
    assert_eq!(gd.status_kind, StatusKind::Info);
}

#[test]
fn mask_hides_undiscovered_letters() {
    let gd = GameData::new("cat", 5);
    assert_eq!(gd.format_masked_string(), "_ _ _ ");
}

#[test]
fn mask_keeps_spaces_and_shows_discovered() {
    let mut gd = GameData::new("a b", 5);
    assert_eq!(gd.format_masked_string(), "_   _ ");
    gd.process_guess(Some('a'));
    assert_eq!(gd.format_masked_string(), "a   _ ");
}

#[test]
fn mask_of_empty_secret_is_empty() {
    let gd = GameData::new("", 5);
    assert_eq!(gd.format_masked_string(), "");
}

#[test]
fn classification_is_exhaustive() {
    let mut gd = GameData::new("cat", 5);
    assert_eq!(gd.check_user_guess('c'), UserInputStatus::LetterGuessed);
    assert_eq!(gd.check_user_guess('z'), UserInputStatus::LetterMissed);
    gd.process_guess(Some('c'));
    assert_eq!(gd.check_user_guess('c'), UserInputStatus::AlreadyDiscovered);
}

#[test]
fn classification_is_repeatable() {
    let gd = GameData::new("cat", 5);
    let first = gd.check_user_guess('c');
    let second = gd.check_user_guess('c');
    assert_eq!(first, second);
    let third = gd.check_user_guess('q');
    let fourth = gd.check_user_guess('q');
    assert_eq!(third, fourth);
}

#[test]
fn missed_letters_are_remembered() {
    let mut gd = GameData::new("cat", 5);
    gd.process_guess(Some('z'));
    assert_eq!(gd.check_user_guess('z'), UserInputStatus::AlreadyDiscovered);
    assert_eq!(gd.discovered_letters, "z");
}

#[test]
fn hit_records_letter_and_keeps_lives() {
    let mut gd = GameData::new("cat", 5);
    let phase = gd.process_guess(Some('c'));
    assert_eq!(phase, GamePhase::Playing);
    assert_eq!(gd.discovered_letters, "c");
    assert_eq!(gd.lives, 5);
    assert_eq!(gd.status, "You discovered c");
    assert_eq!(gd.status_kind, StatusKind::Success);
}

#[test]
fn miss_costs_a_life_and_says_so() {
    let mut gd = GameData::new("cat", 5);
    let phase = gd.process_guess(Some('z'));
    assert_eq!(phase, GamePhase::Playing);
    assert_eq!(gd.discovered_letters, "z");
    assert_eq!(gd.lives, 4);
    assert_eq!(gd.status, "Unfortunately, no z");
    assert_eq!(gd.status_kind, StatusKind::Error);
}

#[test]
fn repeat_guess_changes_nothing_but_status() {
    let mut gd = GameData::new("cat", 5);
    gd.process_guess(Some('c'));
    let phase = gd.process_guess(Some('c'));
    assert_eq!(phase, GamePhase::Playing);
    assert_eq!(gd.discovered_letters, "c");
    assert_eq!(gd.lives, 5);
    assert_eq!(gd.status, "c is already discovered!");
    assert_eq!(gd.status_kind, StatusKind::Warning);
}

#[test]
fn win_is_announced_one_turn_after_the_last_hit() {
    let mut gd = GameData::new("cat", 5);
    let phase = gd.process_guess(Some('c'));
    assert_eq!(phase, GamePhase::Playing);
    assert_eq!(gd.format_masked_string(), "c _ _ ");
    assert_eq!(gd.lives, 5);
    let phase = gd.process_guess(Some('a'));
    assert_eq!(phase, GamePhase::Playing);
    assert_eq!(gd.format_masked_string(), "c a _ ");
    let phase = gd.process_guess(Some('t'));
    assert_eq!(phase, GamePhase::Playing);
    assert_eq!(gd.format_masked_string(), "c a t ");
    let phase = gd.process_guess(Some('x'));
    assert_eq!(phase, GamePhase::Won);
    assert_eq!(gd.status, "You won!");
    assert_eq!(gd.status_kind, StatusKind::Success);
    assert_eq!(gd.lives, 5);
}

#[test]
fn last_miss_stays_quiet_and_loss_follows() {
    let mut gd = GameData::new("cat", 1);
    let phase = gd.process_guess(Some('z'));
    assert_eq!(phase, GamePhase::Playing);
    assert_eq!(gd.lives, 0);
    assert_eq!(gd.status, "");
    let phase = gd.process_guess(Some('x'));
    assert_eq!(phase, GamePhase::Lost);
    assert_eq!(gd.status, "You lost!");
    assert_eq!(gd.status_kind, StatusKind::Error);
    assert_eq!(gd.lives, 0);
}

#[test]
fn lives_never_increase_over_a_game() {
    let mut gd = GameData::new("cat", 3);
    let guesses = ['z', 'c', 'z', 'q', 'a', 'w'];
    let mut last = gd.lives;
    for g in guesses {
        gd.process_guess(Some(g));
        assert!(gd.lives <= last);
        assert!(gd.lives >= 0);
        last = gd.lives;
    }
}

#[test]
fn digit_guess_is_rejected_without_cost() {
    let mut gd = GameData::new("cat", 5);
    let phase = gd.process_guess(Some('5'));
    assert_eq!(phase, GamePhase::Playing);
    assert_eq!(gd.lives, 5);
    assert_eq!(gd.discovered_letters, "");
    assert_eq!(gd.status, "It is not a letter!");
    assert_eq!(gd.status_kind, StatusKind::Warning);
}

#[test]
fn empty_input_is_rejected_without_cost() {
    let mut gd = GameData::new("cat", 5);
    let phase = gd.process_guess(None);
    assert_eq!(phase, GamePhase::Playing);
    assert_eq!(gd.lives, 5);
    assert_eq!(gd.discovered_letters, "");
    assert_eq!(gd.status, "It is not a letter!");
    assert_eq!(gd.status_kind, StatusKind::Warning);
}

#[test]
fn uppercase_guess_folds_to_lowercase() {
    let mut gd = GameData::new("cat", 5);
    let phase = gd.process_guess(Some('C'));
    assert_eq!(phase, GamePhase::Playing);
    assert_eq!(gd.discovered_letters, "c");
    assert_eq!(gd.lives, 5);
    assert_eq!(gd.status, "You discovered c");
    assert_eq!(gd.format_masked_string(), "c _ _ ");
}

#[test]
fn uppercase_and_lowercase_guesses_act_alike() {
    let mut upper = GameData::new("cat", 5);
    let mut lower = GameData::new("cat", 5);
    upper.process_guess(Some('C'));
    lower.process_guess(Some('c'));
    assert_eq!(upper.discovered_letters, lower.discovered_letters);
    assert_eq!(upper.lives, lower.lives);
    assert_eq!(upper.status, lower.status);
    assert_eq!(upper.status_kind, lower.status_kind);
}

#[test]
fn validate_accepts_letters_only() {
    assert!(validate_user_guess(Some('a')));
    assert!(validate_user_guess(Some('Q')));
    assert!(!validate_user_guess(Some('5')));
    assert!(!validate_user_guess(Some(' ')));
    assert!(!validate_user_guess(Some('_')));
    assert!(!validate_user_guess(None));
}

#[test]
fn revealed_tracks_the_mask() {
    let mut gd = GameData::new("ab", 5);
    assert!(!gd.is_revealed());
    gd.process_guess(Some('a'));
    assert!(!gd.is_revealed());
    gd.process_guess(Some('b'));
    assert!(gd.is_revealed());
}

#[test]
fn all_space_secret_counts_as_revealed() {
    let gd = GameData::new("  ", 5);
    assert!(gd.is_revealed());
}
