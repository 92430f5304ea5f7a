use tora_backend::hangman::{
    apply_guess, ascii_upper, check_guess_message, dedup_adjacent, find_player_index, is_stale,
    mask_word, new_game, remove_player, GuessCheck, HangmanData, MinigameRequestUser,
};

fn word(s: &str) -> Vec<char> {
    s.chars().collect()
}

fn rendered(mask: &[char]) -> String {
    mask.iter().collect()
}

fn player(id: u64) -> MinigameRequestUser {
    MinigameRequestUser {
        user_id: id,
        nickname: format!("player-{}", id),
        avatar_url: String::new(),
    }
}

#[test]
fn a_fresh_game_has_ten_attempts_and_a_hidden_word() {
    let g = new_game(word("TORA"), 1_000);
    assert_eq!(g.attempts, 10);
    assert!(g.previous_guesses.is_empty());
    assert_eq!(g.last_reply_time, 1_000);
    let mask = mask_word(&g.word, &g.previous_guesses);
    assert_eq!(rendered(&mask), "____");
}

#[test]
fn uppercasing_touches_only_ascii_letters() {
    assert_eq!(ascii_upper('a'), 'A');
    assert_eq!(ascii_upper('z'), 'Z');
    assert_eq!(ascii_upper('A'), 'A');
    assert_eq!(ascii_upper('1'), '1');
    assert_eq!(ascii_upper('é'), 'é');
}

#[test]
fn a_correct_guess_reveals_letters_and_keeps_attempts() {
    let mut g = new_game(word("TORA"), 0);
    let r = apply_guess(&mut g, 'o', 5);
    assert_eq!(g.attempts, 10);
    assert_eq!(g.last_reply_time, 5);
    assert_eq!(g.previous_guesses, vec!['O']);
    assert_eq!(rendered(&r.masked), "_O__");
    assert!(!r.cleared);
    assert!(!r.over);
}

#[test]
fn a_wrong_guess_costs_an_attempt() {
    let mut g = new_game(word("TORA"), 0);
    let r = apply_guess(&mut g, 'z', 5);
    assert_eq!(g.attempts, 9);
    assert_eq!(rendered(&r.masked), "____");
    assert!(!r.cleared);
    assert!(!r.over);
}

#[test]
fn guessing_every_letter_clears_the_game() {
    let mut g = new_game(word("TORA"), 0);
    for (i, c) in ['t', 'o', 'r'].iter().enumerate() {
        let r = apply_guess(&mut g, *c, i as i64);
        assert!(!r.cleared);
    }
    let r = apply_guess(&mut g, 'a', 9);
    assert!(r.cleared);
    assert!(!r.over);
    assert_eq!(rendered(&r.masked), "TORA");
    assert_eq!(g.attempts, 10);
}

#[test]
fn running_out_of_attempts_ends_the_game() {
    let mut g = new_game(word("A"), 0);
    g.attempts = 1;
    let r = apply_guess(&mut g, 'z', 1);
    assert_eq!(g.attempts, 0);
    assert!(r.over);
    assert!(!r.cleared);
}

#[test]
fn repeated_guesses_collapse_in_the_list() {
    let mut g = new_game(word("TORA"), 0);
    apply_guess(&mut g, 'o', 1);
    apply_guess(&mut g, 'o', 2);
    assert_eq!(g.previous_guesses, vec!['O']);
    apply_guess(&mut g, 't', 3);
    apply_guess(&mut g, 'o', 4);
    assert_eq!(g.previous_guesses, vec!['O', 'T', 'O']);
}

#[test]
fn a_word_with_a_symbol_can_never_be_cleared() {
    let mut g = new_game(word("A-B"), 0);
    apply_guess(&mut g, 'a', 1);
    let r = apply_guess(&mut g, 'b', 2);
    // Both letters are revealed, but the symbol stays hidden for good.
    assert_eq!(rendered(&r.masked), "A_B");
    assert!(!r.cleared);
}

#[test]
fn dedup_collapses_only_adjacent_repeats() {
    assert_eq!(dedup_adjacent(&vec!['a', 'a', 'a']), vec!['a']);
    assert_eq!(dedup_adjacent(&vec!['a', 'b', 'a']), vec!['a', 'b', 'a']);
    assert_eq!(dedup_adjacent(&vec!['a', 'a', 'b', 'b']), vec!['a', 'b']);
    assert_eq!(dedup_adjacent(&Vec::new()), Vec::<char>::new());
}

#[test]
fn staleness_begins_after_a_minute() {
    assert!(!is_stale(1_000, 1_060));
    assert!(is_stale(1_000, 1_061));
    assert!(!is_stale(1_000, 900));
}

#[test]
fn guess_messages_are_judged_before_they_count() {
    assert!(matches!(check_guess_message(""), GuessCheck::Empty));
    assert!(matches!(check_guess_message("1"), GuessCheck::NotLetter));
    assert!(matches!(check_guess_message(" a "), GuessCheck::NotLetter));
    assert!(matches!(check_guess_message("ab"), GuessCheck::NotSingleLetter));
    match check_guess_message("a ") {
        GuessCheck::Valid { guess } => assert_eq!(guess, 'a'),
        _ => panic!("a single trailing-space letter is a valid guess"),
    }
    match check_guess_message("Q") {
        GuessCheck::Valid { guess } => assert_eq!(guess, 'Q'),
        _ => panic!("a single letter is a valid guess"),
    }
}

#[test]
fn players_are_found_and_removed_by_id() {
    let games: Vec<(MinigameRequestUser, HangmanData)> = vec![
        (player(1), new_game(word("ONE"), 0)),
        (player(2), new_game(word("TWO"), 0)),
        (player(1), new_game(word("ENO"), 0)),
    ];
    assert_eq!(find_player_index(&games, 2), Some(1));
    assert_eq!(find_player_index(&games, 1), Some(0));
    assert_eq!(find_player_index(&games, 9), None);
    let rest = remove_player(games, 1);
    assert_eq!(rest.len(), 1);
    assert_eq!(rest[0].0.user_id, 2);
}
