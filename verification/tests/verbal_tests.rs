use brain_games::input::KeyInput;
use brain_games::verbal_memory::{Choice, VerbalMemory, VerbalState, LIVES_START};

fn pool(words: &[&str]) -> Vec<String> {
    words.iter().map(|w| w.to_string()).collect()
}

/// Scenario: with an empty seen-set and "cat" on screen, the default
/// SEEN verdict is wrong: one life is lost, the session goes on, and
/// "cat" is not recorded — only the NEW branch inserts.
#[test]
fn verbal_wrong_seen_costs_life_without_recording() {
    let mut g = VerbalMemory::new();
    g.load_words(pool(&["cat", "dog"]));
    g.state = VerbalState::Showing;
    g.word_shown = Some("cat".to_string());
    assert_eq!(g.choice, Choice::Seen);
    assert_eq!(g.lives, 3);

    g.handle_input(KeyInput::Enter);
    assert_eq!(g.lives, 2);
    assert_eq!(g.state, VerbalState::Showing);
    assert!(g.words_seen.is_empty());
}

/// The NEW verdict on a genuinely new word scores a point and records
/// the word; recording the same word again changes nothing — the
/// seen-set insertion is idempotent.
#[test]
fn verbal_new_branch_records_idempotently() {
    let mut g = VerbalMemory::new();
    g.load_words(pool(&["cat", "dog"]));
    g.state = VerbalState::Showing;
    g.word_shown = Some("cat".to_string());

    g.handle_input(KeyInput::Char('d'));
    assert_eq!(g.choice, Choice::New);
    g.handle_input(KeyInput::Enter);
    assert_eq!(g.score, 1);
    assert_eq!(g.lives, 3);
    assert_eq!(g.words_seen, vec!["cat".to_string()]);

    // The same word again, still answered NEW: now wrong, one life
    // lost, and the seen-set membership is unchanged.
    g.word_shown = Some("cat".to_string());
    g.handle_input(KeyInput::Enter);
    assert_eq!(g.score, 1);
    assert_eq!(g.lives, 2);
    assert_eq!(g.words_seen, vec!["cat".to_string()]);
}

/// The SEEN verdict on a recorded word scores a point and does not
/// touch the seen-set.
#[test]
fn verbal_seen_correct_scores() {
    let mut g = VerbalMemory::new();
    g.load_words(pool(&["cat"]));
    g.state = VerbalState::Showing;
    g.words_seen = vec!["cat".to_string()];
    g.word_shown = Some("cat".to_string());

    g.handle_input(KeyInput::Char('a'));
    assert_eq!(g.choice, Choice::Seen);
    g.handle_input(KeyInput::Enter);
    assert_eq!(g.score, 1);
    assert_eq!(g.lives, 3);
    assert_eq!(g.words_seen, vec!["cat".to_string()]);
}

/// Lives count down on wrong answers and the end screen comes exactly
/// when the last one goes; the score never decreases on the way.
#[test]
fn verbal_session_ends_when_lives_run_out() {
    let mut g = VerbalMemory::new();
    g.load_words(pool(&["cat", "dog", "owl"]));
    g.state = VerbalState::Showing;

    let mut last_score = 0u32;
    for lives_left in (1..=LIVES_START).rev() {
        assert_eq!(g.lives, lives_left);
        assert_eq!(g.state, VerbalState::Showing);
        // A fresh word answered SEEN is always wrong.
        g.word_shown = Some(format!("fresh-{lives_left}"));
        g.handle_input(KeyInput::Char('a'));
        g.handle_input(KeyInput::Enter);
        assert!(g.score >= last_score);
        last_score = g.score;
    }
    assert_eq!(g.lives, 0);
    assert_eq!(g.state, VerbalState::End);

    // Enter on the end screen starts a fresh session.
    g.handle_input(KeyInput::Enter);
    assert_eq!(g.state, VerbalState::Title);
    assert_eq!(g.lives, LIVES_START);
    assert_eq!(g.score, 0);
    assert!(g.words_seen.is_empty());
}

/// Starting from the title screen draws a word from the pool.
#[test]
fn verbal_enter_draws_a_word() {
    let mut g = VerbalMemory::new();
    g.load_words(pool(&["cat", "dog", "owl"]));
    g.handle_input(KeyInput::Enter);
    assert_eq!(g.state, VerbalState::Showing);
    if let Some(w) = &g.word_shown {
        assert!(["cat", "dog", "owl"].contains(&w.as_str()));
    }
}

/// Quitting out of a running session restores exactly the state a
/// fresh game starts in, pool aside; the pool itself stays loaded.
#[test]
fn verbal_quit_restores_initial_state() {
    let mut g = VerbalMemory::new();
    g.load_words(pool(&["cat", "dog"]));
    g.state = VerbalState::Showing;
    g.word_shown = Some("cat".to_string());
    g.handle_input(KeyInput::Char('d'));
    g.handle_input(KeyInput::Enter);

    g.handle_input(KeyInput::Char('q'));
    let mut fresh = VerbalMemory::new();
    fresh.load_words(pool(&["cat", "dog"]));
    assert_eq!(g, fresh);

    // The quit key at the title screen asks to leave for the menu.
    g.handle_input(KeyInput::Esc);
    assert!(g.quit);
    assert_eq!(g.state, VerbalState::Title);

    g.quit_game();
    assert_eq!(g, fresh);
    assert_eq!(g.words, pool(&["cat", "dog"]));
}

/// Loading words is idempotent: once a pool is in place, another load
/// changes nothing.
#[test]
fn verbal_load_words_idempotent() {
    let mut g = VerbalMemory::new();
    g.load_words(pool(&["cat", "dog"]));
    assert_eq!(g.words, pool(&["cat", "dog"]));
    g.load_words(pool(&["completely", "different"]));
    assert_eq!(g.words, pool(&["cat", "dog"]));
}
