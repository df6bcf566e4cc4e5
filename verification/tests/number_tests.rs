use brain_games::input::KeyInput;
use brain_games::number_memory::{NumberMemory, NumberState, LEVEL_START, REVEAL_DURATION_MS};

fn type_string(g: &mut NumberMemory, text: &str, now: u64) {
    for c in text.chars() {
        g.handle_input(KeyInput::Char(c), now);
    }
}

/// Scenario: a key press on the title screen shows a one-digit number
/// and starts the reveal timer; once the reveal duration elapses the
/// game waits for input; the right answer raises the level to two.
#[test]
fn number_first_round_success() {
    let mut g = NumberMemory::new();
    assert_eq!(g.state, NumberState::Title);
    assert_eq!(g.level, 1);

    g.handle_input(KeyInput::Other, 500);
    assert_eq!(g.state, NumberState::Showing);
    assert_eq!(g.show_start, Some(500));
    let number = g.number.clone().expect("a number must be drawn");
    assert_eq!(number.len(), 1);
    assert!(number.chars().all(|c| c.is_ascii_digit()));

    // The reveal timer has not elapsed yet: still showing.
    g.check_to_change_waiting(500 + REVEAL_DURATION_MS - 1);
    assert_eq!(g.state, NumberState::Showing);

    // Keys are ignored while the number is on screen.
    g.handle_input(KeyInput::Enter, 600);
    assert_eq!(g.state, NumberState::Showing);

    g.check_to_change_waiting(500 + REVEAL_DURATION_MS);
    assert_eq!(g.state, NumberState::Waiting);

    type_string(&mut g, &number, 3_000);
    g.handle_input(KeyInput::Enter, 3_100);
    assert_eq!(g.state, NumberState::Success);
    assert_eq!(g.level, 2);
}

/// The drawn number always has exactly `level` digits, '0' through '9'.
#[test]
fn number_length_tracks_level() {
    let mut g = NumberMemory::new();
    let mut now: u64 = 0;
    for expected_level in 1..=6u32 {
        now += 10_000;
        g.handle_input(KeyInput::Other, now);
        assert_eq!(g.state, NumberState::Showing);
        assert_eq!(g.level, expected_level);
        let number = g.number.clone().unwrap();
        assert_eq!(number.len() as u32, expected_level);
        assert!(number.chars().all(|c| c.is_ascii_digit()));

        now += REVEAL_DURATION_MS;
        g.check_to_change_waiting(now);
        assert_eq!(g.state, NumberState::Waiting);
        type_string(&mut g, &number, now);
        g.handle_input(KeyInput::Enter, now);
        assert_eq!(g.state, NumberState::Success);
        assert_eq!(g.level, expected_level + 1);
    }
}

/// A wrong answer ends the session without touching the level; the next
/// key resets everything to the title screen at level one.
#[test]
fn number_mismatch_ends_session() {
    let mut g = NumberMemory::new();
    g.handle_input(KeyInput::Other, 0);
    let number = g.number.clone().unwrap();
    g.check_to_change_waiting(REVEAL_DURATION_MS);

    // Type one digit that differs from the first digit of the number.
    let first = number.chars().next().unwrap();
    let wrong = if first == '0' { '1' } else { '0' };
    g.handle_input(KeyInput::Char(wrong), 2_000);
    g.handle_input(KeyInput::Enter, 2_000);
    assert_eq!(g.state, NumberState::End);
    assert_eq!(g.level, 1);
    assert_eq!(g.number, Some(number));

    g.handle_input(KeyInput::Other, 2_500);
    assert_eq!(g, NumberMemory::new());
}

/// Typing accepts digits only; backspace drops the last digit and does
/// nothing on an empty answer.
#[test]
fn number_answer_editing() {
    let mut g = NumberMemory::new();
    g.handle_input(KeyInput::Other, 0);
    g.check_to_change_waiting(REVEAL_DURATION_MS);
    assert_eq!(g.state, NumberState::Waiting);
    assert_eq!(g.answer.as_deref(), Some(""));

    g.handle_input(KeyInput::Backspace, 2_000);
    assert_eq!(g.answer.as_deref(), Some(""));

    g.handle_input(KeyInput::Char('1'), 2_000);
    g.handle_input(KeyInput::Char('x'), 2_000);
    g.handle_input(KeyInput::Char('2'), 2_000);
    assert_eq!(g.answer.as_deref(), Some("12"));

    g.handle_input(KeyInput::Backspace, 2_000);
    assert_eq!(g.answer.as_deref(), Some("1"));
}

/// Quitting out of a running session restores exactly the state a fresh
/// game starts in; at the title screen it asks to leave for the menu.
#[test]
fn number_quit_restores_initial_state() {
    let mut g = NumberMemory::new();
    g.handle_input(KeyInput::Other, 0);
    g.check_to_change_waiting(REVEAL_DURATION_MS);
    type_string(&mut g, "12", 2_000);

    g.handle_input(KeyInput::Esc, 2_100);
    assert_eq!(g, NumberMemory::new());
    assert_eq!(g.level, LEVEL_START);

    g.handle_input(KeyInput::Char('q'), 2_200);
    assert!(g.quit);
    assert_eq!(g.state, NumberState::Title);
    assert_eq!(g.number, None);

    g.end_session();
    assert_eq!(g, NumberMemory::new());
}

/// The countdown indicator: full at the start of the reveal, half at
/// half the duration, empty once it has elapsed.
#[test]
fn number_progress_percent() {
    let mut g = NumberMemory::new();
    g.handle_input(KeyInput::Other, 1_000);
    assert_eq!(g.showing_progress_percent(1_000), 100);
    assert_eq!(g.showing_progress_percent(1_850), 50);
    assert_eq!(g.showing_progress_percent(1_000 + REVEAL_DURATION_MS), 0);
    assert_eq!(g.showing_progress_percent(10_000), 0);
}
