use brain_games::input::KeyInput;
use brain_games::reaction::{average_of, ReactionGame, ReactionState};

/// Scenario: any key at `Ready` arms a 2000..4000 ms delay; pressing
/// during the delay is too soon; pressing again arms a fresh delay in
/// the same window.
#[test]
fn reaction_press_cycle() {
    let mut g = ReactionGame::new();
    assert_eq!(g.state, ReactionState::Ready);

    g.handle_input(KeyInput::Other, 1_000);
    assert_eq!(g.state, ReactionState::Waiting);
    let deadline = g.wait_until.expect("a deadline must be armed");
    assert!((3_000..5_000).contains(&deadline));

    // A press before the deadline is too soon, whatever key it is.
    g.handle_input(KeyInput::Char('x'), 1_050);
    assert_eq!(g.state, ReactionState::TooSoon);
    assert_eq!(g.wait_until, None);

    // Pressing again arms a new random delay in the same window.
    g.handle_input(KeyInput::Other, 2_000);
    assert_eq!(g.state, ReactionState::Waiting);
    let deadline2 = g.wait_until.expect("a deadline must be armed");
    assert!((4_000..6_000).contains(&deadline2));
}

/// The delay expires only through the clock: polling before the
/// deadline changes nothing, polling at it turns the cue on.
#[test]
fn reaction_cue_fires_on_time() {
    let mut g = ReactionGame::new();
    g.handle_input(KeyInput::Other, 0);
    let deadline = g.wait_until.unwrap();

    g.update(deadline - 1);
    assert_eq!(g.state, ReactionState::Waiting);

    g.update(deadline);
    assert_eq!(g.state, ReactionState::Active);
    assert_eq!(g.start_time, Some(deadline));
    assert_eq!(g.wait_until, None);
}

/// A full five-attempt session with controlled presses: every sample is
/// recorded exactly, and the stats screen shows the truncating average.
#[test]
fn reaction_full_session_average() {
    let samples: [u64; 5] = [100, 200, 300, 400, 401];
    let mut g = ReactionGame::new();
    let mut now: u64 = 0;

    g.handle_input(KeyInput::Other, now);
    for (i, sample) in samples.iter().enumerate() {
        // Let the armed delay expire, then press `sample` ms later.
        let deadline = g.wait_until.unwrap();
        g.update(deadline);
        now = deadline + sample;
        g.handle_input(KeyInput::Other, now);
        assert_eq!(g.state, ReactionState::Success(*sample));
        assert_eq!(g.done as usize, i + 1);
        assert_eq!(g.reaction_history.len(), i + 1);
        g.handle_input(KeyInput::Other, now);
    }

    // (100 + 200 + 300 + 400 + 401) / 5 = 1401 / 5 = 280, truncating.
    assert_eq!(g.state, ReactionState::Stats(280));
    assert_eq!(g.reaction_history, vec![100, 200, 300, 400, 401]);

    // Any key on the stats screen starts over.
    g.handle_input(KeyInput::Other, now);
    assert_eq!(g.state, ReactionState::Ready);
    assert_eq!(g.done, 0);
    assert!(g.reaction_history.is_empty());
}

/// The truncating average, exactly.
#[test]
fn reaction_average_exact() {
    assert_eq!(average_of(&vec![100, 200, 300, 400, 401], 5), 280);
    assert_eq!(average_of(&vec![1, 1, 1, 1, 2], 5), 1);
    assert_eq!(average_of(&vec![], 5), 0);
    assert_eq!(average_of(&vec![u64::MAX, u64::MAX, u64::MAX, u64::MAX, u64::MAX], 5), u64::MAX);
}

/// Whatever keys arrive, the attempt counter never exceeds its target
/// and the history always holds exactly one sample per attempt.
#[test]
fn reaction_attempts_never_exceed_target() {
    let keys = [
        KeyInput::Other,
        KeyInput::Enter,
        KeyInput::Char('z'),
        KeyInput::Up,
        KeyInput::Backspace,
        KeyInput::Left,
    ];
    let mut g = ReactionGame::new();
    let mut now: u64 = 0;
    for round in 0..200u64 {
        now += 500;
        g.update(now);
        g.handle_input(keys[(round % 6) as usize], now);
        assert!(g.done <= g.attempts);
        assert_eq!(g.reaction_history.len() as u32, g.done);
    }
}

/// Quitting out of a running session restores exactly the state a
/// fresh game starts in.
#[test]
fn reaction_quit_restores_initial_state() {
    let mut g = ReactionGame::new();
    g.handle_input(KeyInput::Other, 1_000);
    let deadline = g.wait_until.unwrap();
    g.update(deadline);
    g.handle_input(KeyInput::Other, deadline + 42);
    assert_eq!(g.state, ReactionState::Success(42));

    g.handle_input(KeyInput::Char('q'), deadline + 100);
    assert_eq!(g, ReactionGame::new());

    // The quit key at Ready asks to leave for the menu instead.
    g.handle_input(KeyInput::Esc, deadline + 200);
    assert!(g.quit);
    assert_eq!(g.state, ReactionState::Ready);

    // Ending the run hands back a fresh game.
    g.end_session();
    assert_eq!(g, ReactionGame::new());
}
