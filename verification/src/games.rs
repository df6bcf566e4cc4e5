//! The closed set of games the menu can launch.
//!
//! The launcher treats a game as a capability: a name, a description, an
//! input handler and a timer poll. The game set is fixed at build time,
//! so the capability is a tagged sum over the three machines; dispatch
//! is a match, and every arm keeps the inner machine's exact contract.

use vstd::prelude::*;

use crate::input::KeyInput;
use crate::number_memory::NumberMemory;
use crate::reaction::ReactionGame;
use crate::reaction::WAIT_DELAY_MAX_MS;
use crate::verbal_memory::VerbalMemory;

verus! {

/// One selectable game.
#[derive(Clone, Debug, PartialEq)]
pub enum GameKind {
    /// The reaction-time test.
    Reaction(ReactionGame),
    /// The verbal-memory test.
    Verbal(VerbalMemory),
    /// The number-memory test.
    Number(NumberMemory),
}

impl GameKind {
    /// The inner machine's invariant.
    pub open spec fn wf(self) -> bool {
        match self {
            GameKind::Reaction(g) => g.wf(),
            GameKind::Verbal(g) => g.wf(),
            GameKind::Number(g) => g.wf(),
        }
    }

    /// The inner machine's recorded instants lie at or before `now_ms`.
    pub open spec fn time_wf(self, now_ms: u64) -> bool {
        match self {
            GameKind::Reaction(g) => g.time_wf(now_ms),
            GameKind::Verbal(_) => true,
            GameKind::Number(g) => g.time_wf(now_ms),
        }
    }

    /// Whether the game asks to give the terminal back to the menu.
    pub open spec fn quit_requested(self) -> bool {
        match self {
            GameKind::Reaction(g) => g.quit,
            GameKind::Verbal(g) => g.quit,
            GameKind::Number(g) => g.quit,
        }
    }

    /// A game in its initial session with no exit requested.
    pub open spec fn is_fresh(self) -> bool {
        match self {
            GameKind::Reaction(g) => g.is_initial_session() && !g.quit,
            GameKind::Verbal(g) => g.is_initial_session() && !g.quit,
            GameKind::Number(g) => g.is_initial_session() && !g.quit,
        }
    }

    /// The game is on its opening screen, where the quit key means
    /// "leave for the menu" rather than "reset the session".
    pub open spec fn at_title(self) -> bool {
        match self {
            GameKind::Reaction(g) => g.state is Ready,
            GameKind::Verbal(g) => g.state is Title,
            GameKind::Number(g) => g.state is Title,
        }
    }

    /// The inner machine holds its initial session.
    pub open spec fn is_initial_session(self) -> bool {
        match self {
            GameKind::Reaction(g) => g.is_initial_session(),
            GameKind::Verbal(g) => g.is_initial_session(),
            GameKind::Number(g) => g.is_initial_session(),
        }
    }

    /// `post` is the same game as `pre`.
    pub open spec fn same_variant(pre: Self, post: Self) -> bool {
        match pre {
            GameKind::Reaction(_) => post is Reaction,
            GameKind::Verbal(_) => post is Verbal,
            GameKind::Number(_) => post is Number,
        }
    }

    /// One key press, dispatched to whichever machine this is.
    pub open spec fn step(pre: Self, key: KeyInput, now_ms: u64, post: Self) -> bool {
        match pre {
            GameKind::Reaction(a) => post matches GameKind::Reaction(b) && ReactionGame::step(
                a,
                key,
                now_ms,
                b,
            ),
            GameKind::Verbal(a) => post matches GameKind::Verbal(b) && VerbalMemory::step(
                a,
                key,
                b,
            ),
            GameKind::Number(a) => post matches GameKind::Number(b) && NumberMemory::step(
                a,
                key,
                now_ms,
                b,
            ),
        }
    }

    /// One clock poll, dispatched; the verbal game has no timer.
    pub open spec fn tick(pre: Self, now_ms: u64, post: Self) -> bool {
        match pre {
            GameKind::Reaction(a) => post matches GameKind::Reaction(b) && ReactionGame::tick(
                a,
                now_ms,
                b,
            ),
            GameKind::Verbal(_) => post == pre,
            GameKind::Number(a) => post matches GameKind::Number(b) && NumberMemory::tick(
                a,
                now_ms,
                b,
            ),
        }
    }

    /// The display name of the game.
    pub fn name(&self) -> (r: &'static str)
        ensures
            self is Reaction ==> r@ == "Reaction Time"@,
            self is Verbal ==> r@ == "Verbal Memory"@,
            self is Number ==> r@ == "Number Memory"@,
    {
        match self {
            GameKind::Reaction(_) => "Reaction Time",
            GameKind::Verbal(_) => "Verbal Memory",
            GameKind::Number(_) => "Number Memory",
        }
    }

    /// The one-line description shown under the name.
    pub fn description(&self) -> (r: &'static str)
        ensures
            self is Reaction ==> r@ == "Test your visual reflexes"@,
            self is Verbal ==> r@ == "Keep as many words in short term memory as possible"@,
            self is Number ==> r@ == "Remember the longest number you can"@,
    {
        match self {
            GameKind::Reaction(_) => "Test your visual reflexes",
            GameKind::Verbal(_) => "Keep as many words in short term memory as possible",
            GameKind::Number(_) => "Remember the longest number you can",
        }
    }

    /// Feed one key press to the selected game at clock time `now_ms`.
    pub fn handle_input(&mut self, key: KeyInput, now_ms: u64)
        requires
            old(self).wf(),
            old(self).time_wf(now_ms),
            now_ms + WAIT_DELAY_MAX_MS <= u64::MAX,
        ensures
            final(self).wf(),
            final(self).time_wf(now_ms),
            Self::step(*old(self), key, now_ms, *final(self)),
    {
        match self {
            GameKind::Reaction(g) => g.handle_input(key, now_ms),
            GameKind::Verbal(g) => g.handle_input(key),
            GameKind::Number(g) => g.handle_input(key, now_ms),
        }
    }

    /// Poll the selected game's timer at clock time `now_ms`.
    pub fn update(&mut self, now_ms: u64)
        requires
            old(self).wf(),
            old(self).time_wf(now_ms),
        ensures
            final(self).wf(),
            final(self).time_wf(now_ms),
            Self::tick(*old(self), now_ms, *final(self)),
    {
        match self {
            GameKind::Reaction(g) => g.update(now_ms),
            GameKind::Verbal(_) => {},
            GameKind::Number(g) => g.check_to_change_waiting(now_ms),
        }
    }

    /// Clear the session and the pending exit request before the
    /// terminal goes back to the menu: no session state leaks into the
    /// next activation. The verbal game keeps its loaded word pool.
    pub fn end_session(&mut self)
        requires
            old(self).wf(),
        ensures
            final(self).wf(),
            final(self).is_fresh(),
            Self::same_variant(*old(self), *final(self)),
            (*old(self)) matches GameKind::Verbal(a) ==> (*final(self)) matches GameKind::Verbal(
                b,
            ) && b.words == a.words,
    {
        match self {
            GameKind::Reaction(g) => g.end_session(),
            GameKind::Verbal(g) => g.quit_game(),
            GameKind::Number(g) => g.end_session(),
        }
    }
}

/// The reset round-trips to the initial state: the quit key, pressed in
/// any state past the opening screen of any game, leaves exactly the
/// session a freshly constructed game holds, and the pending exit flag
/// untouched.
pub proof fn lemma_quit_round_trip(pre: GameKind, key: KeyInput, now_ms: u64, post: GameKind)
    requires
        pre.wf(),
        crate::input::is_quit_key(key),
        !pre.at_title(),
        GameKind::step(pre, key, now_ms, post),
    ensures
        post.is_initial_session(),
        post.quit_requested() == pre.quit_requested(),
{
}

/// The fixed game list the menu offers, in its fixed order: reaction
/// time, verbal memory, number memory — each fresh.
pub fn get_all_games() -> (games: Vec<GameKind>)
    ensures
        games@.len() == 3,
        games@[0] is Reaction,
        games@[1] is Verbal,
        games@[2] is Number,
        forall|i: int|
            0 <= i < games@.len() ==> (#[trigger] games@[i]).wf() && games@[i].is_fresh(),
        games@[1] matches GameKind::Verbal(g) && g.words@.len() == 0,
{
    let mut games: Vec<GameKind> = Vec::new();
    games.push(GameKind::Reaction(ReactionGame::new()));
    games.push(GameKind::Verbal(VerbalMemory::new()));
    games.push(GameKind::Number(NumberMemory::new()));
    games
}

} // verus!
