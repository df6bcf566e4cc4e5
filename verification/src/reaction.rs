//! The reaction-time game: wait for the cue, press as fast as you can.
//!
//! The machine runs five timed attempts. From `Ready` any key schedules a
//! random delay of 2000..4000 ms (`Waiting`); pressing during the delay is
//! `TooSoon`; when the delay elapses with no press the machine becomes
//! `Active` and the next press records the elapsed milliseconds. After the
//! last attempt the truncating average of all samples is shown (`Stats`).
//! The quit key resets a running session to `Ready`, or, at `Ready`,
//! requests the exit back to the menu.

use vstd::prelude::*;

use crate::input::KeyInput;
use crate::input::is_quit_key;
use crate::input::key_is_quit;
use crate::rng::random_in_range;

verus! {

/// How many attempts one session records. A session target of zero would
/// make the average undefined, so the constructor fixes a positive one.
pub const ATTEMPT_TARGET: u32 = 5;

/// The shortest random delay before the cue, in milliseconds.
pub const WAIT_DELAY_MIN_MS: u64 = 2000;

/// The exclusive upper bound of the random delay before the cue.
pub const WAIT_DELAY_MAX_MS: u64 = 4000;

/// The phases of one reaction-time session.
#[derive(Clone, Copy, Debug, PartialEq, Eq, Structural)]
pub enum ReactionState {
    /// Waiting for any key to start an attempt.
    Ready,
    /// The random delay is counting down; pressing now is too soon.
    Waiting,
    /// A key arrived during the delay; any key starts a new delay.
    TooSoon,
    /// The cue is on and the timer runs; press now.
    Active,
    /// A sample was just recorded, in milliseconds.
    Success(u64),
    /// The session is over; the truncating average of all samples.
    Stats(u64),
}

/// One reaction-time game session.
#[derive(Clone, Debug, PartialEq)]
pub struct ReactionGame {
    /// The current phase.
    pub state: ReactionState,
    /// How many attempts a session records; always [`ATTEMPT_TARGET`].
    pub attempts: u32,
    /// How many attempts have been completed.
    pub done: u32,
    /// The recorded samples, in milliseconds, oldest first.
    pub reaction_history: Vec<u64>,
    /// When the cue came on; owned only while `Active`.
    pub start_time: Option<u64>,
    /// When the delay ends; owned only while `Waiting`.
    pub wait_until: Option<u64>,
    /// Whether the player asked to leave the game for the menu.
    pub quit: bool,
}

/// Sum of a sequence of samples.
pub open spec fn sum_ms(s: Seq<u64>) -> int
    decreases s.len(),
{
    if s.len() == 0 {
        0
    } else {
        sum_ms(s.drop_last()) + s.last()
    }
}

/// A sum of `n` samples is at most `n` times the largest sample value.
pub proof fn lemma_sum_ms_bounds(s: Seq<u64>)
    ensures
        0 <= sum_ms(s) <= s.len() * (u64::MAX as int),
    decreases s.len(),
{
    if s.len() > 0 {
        lemma_sum_ms_bounds(s.drop_last());
    }
}

impl ReactionGame {
    /// The session fields a freshly constructed game holds: no attempt
    /// made, no sample recorded, no timer armed. Quitting a running
    /// session restores exactly this.
    pub open spec fn is_initial_session(self) -> bool {
        &&& self.state is Ready
        &&& self.done == 0
        &&& self.reaction_history@.len() == 0
        &&& self.start_time is None
        &&& self.wait_until is None
    }

    /// The invariant every reachable game value satisfies. In particular:
    /// `done` never exceeds the attempt target, and the history holds
    /// exactly one sample per completed attempt.
    pub open spec fn wf(self) -> bool {
        &&& self.attempts == ATTEMPT_TARGET
        &&& self.done <= self.attempts
        &&& self.reaction_history@.len() == self.done
        &&& (self.wait_until is Some <==> self.state is Waiting)
        &&& (self.start_time is Some <==> self.state is Active)
        &&& (self.state is Waiting || self.state is TooSoon || self.state is Active)
            ==> self.done < self.attempts
        &&& self.state is Ready ==> self.is_initial_session()
    }

    /// The clock value handed in is not earlier than the recorded cue
    /// instant; the clock collaborator is monotonic, so every caller can
    /// maintain this.
    pub open spec fn time_wf(self, now_ms: u64) -> bool {
        self.start_time matches Some(s) ==> s <= now_ms
    }

    /// `post` is `pre` with a fresh random delay armed: the same attempt
    /// counter and history, a deadline between 2000 and 4000 ms from now.
    pub open spec fn entered_waiting(pre: Self, now_ms: u64, post: Self) -> bool {
        &&& post.state is Waiting
        &&& post.wait_until matches Some(d) && now_ms + WAIT_DELAY_MIN_MS <= d
            && d < now_ms + WAIT_DELAY_MAX_MS
        &&& post.start_time is None
        &&& post.done == pre.done
        &&& post.reaction_history@ == pre.reaction_history@
        &&& post.attempts == pre.attempts
        &&& post.quit == pre.quit
    }

    /// `post` holds the same session as `pre`, quit flag aside.
    pub open spec fn same_session(pre: Self, post: Self) -> bool {
        &&& post.state == pre.state
        &&& post.done == pre.done
        &&& post.reaction_history@ == pre.reaction_history@
        &&& post.start_time == pre.start_time
        &&& post.wait_until == pre.wait_until
        &&& post.attempts == pre.attempts
    }

    /// The truncating average of the recorded samples.
    pub open spec fn average_spec(history: Seq<u64>, attempts: u32) -> int {
        sum_ms(history) / (attempts as int)
    }

    /// The input-driven transition relation: what one key press at time
    /// `now_ms` does to the machine. Random delays make it a relation,
    /// not a function: any deadline within the documented window is a
    /// permitted outcome.
    pub open spec fn step(pre: Self, key: KeyInput, now_ms: u64, post: Self) -> bool {
        if is_quit_key(key) {
            if pre.state is Ready {
                &&& Self::same_session(pre, post)
                &&& post.quit == true
            } else {
                &&& post.is_initial_session()
                &&& post.attempts == pre.attempts
                &&& post.quit == pre.quit
            }
        } else {
            match pre.state {
                ReactionState::Ready => Self::entered_waiting(pre, now_ms, post),
                ReactionState::Waiting => {
                    &&& post.state is TooSoon
                    &&& post.wait_until is None
                    &&& post.done == pre.done
                    &&& post.reaction_history@ == pre.reaction_history@
                    &&& post.start_time == pre.start_time
                    &&& post.attempts == pre.attempts
                    &&& post.quit == pre.quit
                },
                ReactionState::TooSoon => Self::entered_waiting(pre, now_ms, post),
                ReactionState::Active => pre.start_time matches Some(s) && {
                    let sample = (now_ms - s) as u64;
                    &&& post.state == ReactionState::Success(sample)
                    &&& post.reaction_history@ == pre.reaction_history@.push(sample)
                    &&& post.done == pre.done + 1
                    &&& post.start_time is None
                    &&& post.wait_until is None
                    &&& post.attempts == pre.attempts
                    &&& post.quit == pre.quit
                },
                ReactionState::Success(_) => {
                    if pre.done < pre.attempts {
                        Self::entered_waiting(pre, now_ms, post)
                    } else {
                        &&& post.state matches ReactionState::Stats(avg)
                            && avg as int == Self::average_spec(
                                pre.reaction_history@,
                                pre.attempts,
                            )
                        &&& post.done == pre.done
                        &&& post.reaction_history@ == pre.reaction_history@
                        &&& post.start_time is None
                        &&& post.wait_until is None
                        &&& post.attempts == pre.attempts
                        &&& post.quit == pre.quit
                    }
                },
                ReactionState::Stats(_) => {
                    &&& post.is_initial_session()
                    &&& post.attempts == pre.attempts
                    &&& post.quit == pre.quit
                },
            }
        }
    }

    /// The time-driven transition relation: what one poll of the clock
    /// does. Only an expired delay changes anything: the cue comes on
    /// and the reaction timer starts at `now_ms`.
    pub open spec fn tick(pre: Self, now_ms: u64, post: Self) -> bool {
        if pre.state is Waiting && (pre.wait_until matches Some(d) && now_ms >= d) {
            &&& post.state is Active
            &&& post.start_time == Some(now_ms)
            &&& post.wait_until is None
            &&& post.done == pre.done
            &&& post.reaction_history@ == pre.reaction_history@
            &&& post.attempts == pre.attempts
            &&& post.quit == pre.quit
        } else {
            post == pre
        }
    }

    /// A fresh game: `Ready`, nothing recorded, no exit requested.
    pub fn new() -> (g: Self)
        ensures
            g.wf(),
            g.is_initial_session(),
            !g.quit,
            g.attempts == ATTEMPT_TARGET,
    {
        ReactionGame {
            state: ReactionState::Ready,
            attempts: ATTEMPT_TARGET,
            done: 0,
            reaction_history: Vec::new(),
            start_time: None,
            wait_until: None,
            quit: false,
        }
    }

    /// Feed one key press to the machine at clock time `now_ms`.
    ///
    /// The exact effect is [`ReactionGame::step`]. The invariant `wf` is
    /// preserved, so over any sequence of key presses `done` never
    /// exceeds the attempt target and the history length always equals
    /// `done`.
    pub fn handle_input(&mut self, key: KeyInput, now_ms: u64)
        requires
            old(self).wf(),
            old(self).time_wf(now_ms),
            now_ms + WAIT_DELAY_MAX_MS <= u64::MAX,
        ensures
            final(self).wf(),
            final(self).time_wf(now_ms),
            Self::step(*old(self), key, now_ms, *final(self)),
    {
        if key_is_quit(key) {
            self.done = 0;
            self.reaction_history.clear();
            self.start_time = None;
            self.wait_until = None;
            match self.state {
                ReactionState::Ready => {
                    self.quit = true;
                },
                _ => {
                    self.state = ReactionState::Ready;
                },
            }
            proof {
                assert(self.reaction_history@ =~= old(self).reaction_history@.take(0));
                assert(old(self).state is Ready ==> self.reaction_history@
                    =~= old(self).reaction_history@);
            }
        } else {
            match self.state {
                ReactionState::Ready => {
                    self.start_waiting(now_ms);
                },
                ReactionState::Waiting => {
                    self.state = ReactionState::TooSoon;
                    self.wait_until = None;
                },
                ReactionState::TooSoon => {
                    self.start_waiting(now_ms);
                },
                ReactionState::Active => {
                    if let Some(start) = self.start_time {
                        let duration = now_ms - start;
                        self.reaction_history.push(duration);
                        self.done = self.done + 1;
                        self.state = ReactionState::Success(duration);
                        self.start_time = None;
                    }
                },
                ReactionState::Success(_) => {
                    if self.done < self.attempts {
                        self.start_waiting(now_ms);
                    } else {
                        let avg = average_of(&self.reaction_history, self.attempts);
                        self.state = ReactionState::Stats(avg);
                    }
                },
                ReactionState::Stats(_) => {
                    self.done = 0;
                    self.reaction_history.clear();
                    self.state = ReactionState::Ready;
                },
            }
        }
    }

    /// Poll the clock: an expired delay turns the cue on. The exact
    /// effect is [`ReactionGame::tick`].
    pub fn update(&mut self, now_ms: u64)
        requires
            old(self).wf(),
            old(self).time_wf(now_ms),
        ensures
            final(self).wf(),
            final(self).time_wf(now_ms),
            Self::tick(*old(self), now_ms, *final(self)),
    {
        if let ReactionState::Waiting = self.state {
            if let Some(when) = self.wait_until {
                if now_ms >= when {
                    self.state = ReactionState::Active;
                    self.start_time = Some(now_ms);
                    self.wait_until = None;
                }
            }
        }
    }

    /// Clear the session and the pending exit request; the run loop calls
    /// this when it hands the terminal back to the menu, so no session
    /// state leaks into the next activation.
    pub fn end_session(&mut self)
        requires
            old(self).wf(),
        ensures
            final(self).wf(),
            final(self).is_initial_session(),
            !final(self).quit,
            final(self).attempts == old(self).attempts,
    {
        self.state = ReactionState::Ready;
        self.done = 0;
        self.reaction_history.clear();
        self.start_time = None;
        self.wait_until = None;
        self.quit = false;
    }

    /// Arm a fresh random delay: 2000..4000 ms from `now_ms`.
    fn start_waiting(&mut self, now_ms: u64)
        requires
            now_ms + WAIT_DELAY_MAX_MS <= u64::MAX,
        ensures
            Self::entered_waiting(*old(self), now_ms, *final(self)),
    {
        self.state = ReactionState::Waiting;
        let millis = random_in_range(WAIT_DELAY_MIN_MS, WAIT_DELAY_MAX_MS);
        self.wait_until = Some(now_ms + millis);
        self.start_time = None;
    }
}

/// The truncating average the stats screen shows: the integer quotient
/// of the sample sum by the attempt target.
pub fn average_of(history: &Vec<u64>, attempts: u32) -> (avg: u64)
    requires
        attempts > 0,
        history@.len() <= attempts,
    ensures
        avg as int == ReactionGame::average_spec(history@, attempts),
{
    let len: usize = history.len();
    let mut total: u128 = 0;
    let mut i: usize = 0;
    while i < len
        invariant
            i <= len,
            len == history@.len(),
            len <= attempts,
            total as int == sum_ms(history@.take(i as int)),
        decreases len - i,
    {
        proof {
            lemma_sum_ms_bounds(history@.take(i as int));
            assert(history@.take(i as int + 1).drop_last() =~= history@.take(i as int));
            assert(history@.take(i as int + 1).last() == history@[i as int]);
        }
        total = total + (history[i] as u128);
        i = i + 1;
    }
    proof {
        assert(history@.take(len as int) =~= history@);
        lemma_sum_ms_bounds(history@);
        assert((total as int) / (attempts as int) <= u64::MAX as int) by (nonlinear_arith)
            requires
                (total as int) <= (attempts as int) * (u64::MAX as int),
                attempts > 0,
        ;
    }
    let avg_wide: u128 = total / (attempts as u128);
    avg_wide as u64
}

/// Over any single step, the attempt counter stays within the target and
/// the history length tracks it: the machine never records more samples
/// than attempts, whatever keys arrive.
pub proof fn lemma_attempts_never_exceed_target(
    pre: ReactionGame,
    key: KeyInput,
    now_ms: u64,
    post: ReactionGame,
)
    requires
        pre.wf(),
        ReactionGame::step(pre, key, now_ms, post),
    ensures
        post.done <= post.attempts,
        post.reaction_history@.len() == post.done,
{
}

} // verus!
