//! The number-memory game: remember an ever longer string of digits.
//!
//! A round shows a freshly drawn digit string whose length is the current
//! level for a fixed reveal time, hides it, and collects the player's
//! answer. An exact match raises the level by one; a mismatch ends the
//! session. The quit key resets a running session to the title screen,
//! or, at the title screen, requests the exit back to the menu.

use vstd::prelude::*;

use crate::input::KeyInput;
use crate::input::is_quit_key;
use crate::input::key_is_quit;
use crate::rng::random_in_range;

verus! {

/// How long a drawn number stays on screen, in milliseconds.
pub const REVEAL_DURATION_MS: u64 = 1700;

/// The level a fresh session starts at: a one-digit number.
pub const LEVEL_START: u32 = 1;

/// A decimal digit character, one of '0' through '9'.
pub open spec fn is_digit_char(c: char) -> bool {
    48 <= c as u32 && c as u32 <= 57
}

/// Every character of the sequence is a decimal digit.
pub open spec fn all_digits(s: Seq<char>) -> bool {
    forall|i: int| 0 <= i < s.len() ==> is_digit_char(#[trigger] s[i])
}

/// Runtime test for [`is_digit_char`].
pub fn char_is_digit(c: char) -> (r: bool)
    ensures
        r == is_digit_char(c),
{
    let u = c as u32;
    48 <= u && u <= 57
}

/// The digit character for a value below ten.
fn digit_char(d: u64) -> (c: char)
    requires
        d < 10,
    ensures
        c as u32 == 48 + d,
        is_digit_char(c),
{
    if d == 0 {
        '0'
    } else if d == 1 {
        '1'
    } else if d == 2 {
        '2'
    } else if d == 3 {
        '3'
    } else if d == 4 {
        '4'
    } else if d == 5 {
        '5'
    } else if d == 6 {
        '6'
    } else if d == 7 {
        '7'
    } else if d == 8 {
        '8'
    } else {
        '9'
    }
}

/// The phases of one number-memory session.
#[derive(Clone, Copy, Debug, PartialEq, Eq, Structural)]
pub enum NumberState {
    /// The title screen; any key starts the first round.
    Title,
    /// The number is on screen; no input is accepted, a timer hides it.
    Showing,
    /// The number is hidden; the player types an answer.
    Waiting,
    /// The answer matched; the level has been raised.
    Success,
    /// The answer did not match; the session is over.
    End,
}

/// One number-memory game session.
#[derive(Clone, Debug, PartialEq)]
pub struct NumberMemory {
    /// The current phase.
    pub state: NumberState,
    /// The digit string to remember; absent on the title screen.
    pub number: Option<String>,
    /// The player's answer so far; absent on the title screen.
    pub answer: Option<String>,
    /// The current difficulty: how many digits the number has.
    pub level: u32,
    /// Whether the player asked to leave the game for the menu.
    pub quit: bool,
    /// When the reveal started, absent on the title screen.
    pub show_start: Option<u64>,
    /// How long the number stays visible; always [`REVEAL_DURATION_MS`].
    pub showing_duration_ms: u64,
}

/// The level after a successful round: one more, capped only by the
/// integer's width.
pub open spec fn bump_level(level: u32) -> u32 {
    if level < u32::MAX {
        (level + 1) as u32
    } else {
        level
    }
}

impl NumberMemory {
    /// The session fields a freshly constructed game holds: title screen,
    /// no number, no answer, no timer, level one. Quitting a running
    /// session restores exactly this.
    pub open spec fn is_initial_session(self) -> bool {
        &&& self.state is Title
        &&& self.number is None
        &&& self.answer is None
        &&& self.show_start is None
        &&& self.level == LEVEL_START
    }

    /// The invariant every reachable game value satisfies. In
    /// particular: away from the title screen the number and the answer
    /// are both present and hold only digits, and while the number is
    /// shown or asked for it has exactly `level` digits.
    pub open spec fn wf(self) -> bool {
        &&& self.showing_duration_ms == REVEAL_DURATION_MS
        &&& self.level >= LEVEL_START
        &&& self.state is Title ==> self.is_initial_session()
        &&& !(self.state is Title) ==> (self.number matches Some(n) && all_digits(n@))
            && (self.answer matches Some(a) && all_digits(a@))
        &&& self.state is Showing ==> self.show_start is Some
        &&& (self.state is Showing || self.state is Waiting) ==> (self.number matches Some(n)
            && n@.len() == self.level as int)
    }

    /// The clock value handed in is not earlier than the recorded reveal
    /// start; the clock collaborator is monotonic, so every caller can
    /// maintain this.
    pub open spec fn time_wf(self, now_ms: u64) -> bool {
        self.show_start matches Some(s) ==> s <= now_ms
    }

    /// `post` is `pre` with a fresh round started at `pre`'s level: a
    /// newly drawn number of exactly `level` digits on screen, an empty
    /// answer, and the reveal timer started at `now_ms`.
    pub open spec fn started_round(pre: Self, now_ms: u64, post: Self) -> bool {
        &&& post.state is Showing
        &&& post.show_start == Some(now_ms)
        &&& post.number matches Some(n) && n@.len() == pre.level as int && all_digits(n@)
        &&& post.answer matches Some(a) && a@.len() == 0
        &&& post.level == pre.level
        &&& post.quit == pre.quit
        &&& post.showing_duration_ms == pre.showing_duration_ms
    }

    /// The input-driven transition relation: what one key press at time
    /// `now_ms` does to the machine. The drawn number is random, so the
    /// round-start cases are a relation: any digit string of the right
    /// length is a permitted outcome.
    pub open spec fn step(pre: Self, key: KeyInput, now_ms: u64, post: Self) -> bool {
        if is_quit_key(key) {
            &&& post.is_initial_session()
            &&& post.quit == if pre.state is Title {
                true
            } else {
                pre.quit
            }
            &&& post.showing_duration_ms == pre.showing_duration_ms
        } else {
            match pre.state {
                NumberState::Title => Self::started_round(pre, now_ms, post),
                NumberState::Showing => post == pre,
                NumberState::Waiting => match key {
                    KeyInput::Enter => pre.number matches Some(n) && pre.answer matches Some(a)
                        && {
                        if a@ == n@ {
                            &&& post.state is Success
                            &&& post.level == bump_level(pre.level)
                            &&& post.number == pre.number
                            &&& post.answer == pre.answer
                            &&& post.show_start == pre.show_start
                            &&& post.quit == pre.quit
                            &&& post.showing_duration_ms == pre.showing_duration_ms
                        } else {
                            &&& post.state is End
                            &&& post.level == pre.level
                            &&& post.number == pre.number
                            &&& post.answer == pre.answer
                            &&& post.show_start == pre.show_start
                            &&& post.quit == pre.quit
                            &&& post.showing_duration_ms == pre.showing_duration_ms
                        }
                    },
                    KeyInput::Backspace => pre.answer matches Some(a) && {
                        &&& post.answer matches Some(a2) && a2@ == if a@.len() == 0 {
                            a@
                        } else {
                            a@.drop_last()
                        }
                        &&& post.state == pre.state
                        &&& post.number == pre.number
                        &&& post.show_start == pre.show_start
                        &&& post.level == pre.level
                        &&& post.quit == pre.quit
                        &&& post.showing_duration_ms == pre.showing_duration_ms
                    },
                    KeyInput::Char(c) => pre.answer matches Some(a) && {
                        if is_digit_char(c) {
                            &&& post.answer matches Some(a2) && a2@ == a@.push(c)
                            &&& post.state == pre.state
                            &&& post.number == pre.number
                            &&& post.show_start == pre.show_start
                            &&& post.level == pre.level
                            &&& post.quit == pre.quit
                            &&& post.showing_duration_ms == pre.showing_duration_ms
                        } else {
                            post == pre
                        }
                    },
                    _ => post == pre,
                },
                NumberState::Success => Self::started_round(pre, now_ms, post),
                NumberState::End => {
                    &&& post.is_initial_session()
                    &&& post.quit == pre.quit
                    &&& post.showing_duration_ms == pre.showing_duration_ms
                },
            }
        }
    }

    /// The time-driven transition relation: once the reveal duration has
    /// elapsed, the number is hidden and the answer phase begins;
    /// nothing else ever changes on a clock poll.
    pub open spec fn tick(pre: Self, now_ms: u64, post: Self) -> bool {
        if pre.state is Showing && (pre.show_start matches Some(s) && now_ms
            >= s + pre.showing_duration_ms) {
            &&& post.state is Waiting
            &&& post.number == pre.number
            &&& post.answer == pre.answer
            &&& post.show_start == pre.show_start
            &&& post.level == pre.level
            &&& post.quit == pre.quit
            &&& post.showing_duration_ms == pre.showing_duration_ms
        } else {
            post == pre
        }
    }

    /// A fresh game: title screen, level one, no exit requested.
    pub fn new() -> (g: Self)
        ensures
            g.wf(),
            g.is_initial_session(),
            !g.quit,
    {
        NumberMemory {
            state: NumberState::Title,
            number: None,
            answer: None,
            level: LEVEL_START,
            quit: false,
            show_start: None,
            showing_duration_ms: REVEAL_DURATION_MS,
        }
    }

    /// Feed one key press to the machine at clock time `now_ms`. The
    /// exact effect is [`NumberMemory::step`].
    pub fn handle_input(&mut self, key: KeyInput, now_ms: u64)
        requires
            old(self).wf(),
            old(self).time_wf(now_ms),
        ensures
            final(self).wf(),
            final(self).time_wf(now_ms),
            Self::step(*old(self), key, now_ms, *final(self)),
    {
        if key_is_quit(key) {
            match self.state {
                NumberState::Title => {
                    self.quit_game();
                },
                _ => {
                    self.reset_game();
                },
            }
            return ;
        }
        match self.state {
            NumberState::Title => {
                self.show_number(now_ms);
            },
            NumberState::Showing => {
                // No input is accepted while the number is on screen.
            },
            NumberState::Waiting => {
                match key {
                    KeyInput::Enter => {
                        let equal: bool = match (&self.answer, &self.number) {
                            (Some(a), Some(n)) => a.eq(n),
                            _ => false,
                        };
                        if equal {
                            if self.level < u32::MAX {
                                self.level = self.level + 1;
                            }
                            self.state = NumberState::Success;
                        } else {
                            self.state = NumberState::End;
                        }
                    },
                    KeyInput::Backspace => {
                        match &mut self.answer {
                            Some(ans) => {
                                ans.pop();
                            },
                            None => {},
                        }
                    },
                    KeyInput::Char(c) => {
                        match &mut self.answer {
                            Some(ans) => {
                                if char_is_digit(c) {
                                    ans.push(c);
                                }
                            },
                            None => {},
                        }
                    },
                    _ => {},
                }
            },
            NumberState::Success => {
                self.show_number(now_ms);
            },
            NumberState::End => {
                self.reset_game();
            },
        }
    }

    /// Poll the clock: hide the number once the reveal duration has
    /// elapsed. The exact effect is [`NumberMemory::tick`].
    pub fn check_to_change_waiting(&mut self, now_ms: u64)
        requires
            old(self).wf(),
            old(self).time_wf(now_ms),
        ensures
            final(self).wf(),
            final(self).time_wf(now_ms),
            Self::tick(*old(self), now_ms, *final(self)),
    {
        if let NumberState::Showing = self.state {
            if let Some(start_show) = self.show_start {
                if now_ms - start_show >= self.showing_duration_ms {
                    self.state = NumberState::Waiting;
                }
            }
        }
    }

    /// Start a round at the current level: draw a fresh number, clear
    /// the answer, and start the reveal timer at `now_ms`.
    pub fn show_number(&mut self, now_ms: u64)
        requires
            old(self).wf(),
        ensures
            final(self).wf(),
            final(self).time_wf(now_ms),
            Self::started_round(*old(self), now_ms, *final(self)),
    {
        self.state = NumberState::Showing;
        self.show_start = Some(now_ms);
        let n = self.generate_random_number();
        self.number = Some(n);
        self.answer = Some(String::new());
    }

    /// Draw a digit string of exactly `level` characters, each digit
    /// uniform over '0' through '9'.
    fn generate_random_number(&self) -> (s: String)
        ensures
            s@.len() == self.level as int,
            all_digits(s@),
    {
        let mut s = String::new();
        let mut i: u32 = 0;
        while i < self.level
            invariant
                i <= self.level,
                s@.len() == i as int,
                all_digits(s@),
            decreases self.level - i,
        {
            let d = random_in_range(0, 10);
            let c = digit_char(d);
            s.push(c);
            i = i + 1;
        }
        s
    }

    /// The fraction of the reveal time still left, as an integer
    /// percentage: 100 when the reveal just started, 0 once the duration
    /// has elapsed.
    pub open spec fn remaining_percent(start: u64, now_ms: u64, dur: u64) -> int
        recommends
            start <= now_ms,
            dur > 0,
    {
        if now_ms - start >= dur {
            0
        } else {
            ((dur - (now_ms - start)) * 100) / (dur as int)
        }
    }

    /// The countdown indicator value for the reveal screen; a pure
    /// function of the elapsed time, recomputed each frame.
    pub fn showing_progress_percent(&self, now_ms: u64) -> (p: u8)
        requires
            self.wf(),
            self.state is Showing,
            self.time_wf(now_ms),
        ensures
            p <= 100,
            self.show_start matches Some(st) ==> p as int == Self::remaining_percent(
                st,
                now_ms,
                self.showing_duration_ms,
            ),
    {
        let st: u64 = match self.show_start {
            Some(s) => s,
            None => 0,
        };
        let elapsed = now_ms - st;
        if elapsed >= self.showing_duration_ms {
            0
        } else {
            let rem = self.showing_duration_ms - elapsed;
            ((rem * 100) / self.showing_duration_ms) as u8
        }
    }

    /// Prepare the session for a fresh run loop: clear any exit request
    /// left over from the previous visit.
    pub fn init_game(&mut self)
        ensures
            *final(self) == (NumberMemory { quit: false, ..*old(self) }),
    {
        self.quit = false;
    }

    /// Put every session field back to its initial value; the quit flag
    /// is left alone.
    pub fn reset_common(&mut self)
        ensures
            final(self).is_initial_session(),
            final(self).quit == old(self).quit,
            final(self).showing_duration_ms == old(self).showing_duration_ms,
    {
        self.state = NumberState::Title;
        self.answer = None;
        self.number = None;
        self.show_start = None;
        self.level = LEVEL_START;
    }

    /// Request the exit back to the menu and clear the session.
    pub fn quit_game(&mut self)
        ensures
            final(self).is_initial_session(),
            final(self).quit,
            final(self).showing_duration_ms == old(self).showing_duration_ms,
    {
        self.quit = true;
        self.reset_common();
    }

    /// Clear the session back to the title screen; the quit flag is left
    /// alone.
    pub fn reset_game(&mut self)
        ensures
            final(self).is_initial_session(),
            final(self).quit == old(self).quit,
            final(self).showing_duration_ms == old(self).showing_duration_ms,
    {
        self.reset_common();
    }

    /// Clear the session and the pending exit request; the run loop
    /// calls this when it hands the terminal back to the menu, so no
    /// session state leaks into the next activation.
    pub fn end_session(&mut self)
        requires
            old(self).wf(),
        ensures
            final(self).wf(),
            final(self).is_initial_session(),
            !final(self).quit,
    {
        self.reset_common();
        self.quit = false;
    }
}

} // verus!
