//! The verbal-memory game: tell words you have seen from new ones.
//!
//! Each round shows a word drawn from the loaded pool or from the set of
//! words already shown, and the player answers SEEN or NEW. A right
//! answer scores a point; a wrong one costs a life. Only the NEW answer
//! records the word in the seen-set, right or wrong, and recording is
//! idempotent. When the last life is lost the session ends. The quit key
//! resets a running session to the title screen, or, at the title
//! screen, requests the exit back to the menu.

use vstd::prelude::*;

use crate::input::KeyInput;
use crate::input::is_quit_key;
use crate::input::key_is_quit;
use crate::rng::random_in_range;

verus! {

/// How many lives a fresh session starts with.
pub const LIVES_START: u32 = 3;

/// The percentage of draws taken from the full word pool; the rest are
/// taken from the seen-set, to guarantee repeats.
pub const POOL_DRAW_CHANCE_PERCENT: u64 = 70;

/// The phases of one verbal-memory session.
#[derive(Clone, Copy, Debug, PartialEq, Eq, Structural)]
pub enum VerbalState {
    /// The title screen; Enter starts a session.
    Title,
    /// A word is on screen and awaits the SEEN/NEW verdict.
    Showing,
    /// The last life is gone; the session is over.
    End,
}

/// The player's pending verdict on the shown word.
#[derive(Clone, Copy, Debug, PartialEq, Eq, Structural)]
pub enum Choice {
    /// "I have seen this word during this session."
    Seen,
    /// "This word is new to me."
    New,
}

/// No sequence element occurs twice.
pub open spec fn no_dups(s: Seq<Seq<char>>) -> bool {
    forall|i: int, j: int| 0 <= i < j < s.len() ==> s[i] != s[j]
}

/// What a word draw can leave behind: a word from the pool or the
/// seen-list when one was drawn, and no word only when the list the
/// draw picked from was empty.
pub open spec fn plausible_draw(
    pool: Seq<Seq<char>>,
    seen_list: Seq<Seq<char>>,
    shown: Option<String>,
) -> bool {
    match shown {
        Some(w) => pool.contains(w@) || seen_list.contains(w@),
        None => pool.len() == 0 || seen_list.len() == 0,
    }
}

/// The score after a right answer: one more, capped only by the
/// integer's width.
pub open spec fn bump_score(score: u32) -> u32 {
    if score < u32::MAX {
        (score + 1) as u32
    } else {
        score
    }
}

/// One verbal-memory game session.
#[derive(Clone, Debug, PartialEq)]
pub struct VerbalMemory {
    /// The current phase.
    pub state: VerbalState,
    /// The word pool, loaded once; an immutable ordered sequence.
    pub words: Vec<String>,
    /// The words already shown and recorded; each at most once.
    pub words_seen: Vec<String>,
    /// The word currently on screen, if any.
    pub word_shown: Option<String>,
    /// Lives left; the session ends the moment this reaches zero.
    pub lives: u32,
    /// Points scored this session; never decreases within a session.
    pub score: u32,
    /// The pending verdict; SEEN until the player changes it.
    pub choice: Choice,
    /// Whether the player asked to leave the game for the menu.
    pub quit: bool,
}

impl VerbalMemory {
    /// The word pool as a sequence of character sequences.
    pub open spec fn pool(self) -> Seq<Seq<char>> {
        self.words.deep_view()
    }

    /// The seen-set: membership is all that matters.
    pub open spec fn seen(self) -> Set<Seq<char>> {
        self.words_seen.deep_view().to_set()
    }

    /// The shown word has already been recorded as seen. False when no
    /// word is shown.
    pub open spec fn shown_is_seen(self) -> bool {
        self.word_shown matches Some(w) && self.words_seen.deep_view().contains(w@)
    }

    /// The session fields a freshly constructed game holds: title
    /// screen, full lives, no score, empty seen-set, no word shown, the
    /// default SEEN verdict. Quitting a running session restores exactly
    /// this; the word pool is not session state and stays loaded.
    pub open spec fn is_initial_session(self) -> bool {
        &&& self.state is Title
        &&& self.lives == LIVES_START
        &&& self.score == 0
        &&& self.words_seen@.len() == 0
        &&& self.word_shown is None
        &&& self.choice is Seen
    }

    /// The invariant every reachable game value satisfies. In
    /// particular: the seen-list never repeats a word, lives never
    /// exceed their starting value, a session in play has at least one
    /// life, and the end screen is reached exactly when the last life
    /// is gone.
    pub open spec fn wf(self) -> bool {
        &&& no_dups(self.words_seen.deep_view())
        &&& self.lives <= LIVES_START
        &&& self.state is Title ==> self.is_initial_session()
        &&& self.state is Showing ==> self.lives >= 1
        &&& self.state is End ==> self.lives == 0
    }

    /// The round resolution: what Enter does to a shown word. The next
    /// word is random, so the follow-up draw is a relation.
    pub open spec fn resolved_round(pre: Self, post: Self) -> bool {
        let was_seen = pre.shown_is_seen();
        let right = ((pre.choice is Seen) == was_seen);
        let lives2: u32 = if right {
            pre.lives
        } else {
            (pre.lives - 1) as u32
        };
        &&& post.lives == lives2
        &&& post.score == if right {
            bump_score(pre.score)
        } else {
            pre.score
        }
        &&& if pre.choice is New && pre.word_shown is Some {
            post.seen() == pre.seen().insert(pre.word_shown.unwrap()@)
        } else {
            post.words_seen.deep_view() == pre.words_seen.deep_view()
        }
        &&& post.choice == pre.choice
        &&& post.quit == pre.quit
        &&& post.pool() == pre.pool()
        &&& if lives2 == 0 {
            post.state is End && post.word_shown == pre.word_shown
        } else {
            post.state is Showing && plausible_draw(
                post.pool(),
                post.words_seen.deep_view(),
                post.word_shown,
            )
        }
    }

    /// The input-driven transition relation: what one key press does to
    /// the machine.
    pub open spec fn step(pre: Self, key: KeyInput, post: Self) -> bool {
        if is_quit_key(key) {
            &&& post.is_initial_session()
            &&& post.quit == if pre.state is Title {
                true
            } else {
                pre.quit
            }
            &&& post.pool() == pre.pool()
        } else {
            match pre.state {
                VerbalState::Title => {
                    if key is Enter {
                        &&& post.state is Showing
                        &&& plausible_draw(
                            post.pool(),
                            post.words_seen.deep_view(),
                            post.word_shown,
                        )
                        &&& post.words_seen.deep_view() == pre.words_seen.deep_view()
                        &&& post.lives == pre.lives
                        &&& post.score == pre.score
                        &&& post.choice == pre.choice
                        &&& post.quit == pre.quit
                        &&& post.pool() == pre.pool()
                    } else {
                        post == pre
                    }
                },
                VerbalState::Showing => {
                    if key == KeyInput::Char('a') || key == KeyInput::Left {
                        post == (VerbalMemory { choice: Choice::Seen, ..pre })
                    } else if key == KeyInput::Char('d') || key == KeyInput::Right {
                        post == (VerbalMemory { choice: Choice::New, ..pre })
                    } else if key is Enter {
                        Self::resolved_round(pre, post)
                    } else {
                        post == pre
                    }
                },
                VerbalState::End => {
                    if key is Enter {
                        &&& post.is_initial_session()
                        &&& post.quit == pre.quit
                        &&& post.pool() == pre.pool()
                    } else {
                        post == pre
                    }
                },
            }
        }
    }

    /// A fresh game: title screen, empty pool, nothing recorded.
    pub fn new() -> (g: Self)
        ensures
            g.wf(),
            g.is_initial_session(),
            !g.quit,
            g.words@.len() == 0,
    {
        VerbalMemory {
            state: VerbalState::Title,
            words: Vec::new(),
            words_seen: Vec::new(),
            word_shown: None,
            lives: LIVES_START,
            score: 0,
            choice: Choice::Seen,
            quit: false,
        }
    }

    /// Hand the game its word pool. Loading is idempotent: once a pool
    /// is in place, further loads change nothing.
    pub fn load_words(&mut self, new_words: Vec<String>)
        requires
            old(self).wf(),
        ensures
            final(self).wf(),
            old(self).words@.len() == 0 ==> final(self).words == new_words,
            old(self).words@.len() > 0 ==> final(self).words == old(self).words,
            final(self).state == old(self).state,
            final(self).words_seen == old(self).words_seen,
            final(self).word_shown == old(self).word_shown,
            final(self).lives == old(self).lives,
            final(self).score == old(self).score,
            final(self).choice == old(self).choice,
            final(self).quit == old(self).quit,
    {
        if self.words.len() == 0 {
            self.words = new_words;
        }
    }

    /// Feed one key press to the machine. The exact effect is
    /// [`VerbalMemory::step`]; within a session (no quit, no end-screen
    /// reset) the score never decreases.
    pub fn handle_input(&mut self, key: KeyInput)
        requires
            old(self).wf(),
        ensures
            final(self).wf(),
            Self::step(*old(self), key, *final(self)),
            !is_quit_key(key) && !(old(self).state is End) ==> final(self).score >= old(
                self,
            ).score,
    {
        if key_is_quit(key) {
            self.clear_progress();
            match self.state {
                VerbalState::Title => {
                    self.quit = true;
                },
                _ => {
                    self.state = VerbalState::Title;
                },
            }
            return ;
        }
        match self.state {
            VerbalState::Title => {
                if let KeyInput::Enter = key {
                    self.assign_random_word_based_on_progress();
                    self.state = VerbalState::Showing;
                }
            },
            VerbalState::Showing => {
                match key {
                    KeyInput::Char(c) => {
                        if c == 'a' {
                            self.choice = Choice::Seen;
                        } else if c == 'd' {
                            self.choice = Choice::New;
                        }
                    },
                    KeyInput::Left => {
                        self.choice = Choice::Seen;
                    },
                    KeyInput::Right => {
                        self.choice = Choice::New;
                    },
                    KeyInput::Enter => {
                        self.resolve_round();
                    },
                    _ => {},
                }
            },
            VerbalState::End => {
                if let KeyInput::Enter = key {
                    self.state = VerbalState::Title;
                    self.clear_progress();
                }
            },
        }
    }

    /// Apply the pending verdict to the shown word: adjust score or
    /// lives, record the word on a NEW verdict, and either end the
    /// session or draw the next word.
    fn resolve_round(&mut self)
        requires
            old(self).wf(),
            old(self).state is Showing,
        ensures
            final(self).wf(),
            Self::resolved_round(*old(self), *final(self)),
    {
        let is_seen: bool = match &self.word_shown {
            Some(w) => vec_has_word(&self.words_seen, w),
            None => false,
        };
        let right: bool = match self.choice {
            Choice::Seen => is_seen,
            Choice::New => !is_seen,
        };
        if right {
            if self.score < u32::MAX {
                self.score = self.score + 1;
            }
        } else {
            self.lives = self.lives - 1;
        }
        if let Choice::New = self.choice {
            let shown_copy: Option<String> = match &self.word_shown {
                Some(w) => Some(w.clone()),
                None => None,
            };
            if let Some(w) = shown_copy {
                insert_unique(&mut self.words_seen, w);
            }
        }
        if self.lives == 0 {
            self.state = VerbalState::End;
        } else {
            self.assign_random_word_based_on_progress();
        }
    }

    /// Draw the next word: usually from the full pool, sometimes from
    /// the seen-list to guarantee a repeat; no word when the picked
    /// list is empty.
    fn assign_random_word_based_on_progress(&mut self)
        ensures
            plausible_draw(
                old(self).pool(),
                old(self).words_seen.deep_view(),
                final(self).word_shown,
            ),
            final(self).state == old(self).state,
            final(self).words == old(self).words,
            final(self).words_seen == old(self).words_seen,
            final(self).lives == old(self).lives,
            final(self).score == old(self).score,
            final(self).choice == old(self).choice,
            final(self).quit == old(self).quit,
    {
        let r = random_in_range(0, 100);
        if r < POOL_DRAW_CHANCE_PERCENT {
            if self.words.len() > 0 {
                let idx = random_in_range(0, self.words.len() as u64) as usize;
                let w = self.words[idx].clone();
                proof {
                    assert(old(self).pool()[idx as int] == old(self).words@[idx as int]@);
                }
                self.word_shown = Some(w);
            } else {
                self.word_shown = None;
            }
        } else {
            if self.words_seen.len() > 0 {
                let idx = random_in_range(0, self.words_seen.len() as u64) as usize;
                let w = self.words_seen[idx].clone();
                proof {
                    assert(old(self).words_seen.deep_view()[idx as int] == old(
                        self,
                    ).words_seen@[idx as int]@);
                }
                self.word_shown = Some(w);
            } else {
                self.word_shown = None;
            }
        }
    }

    /// Put every session field back to its initial value; the phase,
    /// the pool and the quit flag are left alone.
    pub fn clear_progress(&mut self)
        ensures
            final(self).state == old(self).state,
            final(self).words == old(self).words,
            final(self).words_seen@.len() == 0,
            final(self).word_shown is None,
            final(self).lives == LIVES_START,
            final(self).score == 0,
            final(self).choice is Seen,
            final(self).quit == old(self).quit,
    {
        self.words_seen.clear();
        self.lives = LIVES_START;
        self.score = 0;
        self.word_shown = None;
        self.choice = Choice::Seen;
    }

    /// Clear the session. The quit handling sets the phase itself, so
    /// this leaves the phase alone.
    pub fn reset_game(&mut self)
        ensures
            final(self).state == old(self).state,
            final(self).words == old(self).words,
            final(self).words_seen@.len() == 0,
            final(self).word_shown is None,
            final(self).lives == LIVES_START,
            final(self).score == 0,
            final(self).choice is Seen,
            final(self).quit == old(self).quit,
    {
        self.clear_progress();
    }

    /// Clear the session and the pending exit request; the run loop
    /// calls this when it hands the terminal back to the menu, so no
    /// session state leaks into the next activation. The pool stays
    /// loaded: loading is idempotent and the pool is not session state.
    pub fn quit_game(&mut self)
        requires
            old(self).wf(),
        ensures
            final(self).wf(),
            final(self).is_initial_session(),
            !final(self).quit,
            final(self).words == old(self).words,
    {
        self.clear_progress();
        self.state = VerbalState::Title;
        self.quit = false;
    }
}

/// Whether the list holds this word.
fn vec_has_word(list: &Vec<String>, w: &String) -> (r: bool)
    ensures
        r == list.deep_view().contains(w@),
{
    let mut i: usize = 0;
    while i < list.len()
        invariant
            i <= list@.len(),
            forall|j: int| 0 <= j < i ==> list.deep_view()[j] != w@,
        decreases list@.len() - i,
    {
        if list[i].eq(w) {
            proof {
                assert(list.deep_view()[i as int] == w@);
            }
            return true;
        }
        i = i + 1;
    }
    false
}

/// Record a word in the list unless it is already there: the list keeps
/// modelling a set, and membership afterwards is membership before plus
/// this word.
fn insert_unique(list: &mut Vec<String>, w: String)
    requires
        no_dups(old(list).deep_view()),
    ensures
        no_dups(final(list).deep_view()),
        final(list).deep_view().to_set() == old(list).deep_view().to_set().insert(w@),
        final(list).deep_view().contains(w@),
{
    let already = vec_has_word(list, &w);
    if !already {
        list.push(w);
        proof {
            let dv0 = old(list).deep_view();
            let dv1 = list.deep_view();
            assert(dv1 =~= dv0.push(w@));
            assert(dv1[dv0.len() as int] == w@);
            assert forall|x: Seq<char>|
                dv1.to_set().contains(x) <==> dv0.to_set().contains(x) || x == w@ by {
                if dv1.contains(x) {
                    let k = choose|k: int| 0 <= k < dv1.len() && dv1[k] == x;
                    if k < dv0.len() {
                        assert(dv0[k] == x);
                    }
                }
                if dv0.contains(x) {
                    let k = choose|k: int| 0 <= k < dv0.len() && dv0[k] == x;
                    assert(dv1[k] == x);
                }
            }
            assert(dv1.to_set() =~= dv0.to_set().insert(w@));
        }
    } else {
        proof {
            assert(list.deep_view().to_set() =~= old(list).deep_view().to_set().insert(w@));
        }
    }
}

/// Recording the same word twice leaves the seen-set exactly where one
/// recording left it: membership is unchanged, and the word is a member
/// either way.
pub proof fn lemma_seen_insert_idempotent(seen: Set<Seq<char>>, w: Seq<char>)
    ensures
        seen.insert(w).insert(w) =~= seen.insert(w),
        seen.insert(w).contains(w),
{
}

} // verus!
