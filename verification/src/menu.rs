//! The menu: the top-level controller that lists the games, moves the
//! highlight, and raises the launch and quit flags the run loop acts on.

use vstd::prelude::*;

use crate::games::GameKind;
use crate::games::get_all_games;
use crate::input::KeyInput;
use crate::input::is_quit_key;
use crate::input::key_is_quit;

verus! {

/// The menu state: the fixed game list, the highlighted index, and the
/// two flags the run loop reads. `in_game` is the launch request;
/// raising both flags together is the unified exit signal.
#[derive(Clone, Debug, PartialEq)]
pub struct Menu {
    /// The highlighted entry; always a valid index into the list.
    pub selected_index: u32,
    /// The games on offer, built once at startup.
    pub selectable_games: Vec<GameKind>,
    /// Whether the whole launcher should exit.
    pub quit: bool,
    /// Whether the selected game should be launched.
    pub in_game: bool,
}

impl Menu {
    /// The invariant: the highlight stays inside the list, and every
    /// listed game satisfies its own invariant.
    pub open spec fn wf(self) -> bool {
        &&& (self.selected_index as int) < self.selectable_games@.len()
        &&& self.selectable_games@.len() <= u32::MAX as int
        &&& forall|i: int|
            0 <= i < self.selectable_games@.len() ==> (#[trigger] self.selectable_games@[i]).wf()
    }

    /// The menu transition: Down/s moves the highlight toward the end
    /// and clamps there, Up/w moves it toward zero and clamps there,
    /// Enter requests a launch, and the quit key requests launch and
    /// quit together. No key touches the game list.
    pub open spec fn step(pre: Self, key: KeyInput, post: Self) -> bool {
        if is_quit_key(key) {
            post == (Menu { in_game: true, quit: true, ..pre })
        } else if key == KeyInput::Char('s') || key == KeyInput::Down {
            post == (Menu {
                selected_index: if pre.selected_index + 1 < pre.selectable_games@.len() {
                    (pre.selected_index + 1) as u32
                } else {
                    pre.selected_index
                },
                ..pre
            })
        } else if key == KeyInput::Char('w') || key == KeyInput::Up {
            post == (Menu {
                selected_index: if pre.selected_index > 0 {
                    (pre.selected_index - 1) as u32
                } else {
                    pre.selected_index
                },
                ..pre
            })
        } else if key is Enter {
            post == (Menu { in_game: true, ..pre })
        } else {
            post == pre
        }
    }

    /// A fresh menu: the three games in their fixed order, the
    /// highlight on the first, no launch and no exit requested.
    pub fn new() -> (m: Menu)
        ensures
            m.wf(),
            m.selected_index == 0,
            !m.quit,
            !m.in_game,
            m.selectable_games@.len() == 3,
            m.selectable_games@[0] is Reaction,
            m.selectable_games@[1] is Verbal,
            m.selectable_games@[2] is Number,
            forall|i: int|
                0 <= i < m.selectable_games@.len() ==> (
                #[trigger] m.selectable_games@[i]).is_fresh(),
    {
        Menu {
            selected_index: 0,
            selectable_games: get_all_games(),
            quit: false,
            in_game: false,
        }
    }

    /// Feed one key press to the menu. The exact effect is
    /// [`Menu::step`].
    pub fn handle_key_event(&mut self, key: KeyInput)
        requires
            old(self).wf(),
        ensures
            final(self).wf(),
            Self::step(*old(self), key, *final(self)),
    {
        if key_is_quit(key) {
            self.in_game = true;
            self.quit = true;
        } else if key == KeyInput::Char('s') || key == KeyInput::Down {
            if self.selected_index + 1 < self.selectable_games.len() as u32 {
                self.selected_index = self.selected_index + 1;
            }
        } else if key == KeyInput::Char('w') || key == KeyInput::Up {
            if self.selected_index > 0 {
                self.selected_index = self.selected_index - 1;
            }
        } else if key == KeyInput::Enter {
            self.in_game = true;
        }
    }
}

} // verus!
