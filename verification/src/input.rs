//! The key-press events the games and the menu react to.

use vstd::prelude::*;

verus! {

/// One key press, as the game logic understands it.
///
/// The terminal layer translates whatever event its backend delivers into
/// one of these; only press events are translated, never release or
/// repeat events. A key with no meaning of its own becomes [`KeyInput::Other`],
/// which the games treat as "any key".
#[derive(Clone, Copy, Debug, PartialEq, Eq, Structural)]
pub enum KeyInput {
    /// A printable character key.
    Char(char),
    Enter,
    Backspace,
    Esc,
    Up,
    Down,
    Left,
    Right,
    /// Any other key.
    Other,
}

/// The keys that quit a game or the menu: Escape, or the letter q.
pub open spec fn is_quit_key(key: KeyInput) -> bool {
    key == KeyInput::Esc || key == KeyInput::Char('q')
}

/// Runtime test for [`is_quit_key`].
pub fn key_is_quit(key: KeyInput) -> (r: bool)
    ensures
        r == is_quit_key(key),
{
    match key {
        KeyInput::Esc => true,
        KeyInput::Char(c) => c == 'q',
        _ => false,
    }
}

} // verus!
