//! The abstract key events the engine consumes. Whatever window library
//! delivers raw keyboard input, it reduces each key-down to a logical key
//! identity and a repeat flag before the engine sees it.

use vstd::prelude::*;

verus! {

/// The logical identity of a pressed key, as far as the game cares: a
/// printable character, one of the two confirm keys, or anything else.
#[derive(Clone, Copy, PartialEq, Eq, Structural, Debug)]
pub enum Key {
    Character(char),
    Space,
    Return,
    Other,
}

/// One key-down event. `repeat` is true when the event comes from the
/// keyboard auto-repeating a held key rather than a fresh press.
#[derive(Clone, Copy, PartialEq, Eq, Structural, Debug)]
pub struct KeyEvent {
    pub key: Key,
    pub repeat: bool,
}

/// Whether `c` is a decimal digit.
pub open spec fn is_digit(c: char) -> bool {
    48 <= c as u32 <= 57
}

/// The numeric value of a digit character.
pub open spec fn digit_value(c: char) -> u64
    recommends
        is_digit(c),
{
    (c as u32 - 48) as u64
}

/// The player count a key selects on the select screen: digits `1`..=`9`
/// choose that many players; a zero and every other key choose nothing,
/// since a game of no players would make the win check vacuous.
pub open spec fn selected_player_count(key: Key) -> Option<u64> {
    match key {
        Key::Character(c) => {
            if is_digit(c) && digit_value(c) >= 1 {
                Some(digit_value(c))
            } else {
                None
            }
        },
        _ => None,
    }
}

/// Whether `key` confirms a restart on the win screen.
pub open spec fn is_confirm(key: Key) -> bool {
    key is Space || key is Return
}

} // verus!
