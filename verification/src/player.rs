//! One competitor: the key the player must press and the distance run so far.

use vstd::prelude::*;
use crate::assigner::{is_letter, key_of_draw, spec_draw, spec_rest, KeyAssigner, ALPHABET_SIZE};

verus! {

/// Per-player state. A player is well formed when the assigned key is a
/// letter of the game's alphabet; every constructor and reassignment keeps it
/// so.
#[derive(Clone, Copy, PartialEq, Eq, Structural, Debug)]
pub struct Player {
    /// The single letter this player must press to advance.
    pub key: char,
    /// Cells advanced from the start line.
    pub pos: usize,
}

impl Player {
    /// The assigned key is a letter the assigner can produce.
    pub open spec fn wf(self) -> bool {
        is_letter(self.key)
    }

    /// A fresh player at the start line, with a key drawn from `assigner`.
    pub fn new(assigner: &mut KeyAssigner) -> (p: Player)
        ensures
            p.wf(),
            p.pos == 0,
            (*old(assigner)) is System ==> *final(assigner) == *old(assigner),
            (*old(assigner)) is Scripted ==> {
                &&& *final(assigner) is Scripted
                &&& p.key == key_of_draw(spec_draw(old(assigner).remaining(), ALPHABET_SIZE))
                &&& final(assigner).remaining() == spec_rest(old(assigner).remaining())
            },
    {
        Player { key: assigner.random_key(), pos: 0 }
    }

    /// Cells advanced from the start line.
    pub fn get_position(&self) -> (pos: usize)
        ensures
            pos == self.pos,
    {
        self.pos
    }

    /// The key this player must press.
    pub fn get_key(&self) -> (key: char)
        ensures
            key == self.key,
    {
        self.key
    }

    /// Whether this player has won against `goal_distance`: strictly beyond
    /// the goal line wins; standing exactly on it does not.
    pub fn has_reached_goal(&self, goal_distance: usize) -> (reached: bool)
        ensures
            reached == (self.pos > goal_distance),
    {
        self.pos > goal_distance
    }

    /// Whether the pressed key is this player's assigned key.
    pub fn has_key_pressed(&self, pressed: char) -> (matches: bool)
        ensures
            matches == (pressed == self.key),
    {
        self.key == pressed
    }

    /// Advances one cell. Bounding against the goal is the engine's business,
    /// not the player's; only the machine word must not overflow.
    pub fn run(&mut self)
        requires
            old(self).pos < usize::MAX,
        ensures
            *final(self) == (Player { key: old(self).key, pos: (old(self).pos + 1) as usize }),
    {
        self.pos += 1;
    }

    /// Draws a fresh key from `assigner`; it may well equal the old one.
    pub fn assign_random_key(&mut self, assigner: &mut KeyAssigner)
        ensures
            final(self).wf(),
            final(self).pos == old(self).pos,
            (*old(assigner)) is System ==> *final(assigner) == *old(assigner),
            (*old(assigner)) is Scripted ==> {
                &&& *final(assigner) is Scripted
                &&& final(self).key == key_of_draw(spec_draw(old(assigner).remaining(), ALPHABET_SIZE))
                &&& final(assigner).remaining() == spec_rest(old(assigner).remaining())
            },
    {
        self.key = assigner.random_key();
    }

    /// Back to the start line with a freshly drawn key.
    pub fn reset(&mut self, assigner: &mut KeyAssigner)
        ensures
            final(self).wf(),
            final(self).pos == 0,
            (*old(assigner)) is System ==> *final(assigner) == *old(assigner),
            (*old(assigner)) is Scripted ==> {
                &&& *final(assigner) is Scripted
                &&& final(self).key == key_of_draw(spec_draw(old(assigner).remaining(), ALPHABET_SIZE))
                &&& final(assigner).remaining() == spec_rest(old(assigner).remaining())
            },
    {
        self.pos = 0;
        self.assign_random_key(assigner);
    }
}

} // verus!
