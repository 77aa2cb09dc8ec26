//! The source of random keys and random policy draws. The game wants three
//! kinds of draws: a letter for a player, a chance draw against the
//! reassignment probability, and the index of the player to reassign. All
//! three come from one injectable source, so the engine's behaviour under a
//! scripted source is exactly reproducible, while the shipped game draws from
//! the system generator.

use vstd::prelude::*;

verus! {

/// How many keys the game can assign: the letters `A`..=`Z`.
pub const ALPHABET_SIZE: u64 = 26;

/// Whether `c` is a key the game may assign: an upper-case letter `A`..=`Z`.
pub open spec fn is_letter(c: char) -> bool {
    65 <= c as u32 <= 90
}

/// The letter a raw draw stands for: draw 0 is `A`, draw 25 is `Z`.
pub open spec fn key_of_draw(d: u64) -> char
    recommends
        d < ALPHABET_SIZE,
{
    ((65 + d) as u8) as char
}

/// What a scripted source answers when asked for a value below `n`: the front
/// draw reduced modulo `n`, or 0 once the script is exhausted.
pub open spec fn spec_draw(draws: Seq<u64>, n: u64) -> u64
    recommends
        n > 0,
{
    if draws.len() > 0 {
        (draws[0] % n) as u64
    } else {
        0
    }
}

/// The script after one draw has been consumed.
pub open spec fn spec_rest(draws: Seq<u64>) -> Seq<u64> {
    if draws.len() > 0 {
        draws.drop_first()
    } else {
        draws
    }
}

/// The script after `n` draws have been consumed.
pub open spec fn spec_rest_n(draws: Seq<u64>, n: nat) -> Seq<u64>
    decreases n,
{
    if n == 0 {
        draws
    } else {
        spec_rest(spec_rest_n(draws, (n - 1) as nat))
    }
}

/// The `count` keys a scripted source hands out in order, one draw each.
pub open spec fn scripted_keys(draws: Seq<u64>, count: nat) -> Seq<char> {
    Seq::new(count, |i: int| key_of_draw(spec_draw(spec_rest_n(draws, i as nat), ALPHABET_SIZE)))
}

/// Relies on `rand::random_range` over `0..n`: it returns a value of the
/// given range, drawn uniformly from the thread-local generator, and panics
/// only on an empty range.
#[verifier::external_body]
fn system_draw_below(n: u64) -> (r: u64)
    requires
        n > 0,
    ensures
        r < n,
{
    rand::random_range(0..n)
}

/// Produces the random draws the game runs on. `System` draws from the
/// machine's generator; `Scripted` replays a fixed list of raw draws from the
/// front, and answers 0 once the list is exhausted.
pub enum KeyAssigner {
    System,
    Scripted { draws: Vec<u64> },
}

impl KeyAssigner {
    /// The raw draws this source will still hand out, oldest first. The
    /// system source keeps no script, so its remainder is empty.
    pub open spec fn remaining(self) -> Seq<u64> {
        match self {
            KeyAssigner::System => Seq::empty(),
            KeyAssigner::Scripted { draws } => draws@,
        }
    }

    /// A source backed by the machine's random number generator.
    pub fn system() -> (a: KeyAssigner)
        ensures
            a is System,
    {
        KeyAssigner::System
    }

    /// A source that replays `draws` from the front.
    pub fn scripted(draws: Vec<u64>) -> (a: KeyAssigner)
        ensures
            a is Scripted,
            a.remaining() == draws@,
    {
        KeyAssigner::Scripted { draws }
    }

    /// The next draw, reduced below `n`. A scripted source consumes its front
    /// draw and answers exactly `spec_draw` of its script; the system source
    /// answers some value below `n` and is left as it was.
    pub fn next_below(&mut self, n: u64) -> (r: u64)
        requires
            n > 0,
        ensures
            r < n,
            (*old(self)) is System ==> *final(self) == *old(self),
            (*old(self)) is Scripted ==> {
                &&& *final(self) is Scripted
                &&& r == spec_draw(old(self).remaining(), n)
                &&& final(self).remaining() == spec_rest(old(self).remaining())
            },
    {
        match self {
            KeyAssigner::System => system_draw_below(n),
            KeyAssigner::Scripted { draws } => {
                if draws.len() > 0 {
                    let d = draws.remove(0);
                    d % n
                } else {
                    0
                }
            },
        }
    }

    /// A fresh key for a player, uniform over `A`..=`Z` under the system
    /// source, and exactly the front draw's letter under a scripted one.
    pub fn random_key(&mut self) -> (c: char)
        ensures
            is_letter(c),
            (*old(self)) is System ==> *final(self) == *old(self),
            (*old(self)) is Scripted ==> {
                &&& *final(self) is Scripted
                &&& c == key_of_draw(spec_draw(old(self).remaining(), ALPHABET_SIZE))
                &&& final(self).remaining() == spec_rest(old(self).remaining())
            },
    {
        let d = self.next_below(ALPHABET_SIZE);
        let b: u8 = 65 + (d as u8);
        b as char
    }
}

} // verus!
