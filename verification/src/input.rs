//! Edge-triggered keyboard state.
//!
//! The simulation never reacts to a key being down; it reacts to the one
//! tick on which a key goes from released to pressed. The surrounding
//! application reports the raw pressed state of the eight bound keys once
//! per tick, and `InputState` keeps the previous tick's state so that the
//! edge is a plain function of the two.

use vstd::prelude::*;

verus! {

/// One key's pressed state on this tick and on the previous one.
#[derive(Copy, Clone, PartialEq, Eq, Structural, Debug)]
pub struct KeyState {
    pub pressed: bool,
    pub was_pressed: bool,
}

impl KeyState {
    /// The key went down on this very tick.
    pub open spec fn edge(self) -> bool {
        self.pressed && !self.was_pressed
    }

    /// The key is down now and was already down on the previous tick.
    pub open spec fn held(self) -> bool {
        self.pressed && self.was_pressed
    }

    /// Checks for a released-to-pressed transition on this tick.
    pub fn just_pressed(&self) -> (r: bool)
        ensures
            r == self.edge(),
    {
        self.pressed && !self.was_pressed
    }
}

/// The pressed state, current and previous, of the eight keys the game
/// binds: one arrow key and one letter key per direction.
#[derive(Copy, Clone, PartialEq, Eq, Structural, Debug)]
pub struct InputState {
    pub arrow_up: KeyState,
    pub letter_d: KeyState,
    pub arrow_down: KeyState,
    pub letter_f: KeyState,
    pub arrow_left: KeyState,
    pub letter_j: KeyState,
    pub arrow_right: KeyState,
    pub letter_k: KeyState,
}

/// A key that has been up for at least two ticks.
pub open spec fn released_key() -> KeyState {
    KeyState { pressed: false, was_pressed: false }
}

impl InputState {
    /// All eight keys released.
    pub fn new() -> (s: Self)
        ensures
            s.arrow_up == released_key(),
            s.letter_d == released_key(),
            s.arrow_down == released_key(),
            s.letter_f == released_key(),
            s.arrow_left == released_key(),
            s.letter_j == released_key(),
            s.arrow_right == released_key(),
            s.letter_k == released_key(),
    {
        let k = KeyState { pressed: false, was_pressed: false };
        InputState {
            arrow_up: k,
            letter_d: k,
            arrow_down: k,
            letter_f: k,
            arrow_left: k,
            letter_j: k,
            arrow_right: k,
            letter_k: k,
        }
    }

    /// Takes this tick's raw pressed state of each key; the previous
    /// state slides into `was_pressed`, so edges are well defined.
    pub fn advance(
        &mut self,
        up: bool,
        d: bool,
        down: bool,
        f: bool,
        left: bool,
        j: bool,
        right: bool,
        k: bool,
    )
        ensures
            final(self).arrow_up == (KeyState { pressed: up, was_pressed: old(self).arrow_up.pressed }),
            final(self).letter_d == (KeyState { pressed: d, was_pressed: old(self).letter_d.pressed }),
            final(self).arrow_down == (KeyState {
                pressed: down,
                was_pressed: old(self).arrow_down.pressed,
            }),
            final(self).letter_f == (KeyState { pressed: f, was_pressed: old(self).letter_f.pressed }),
            final(self).arrow_left == (KeyState {
                pressed: left,
                was_pressed: old(self).arrow_left.pressed,
            }),
            final(self).letter_j == (KeyState { pressed: j, was_pressed: old(self).letter_j.pressed }),
            final(self).arrow_right == (KeyState {
                pressed: right,
                was_pressed: old(self).arrow_right.pressed,
            }),
            final(self).letter_k == (KeyState { pressed: k, was_pressed: old(self).letter_k.pressed }),
    {
        self.arrow_up = KeyState { pressed: up, was_pressed: self.arrow_up.pressed };
        self.letter_d = KeyState { pressed: d, was_pressed: self.letter_d.pressed };
        self.arrow_down = KeyState { pressed: down, was_pressed: self.arrow_down.pressed };
        self.letter_f = KeyState { pressed: f, was_pressed: self.letter_f.pressed };
        self.arrow_left = KeyState { pressed: left, was_pressed: self.arrow_left.pressed };
        self.letter_j = KeyState { pressed: j, was_pressed: self.letter_j.pressed };
        self.arrow_right = KeyState { pressed: right, was_pressed: self.arrow_right.pressed };
        self.letter_k = KeyState { pressed: k, was_pressed: self.letter_k.pressed };
    }
}

} // verus!
