//! The fixed key-to-intent mapping.
//!
//! The engine exposes a "is this key held" predicate over physical keys; each
//! movement intent has two alternate bindings, and quitting has one. This
//! module reduces the physical key states to the five logical intents that
//! the rest of the core reads.

use vstd::prelude::*;

verus! {

/// The logical movement intents held during one tick, already reduced from
/// physical key bindings.
#[derive(Clone, Copy, PartialEq, Eq, Structural, Debug)]
pub struct KeyState {
    /// Rotate the player counter-clockwise.
    pub rotate_left: bool,
    /// Rotate the player clockwise.
    pub rotate_right: bool,
    /// Thrust along the player's nose.
    pub forward: bool,
    /// Thrust against the player's nose.
    pub backward: bool,
    /// Terminate the process.
    pub quit: bool,
}

impl KeyState {
    /// Reduce the physical bindings to intents: each movement intent is held
    /// when either of its two bindings is held.
    pub fn from_bindings(
        rotate_left_a: bool,
        rotate_left_b: bool,
        rotate_right_a: bool,
        rotate_right_b: bool,
        forward_a: bool,
        forward_b: bool,
        backward_a: bool,
        backward_b: bool,
        quit: bool,
    ) -> (keys: KeyState)
        ensures
            keys.rotate_left == (rotate_left_a || rotate_left_b),
            keys.rotate_right == (rotate_right_a || rotate_right_b),
            keys.forward == (forward_a || forward_b),
            keys.backward == (backward_a || backward_b),
            keys.quit == quit,
    {
        KeyState {
            rotate_left: rotate_left_a || rotate_left_b,
            rotate_right: rotate_right_a || rotate_right_b,
            forward: forward_a || forward_b,
            backward: backward_a || backward_b,
            quit,
        }
    }
}

} // verus!
