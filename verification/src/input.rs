use vstd::prelude::*;

verus! {

/// Number of keys on the keypad.
pub const KEY_COUNT: u8 = 16;

/// The keypad: bit `k` of `state` is set while key `k` is held down.
pub struct Input {
    pub state: u16,
}

/// Whether key `key` is down in the keypad state `state`.
pub open spec fn key_down(state: u16, key: u8) -> bool {
    (state >> key) & 1 == 1
}

impl Input {
    /// A keypad with no key held down.
    pub fn new() -> (r: Input)
        ensures
            r.state == 0,
    {
        Input { state: 0 }
    }

    /// A keypad in the given state.
    pub fn new_with_state(state: u16) -> (r: Input)
        ensures
            r.state == state,
    {
        Input { state }
    }

    /// Whether key `key` is held down.
    pub fn is_key_pressed(&self, key: u8) -> (r: bool)
        requires
            key < KEY_COUNT,
        ensures
            r == key_down(self.state, key),
    {
        (self.state >> key) & 1 == 1
    }
}

} // verus!
