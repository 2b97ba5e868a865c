//! The keyboard state the frame loop polls: which keys are currently held
//! down. The state lives for the process lifetime; it is only ever updated
//! from key events and read back per key.

use vstd::prelude::*;

verus! {

/// The keys the engine reacts to.
#[derive(Clone, Copy, PartialEq, Eq, Structural, Debug)]
pub enum Key {
    W,
    A,
    S,
    D,
    R,
    F,
    Q,
    E,
    J,
    K,
    G,
    B,
    V,
    C,
    Key0,
    Key1,
    Key2,
    Key3,
    Key4,
    Key5,
    Key6,
    Key7,
    Key8,
    Key9,
    Return,
    Up,
    Down,
    Left,
    Right,
}

/// How many keys the engine tracks.
pub const KEY_COUNT: usize = 29;

/// The table slot of one key.
pub open spec fn spec_key_code(k: Key) -> int {
    match k {
        Key::W => 0,
        Key::A => 1,
        Key::S => 2,
        Key::D => 3,
        Key::R => 4,
        Key::F => 5,
        Key::Q => 6,
        Key::E => 7,
        Key::J => 8,
        Key::K => 9,
        Key::G => 10,
        Key::B => 11,
        Key::V => 12,
        Key::C => 13,
        Key::Key0 => 14,
        Key::Key1 => 15,
        Key::Key2 => 16,
        Key::Key3 => 17,
        Key::Key4 => 18,
        Key::Key5 => 19,
        Key::Key6 => 20,
        Key::Key7 => 21,
        Key::Key8 => 22,
        Key::Key9 => 23,
        Key::Return => 24,
        Key::Up => 25,
        Key::Down => 26,
        Key::Left => 27,
        Key::Right => 28,
    }
}

/// The table slot of one key.
pub fn key_code(k: Key) -> (r: usize)
    ensures
        r == spec_key_code(k),
        r < KEY_COUNT,
{
    match k {
        Key::W => 0,
        Key::A => 1,
        Key::S => 2,
        Key::D => 3,
        Key::R => 4,
        Key::F => 5,
        Key::Q => 6,
        Key::E => 7,
        Key::J => 8,
        Key::K => 9,
        Key::G => 10,
        Key::B => 11,
        Key::V => 12,
        Key::C => 13,
        Key::Key0 => 14,
        Key::Key1 => 15,
        Key::Key2 => 16,
        Key::Key3 => 17,
        Key::Key4 => 18,
        Key::Key5 => 19,
        Key::Key6 => 20,
        Key::Key7 => 21,
        Key::Key8 => 22,
        Key::Key9 => 23,
        Key::Return => 24,
        Key::Up => 25,
        Key::Down => 26,
        Key::Left => 27,
        Key::Right => 28,
    }
}

/// The keyboard state: one held-down flag per tracked key.
pub struct InputState {
    pub pressed: Vec<bool>,
}

impl InputState {
    /// Every flag present.
    pub open spec fn wf(&self) -> bool {
        self.pressed@.len() == KEY_COUNT
    }

    /// All keys up.
    pub fn init() -> (r: InputState)
        ensures
            r.wf(),
            forall|i: int| 0 <= i < KEY_COUNT ==> !(#[trigger] r.pressed@[i]),
    {
        let mut pressed: Vec<bool> = Vec::new();
        let mut i: usize = 0;
        while i < KEY_COUNT
            invariant
                i <= KEY_COUNT,
                pressed@.len() == i,
                forall|j: int| 0 <= j < i ==> !(#[trigger] pressed@[j]),
            decreases KEY_COUNT - i,
        {
            pressed.push(false);
            i = i + 1;
        }
        InputState { pressed }
    }

    /// Records one key event.
    pub fn update_btn(&mut self, btn: Key, down: bool)
        requires
            old(self).wf(),
        ensures
            final(self).wf(),
            final(self).pressed@ == old(self).pressed@.update(spec_key_code(btn), down),
    {
        let code = key_code(btn);
        self.pressed.set(code, down);
    }

    /// Whether one key is currently held down.
    pub fn is_btn_down(&self, btn: Key) -> (r: bool)
        requires
            self.wf(),
        ensures
            r == self.pressed@[spec_key_code(btn)],
    {
        let code = key_code(btn);
        self.pressed[code]
    }
}

} // verus!
