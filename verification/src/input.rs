//! Keyboard state and the two-axis reading derived from it.

use vstd::prelude::*;

verus! {

/// The letter of the key that means up.
pub const KEY_UP: char = 'W';

/// The letter of the key that means left.
pub const KEY_LEFT: char = 'A';

/// The letter of the key that means down.
pub const KEY_DOWN: char = 'S';

/// The letter of the key that means right.
pub const KEY_RIGHT: char = 'D';

/// Which of the four mapped keys are held at the moment of a tick.
#[derive(Debug, Clone, Copy, PartialEq, Eq, Structural)]
pub struct Keys {
    pub up: bool,
    pub left: bool,
    pub down: bool,
    pub right: bool,
}

impl Keys {
    /// No mapped key is held.
    pub open spec fn none_held(self) -> bool {
        !self.up && !self.left && !self.down && !self.right
    }
}

/// The horizontal reading: right is +1, left is -1. The keys are looked at in
/// the order up, left, down, right and a later key overwrites an earlier one,
/// so right wins over left.
pub open spec fn axis_x(keys: Keys) -> i64 {
    if keys.right {
        1
    } else if keys.left {
        -1i64
    } else {
        0
    }
}

/// The vertical reading: up is +1, down is -1, and down wins over up.
pub open spec fn axis_y(keys: Keys) -> i64 {
    if keys.down {
        -1i64
    } else if keys.up {
        1
    } else {
        0
    }
}

/// The reading of the two axes, each one of -1, 0 and 1.
#[derive(Debug, Clone, Copy, PartialEq, Eq, Structural)]
pub struct Input {
    pub x_value: i64,
    pub y_value: i64,
}

impl Input {
    /// Both axes hold one of -1, 0 and 1.
    pub open spec fn wf(self) -> bool {
        -1 <= self.x_value <= 1 && -1 <= self.y_value <= 1
    }

    /// The reading that `update` leaves behind for a given set of keys.
    pub open spec fn reading(keys: Keys) -> Input {
        Input { x_value: axis_x(keys), y_value: axis_y(keys) }
    }

    /// Recomputes both axes from the keys that are held. Nothing of the old
    /// reading survives. With no key held both axes read 0; a single key
    /// sets its axis (up: `y` to 1, left: `x` to -1, down: `y` to -1, right:
    /// `x` to 1) and leaves the other at 0; of two opposing keys the later in
    /// that order wins.
    pub fn update(&mut self, keys: Keys)
        ensures
            *final(self) == Input::reading(keys),
            final(self).wf(),
            keys.none_held() ==> final(self).x_value == 0 && final(self).y_value == 0,
            keys == (Keys { up: true, left: false, down: false, right: false })
                ==> *final(self) == (Input { x_value: 0, y_value: 1 }),
            keys == (Keys { up: false, left: true, down: false, right: false })
                ==> *final(self) == (Input { x_value: -1i64, y_value: 0 }),
            keys == (Keys { up: false, left: false, down: true, right: false })
                ==> *final(self) == (Input { x_value: 0, y_value: -1i64 }),
            keys == (Keys { up: false, left: false, down: false, right: true })
                ==> *final(self) == (Input { x_value: 1, y_value: 0 }),
            keys.up && keys.down ==> final(self).y_value == -1,
            keys.left && keys.right ==> final(self).x_value == 1,
    {
        self.x_value = 0;
        self.y_value = 0;
        if keys.up {
            self.y_value = 1;
        }
        if keys.left {
            self.x_value = -1;
        }
        if keys.down {
            self.y_value = -1;
        }
        if keys.right {
            self.x_value = 1;
        }
    }
}

impl Default for Input {
    fn default() -> (input: Input)
        ensures
            input.x_value == 0,
            input.y_value == 0,
    {
        Input { x_value: 0, y_value: 0 }
    }
}

} // verus!
