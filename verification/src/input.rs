//! Input axes and the keys that drive them.

use vstd::prelude::*;

verus! {

/// An axis driven by two keys, one for each direction.
#[derive(Clone, Copy, Debug, Default, PartialEq, Eq)]
pub struct Axis {
    pub negative: bool,
    pub positive: bool,
}

impl Axis {
    /// The direction of the axis: -1 or 1 where exactly one key is held.
    pub open spec fn spec_value(&self) -> Option<i32> {
        if self.negative == self.positive {
            None
        } else if self.negative {
            Some(-1i32)
        } else {
            Some(1i32)
        }
    }

    #[verifier::when_used_as_spec(spec_value)]
    pub fn get_value(&self) -> (value: Option<i32>)
        ensures
            value == self.spec_value(),
    {
        if !(self.negative ^ self.positive) {
            return None;
        }
        let negative_value: i32 = if self.negative { -1 } else { 0 };
        let positive_value: i32 = if self.positive { 1 } else { 0 };
        Some(negative_value + positive_value)
    }
}

/// A key that the controls listen to.
#[derive(Clone, Copy, Debug, PartialEq, Eq, Structural)]
pub enum Key {
    Escape,
    A,
    D,
    W,
    S,
    Q,
    E,
}

/// The three axes along which the viewer moves.
#[derive(Clone, Copy, Debug, Default, PartialEq, Eq)]
pub struct Controls {
    /// To the left with `A`, to the right with `D`.
    pub right: Axis,
    /// Ahead with `W`, back with `S`.
    pub forward: Axis,
    /// Down with `Q`, up with `E`.
    pub up: Axis,
}

impl Controls {
    /// The controls after a key went down or up: the key holds its
    /// direction of its axis while it is down. `Escape` moves nothing.
    pub open spec fn spec_key(self, key: Key, pressed: bool) -> Controls {
        match key {
            Key::Escape => self,
            Key::A => Controls { right: Axis { negative: pressed, ..self.right }, ..self },
            Key::D => Controls { right: Axis { positive: pressed, ..self.right }, ..self },
            Key::W => Controls { forward: Axis { negative: pressed, ..self.forward }, ..self },
            Key::S => Controls { forward: Axis { positive: pressed, ..self.forward }, ..self },
            Key::Q => Controls { up: Axis { negative: pressed, ..self.up }, ..self },
            Key::E => Controls { up: Axis { positive: pressed, ..self.up }, ..self },
        }
    }

    /// Takes note of a key that went down or up. Returns whether the key
    /// asks to leave: `Escape` does when it goes down.
    pub fn key(&mut self, key: Key, pressed: bool) -> (exit: bool)
        ensures
            *final(self) == old(self).spec_key(key, pressed),
            exit == (key == Key::Escape && pressed),
    {
        match key {
            Key::Escape => {
                return pressed;
            },
            Key::A => self.right.negative = pressed,
            Key::D => self.right.positive = pressed,
            Key::W => self.forward.negative = pressed,
            Key::S => self.forward.positive = pressed,
            Key::Q => self.up.negative = pressed,
            Key::E => self.up.positive = pressed,
        }
        false
    }
}

} // verus!
