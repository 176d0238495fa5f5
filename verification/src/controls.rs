//! Steering intents and the keys that set them.
//!
//! The vehicle is steered on two independent axes: thrust along its heading
//! and rotation about its centre. Each axis has two keys: `W` and `S` for
//! thrust, `A` and `D` for rotation. Pressing a key sets its axis, releasing
//! either key of an axis puts that axis back to rest, and every other button
//! is ignored.

use vstd::prelude::*;

verus! {

/// The keys that matter to steering; any other key is `Other`.
#[derive(Clone, Copy, Debug, PartialEq, Eq, Structural)]
pub enum Key {
    W,
    A,
    S,
    D,
    Other,
}

/// A button of an input device. Only keyboard keys steer.
#[derive(Clone, Copy, Debug, PartialEq, Eq, Structural)]
pub enum Button {
    Keyboard(Key),
    Other,
}

/// Thrust intent along the heading.
#[derive(Clone, Copy, Debug, PartialEq, Eq, Structural)]
pub enum Direction {
    Forward,
    Reverse,
    Neutral,
}

/// Turn intent about the centre.
#[derive(Clone, Copy, Debug, PartialEq, Eq, Structural)]
pub enum Rotation {
    Left,
    Right,
    Neutral,
}

/// The two axes a button can act on.
#[derive(Clone, Copy, Debug, PartialEq, Eq, Structural)]
pub enum Axis {
    Thrust,
    Turn,
}

impl Button {
    /// The axis that the button is bound to, if it is bound at all.
    pub open spec fn axis(self) -> Option<Axis> {
        match self {
            Button::Keyboard(Key::W) | Button::Keyboard(Key::S) => Some(Axis::Thrust),
            Button::Keyboard(Key::A) | Button::Keyboard(Key::D) => Some(Axis::Turn),
            _ => None,
        }
    }
}

/// What the player currently asks of the vehicle.
#[derive(Clone, Copy, Debug, PartialEq, Eq, Structural)]
pub struct Controls {
    pub dir: Direction,
    pub rot: Rotation,
}

impl Controls {
    /// Both axes at rest.
    pub open spec fn at_rest() -> Controls {
        Controls { dir: Direction::Neutral, rot: Rotation::Neutral }
    }

    /// The intents after `button` went down.
    pub open spec fn pressed(self, button: Button) -> Controls {
        match button {
            Button::Keyboard(Key::W) => Controls { dir: Direction::Forward, ..self },
            Button::Keyboard(Key::S) => Controls { dir: Direction::Reverse, ..self },
            Button::Keyboard(Key::A) => Controls { rot: Rotation::Left, ..self },
            Button::Keyboard(Key::D) => Controls { rot: Rotation::Right, ..self },
            _ => self,
        }
    }

    /// The intents after `button` came up.
    pub open spec fn released(self, button: Button) -> Controls {
        match button.axis() {
            Some(Axis::Thrust) => Controls { dir: Direction::Neutral, ..self },
            Some(Axis::Turn) => Controls { rot: Rotation::Neutral, ..self },
            None => self,
        }
    }

    /// Controls with both axes at rest.
    pub fn new() -> (controls: Controls)
        ensures
            controls == Controls::at_rest(),
    {
        Controls { dir: Direction::Neutral, rot: Rotation::Neutral }
    }

    /// Records that `button` went down.
    pub fn press(&mut self, button: Button)
        ensures
            *final(self) == old(self).pressed(button),
    {
        match button {
            Button::Keyboard(key) => match key {
                Key::W => {
                    self.dir = Direction::Forward;
                },
                Key::S => {
                    self.dir = Direction::Reverse;
                },
                Key::A => {
                    self.rot = Rotation::Left;
                },
                Key::D => {
                    self.rot = Rotation::Right;
                },
                Key::Other => {},
            },
            Button::Other => {},
        }
    }

    /// Records that `button` came up.
    pub fn release(&mut self, button: Button)
        ensures
            *final(self) == old(self).released(button),
    {
        match button {
            Button::Keyboard(key) => match key {
                Key::W | Key::S => {
                    self.dir = Direction::Neutral;
                },
                Key::A | Key::D => {
                    self.rot = Rotation::Neutral;
                },
                Key::Other => {},
            },
            Button::Other => {},
        }
    }

    /// A button acts on the axis it is bound to and on nothing else: an
    /// unbound button changes nothing, a thrust key leaves the rotation alone
    /// and a turn key leaves the thrust alone.
    pub proof fn lemma_axes_independent(self, button: Button)
        ensures
            button.axis() != Some(Axis::Thrust) ==> {
                &&& self.pressed(button).dir == self.dir
                &&& self.released(button).dir == self.dir
            },
            button.axis() != Some(Axis::Turn) ==> {
                &&& self.pressed(button).rot == self.rot
                &&& self.released(button).rot == self.rot
            },
    {
    }

    /// Releasing a key undoes pressing it as far as rest goes: after a key
    /// went down and came up, its axis is at rest, whatever it was before.
    pub proof fn lemma_release_rests(self, button: Button)
        ensures
            button.axis() == Some(Axis::Thrust) ==> self.pressed(button).released(button).dir
                == Direction::Neutral,
            button.axis() == Some(Axis::Turn) ==> self.pressed(button).released(button).rot
                == Rotation::Neutral,
            button.axis() is None ==> self.pressed(button).released(button) == self,
    {
    }

    /// The later of two presses on one axis wins: the earlier press leaves no
    /// trace.
    pub proof fn lemma_last_press_wins(self, first: Button, second: Button)
        requires
            first.axis() == second.axis(),
            second.axis() is Some,
        ensures
            self.pressed(first).pressed(second) == self.pressed(second),
    {
    }
}

} // verus!
