//! Steering by keyboard: six keys, two for each axis of movement.

use vstd::prelude::*;
use crate::motion::Vec3;

verus! {

/// The keys that steer.
#[derive(Clone, Copy, Debug, PartialEq, Eq, Structural)]
pub enum Key {
    A,
    D,
    W,
    S,
    Space,
    LControl,
}

/// Which of the steering keys are held down.
#[derive(Clone, Copy, Debug, PartialEq, Eq, Structural)]
pub struct Keyboard {
    pub a: bool,
    pub d: bool,
    pub w: bool,
    pub s: bool,
    pub space: bool,
    pub lcontrol: bool,
}

impl View for Keyboard {
    type V = Set<Key>;

    /// The set of keys that are held down.
    open spec fn view(&self) -> Set<Key> {
        Set::new(
            |key: Key|
                match key {
                    Key::A => self.a,
                    Key::D => self.d,
                    Key::W => self.w,
                    Key::S => self.s,
                    Key::Space => self.space,
                    Key::LControl => self.lcontrol,
                },
        )
    }
}

impl Keyboard {
    /// Whether `key` is held down.
    pub fn pressed(&self, key: Key) -> (held: bool)
        ensures
            held == self@.contains(key),
    {
        match key {
            Key::A => self.a,
            Key::D => self.d,
            Key::W => self.w,
            Key::S => self.s,
            Key::Space => self.space,
            Key::LControl => self.lcontrol,
        }
    }
}

/// The speed at which a steered body moves along an axis: 2.4 units per
/// second.
pub const SPEED: i32 = 2400;

/// The value of an axis with the keys `held`: 1 if the positive key is held,
/// else -1 if the negative key is held, else 0.
pub open spec fn axis_val(held: Set<Key>, pos_key: Key, neg_key: Key) -> int {
    if held.contains(pos_key) {
        1
    } else if held.contains(neg_key) {
        -1
    } else {
        0
    }
}

/// The velocity that the keys `held` ask for: [`SPEED`] along each axis in
/// the direction of its held key. `A` and `D` steer along x, `Space` and
/// `LControl` along y, `W` and `S` along z.
pub open spec fn steering(held: Set<Key>) -> Vec3 {
    Vec3 {
        x: (SPEED * axis_val(held, Key::A, Key::D)) as i32,
        y: (SPEED * axis_val(held, Key::Space, Key::LControl)) as i32,
        z: (SPEED * axis_val(held, Key::W, Key::S)) as i32,
    }
}

/// The value of the axis that `pos_key` and `neg_key` steer. The positive
/// key wins where both are held.
pub fn input_axis_val(keyboard: &Keyboard, pos_key: Key, neg_key: Key) -> (val: i32)
    ensures
        val == axis_val(keyboard@, pos_key, neg_key),
{
    if keyboard.pressed(pos_key) {
        1
    } else if keyboard.pressed(neg_key) {
        -1
    } else {
        0
    }
}

/// Steers a body: its linear velocity becomes what the held keys ask for,
/// whatever it was.
pub fn input_system(keyboard: &Keyboard, linear: &mut Vec3)
    ensures
        *final(linear) == steering(keyboard@),
{
    let dir = Vec3 {
        x: input_axis_val(keyboard, Key::A, Key::D),
        y: input_axis_val(keyboard, Key::Space, Key::LControl),
        z: input_axis_val(keyboard, Key::W, Key::S),
    };
    *linear = Vec3 { x: dir.x * SPEED, y: dir.y * SPEED, z: dir.z * SPEED };
}

/// Along every axis a steered body stands still or moves at [`SPEED`], one
/// way or the other.
pub proof fn lemma_steering_speeds(held: Set<Key>)
    ensures
        steering(held).x == 0 || steering(held).x == SPEED || steering(held).x == -SPEED,
        steering(held).y == 0 || steering(held).y == SPEED || steering(held).y == -SPEED,
        steering(held).z == 0 || steering(held).z == SPEED || steering(held).z == -SPEED,
{
}

} // verus!
