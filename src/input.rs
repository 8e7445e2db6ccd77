use vstd::prelude::*;
use crate::grid::Direction;

verus! {

/// Which direction keys are held down during a frame.
#[derive(Clone, Copy, Debug, PartialEq, Eq, Structural)]
pub struct Keys {
    pub up: bool,
    pub down: bool,
    pub left: bool,
    pub right: bool,
}

impl Keys {
    /// A frame in which no direction key is held.
    pub fn none() -> (r: Keys)
        ensures
            !r.up && !r.down && !r.left && !r.right,
    {
        Keys { up: false, down: false, left: false, right: false }
    }
}

/// The direction after a frame's keys are read. Keys are scanned as Right,
/// Left, Up, Down and each held key overwrites the one before, so Down wins
/// over Up, Up over Left and Left over Right. With no key held the direction
/// is kept. Turning back onto the body is allowed.
pub open spec fn resolve_spec(current: Direction, keys: Keys) -> Direction {
    if keys.down {
        Direction::Down
    } else if keys.up {
        Direction::Up
    } else if keys.left {
        Direction::Left
    } else if keys.right {
        Direction::Right
    } else {
        current
    }
}

/// Applies the keys held in a frame to the pending direction.
pub fn resolve(current: Direction, keys: Keys) -> (r: Direction)
    ensures
        r == resolve_spec(current, keys),
{
    let mut d = current;
    if keys.right {
        d = Direction::Right;
    }
    if keys.left {
        d = Direction::Left;
    }
    if keys.up {
        d = Direction::Up;
    }
    if keys.down {
        d = Direction::Down;
    }
    d
}

/// With no key held, resolving any number of times leaves the direction as
/// it was.
pub proof fn lemma_no_keys_keeps_direction(d: Direction, keys: Keys)
    requires
        !keys.up && !keys.down && !keys.left && !keys.right,
    ensures
        resolve_spec(d, keys) == d,
        resolve_spec(resolve_spec(d, keys), keys) == d,
{
}

/// Resolving the same keys twice gives what resolving them once gives.
pub proof fn lemma_resolve_idempotent(d: Direction, keys: Keys)
    ensures
        resolve_spec(resolve_spec(d, keys), keys) == resolve_spec(d, keys),
{
}

} // verus!
