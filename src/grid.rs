use vstd::prelude::*;

verus! {

/// Number of columns of the playing field.
pub const MAX_WIDTH: i32 = 50;

/// Number of rows of the playing field.
pub const MAX_HEIGHT: i32 = 30;

/// Smallest column of the field (`-MAX_WIDTH / 2`).
pub const MIN_X: i32 = -25;

/// Largest column of the field (`MAX_WIDTH / 2 - 1`).
pub const MAX_X: i32 = 24;

/// Smallest row of the field (`-MAX_HEIGHT / 2`).
pub const MIN_Y: i32 = -15;

/// Largest row of the field (`MAX_HEIGHT / 2 - 1`).
pub const MAX_Y: i32 = 14;

/// A cell of the grid; the origin is the centre of the field.
#[derive(Clone, Copy, Debug, PartialEq, Eq, Structural)]
pub struct Position {
    pub x: i32,
    pub y: i32,
}

/// The direction in which the head moves on the next tick.
#[derive(Clone, Copy, Debug, PartialEq, Eq, Structural)]
pub enum Direction {
    Up,
    Down,
    Left,
    Right,
}

/// `p` lies on the field: `x` in `[MIN_X, MAX_X]`, `y` in `[MIN_Y, MAX_Y]`.
pub open spec fn in_bounds(p: Position) -> bool {
    MIN_X <= p.x <= MAX_X && MIN_Y <= p.y <= MAX_Y
}

/// One move of the head from `p` in direction `d`. A move that would leave
/// the field is dropped: the head stays where it is for that tick.
pub open spec fn step_spec(p: Position, d: Direction) -> Position {
    match d {
        Direction::Right => if p.x < MAX_X { Position { x: (p.x + 1) as i32, ..p } } else { p },
        Direction::Left => if p.x >= MIN_X + 1 { Position { x: (p.x - 1) as i32, ..p } } else { p },
        Direction::Up => if p.y < MAX_Y { Position { y: (p.y + 1) as i32, ..p } } else { p },
        Direction::Down => if p.y >= MIN_Y + 1 { Position { y: (p.y - 1) as i32, ..p } } else { p },
    }
}

/// Moves `p` one cell in direction `d`, clamped at the edge of the field.
pub fn step(p: Position, d: Direction) -> (r: Position)
    ensures
        r == step_spec(p, d),
{
    match d {
        Direction::Right => if p.x < MAX_WIDTH / 2 - 1 {
            Position { x: p.x + 1, y: p.y }
        } else {
            p
        },
        Direction::Left => if p.x >= -MAX_WIDTH / 2 + 1 {
            Position { x: p.x - 1, y: p.y }
        } else {
            p
        },
        Direction::Up => if p.y < MAX_HEIGHT / 2 - 1 {
            Position { x: p.x, y: p.y + 1 }
        } else {
            p
        },
        Direction::Down => if p.y >= -MAX_HEIGHT / 2 + 1 {
            Position { x: p.x, y: p.y - 1 }
        } else {
            p
        },
    }
}

/// A step from a cell of the field never leaves the field.
pub proof fn lemma_step_in_bounds(p: Position, d: Direction)
    requires
        in_bounds(p),
    ensures
        in_bounds(step_spec(p, d)),
{
}

/// At the right edge a move to the right leaves the head where it is.
pub proof fn lemma_right_edge_clamps(p: Position)
    requires
        p.x == MAX_X,
    ensures
        step_spec(p, Direction::Right) == p,
{
}

} // verus!
