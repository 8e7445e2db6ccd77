use vstd::prelude::*;
use crate::game::{
    can_eat, frame_spec, model_wf, moved, placed, GameModel,
};
use crate::grid::{in_bounds, lemma_step_in_bounds, Direction, Position, MIN_X};
use crate::input::Keys;

verus! {

/// What one frame reads from outside: keys held, elapsed nanoseconds, and the
/// cell a new food would take.
pub struct FrameInput {
    pub keys: Keys,
    pub delta: u64,
    pub food_x: i32,
    pub food_y: i32,
}

/// The state after running the frames in order.
pub open spec fn run(m: GameModel, frames: Seq<FrameInput>) -> GameModel
    decreases frames.len(),
{
    if frames.len() == 0 {
        m
    } else {
        let f = frames[0];
        run(frame_spec(m, f.keys, f.delta, f.food_x, f.food_y).0, frames.drop_first())
    }
}

/// A frame keeps the head on the field and the clock's period unchanged.
pub proof fn lemma_frame_keeps_wf(m: GameModel, keys: Keys, delta: u64, x: i32, y: i32)
    requires
        model_wf(m),
    ensures
        model_wf(frame_spec(m, keys, delta, x, y).0),
        in_bounds(frame_spec(m, keys, delta, x, y).0.head),
{
    lemma_step_in_bounds(m.head, crate::input::resolve_spec(m.direction, keys));
}

/// However many frames run, the head never leaves the field.
pub proof fn lemma_head_stays_in_bounds(m: GameModel, frames: Seq<FrameInput>)
    requires
        model_wf(m),
    ensures
        model_wf(run(m, frames)),
        in_bounds(run(m, frames).head),
    decreases frames.len(),
{
    if frames.len() > 0 {
        let f = frames[0];
        lemma_frame_keeps_wf(m, f.keys, f.delta, f.food_x, f.food_y);
        lemma_head_stays_in_bounds(
            frame_spec(m, f.keys, f.delta, f.food_x, f.food_y).0,
            frames.drop_first(),
        );
    }
}

/// In a frame that starts with the head on the food, the food is gone at the
/// end and the body has exactly one more segment, whether or not it ticks.
pub proof fn lemma_frame_eats(m: GameModel, keys: Keys, delta: u64, x: i32, y: i32)
    requires
        can_eat(m),
    ensures
        frame_spec(m, keys, delta, x, y).0.food is None,
        frame_spec(m, keys, delta, x, y).0.body.len() == m.body.len() + 1,
{
}

/// In a frame where the head misses the food, the body keeps its length.
pub proof fn lemma_frame_without_eating(m: GameModel, keys: Keys, delta: u64, x: i32, y: i32)
    requires
        m.food is Some,
        !can_eat(m),
    ensures
        frame_spec(m, keys, delta, x, y).0.food == m.food,
        frame_spec(m, keys, delta, x, y).0.body.len() == m.body.len(),
{
}

/// A second spawn right after a first one changes nothing: there is food
/// after either, and never a second one.
pub proof fn lemma_spawn_twice(food: Option<Position>, x1: i32, y1: i32, x2: i32, y2: i32)
    ensures
        placed(food, x1, y1) is Some,
        placed(placed(food, x1, y1), x2, y2) == placed(food, x1, y1),
{
}

/// One tick of movement is a shift: the first segment takes the head's old
/// cell, and the others move up by one place, dropping the old tail cell.
pub proof fn lemma_move_is_shift(m: GameModel)
    requires
        m.body.len() > 0,
    ensures
        moved(m).body =~= seq![m.head] + m.body.drop_last(),
        moved(m).body[0] == m.head,
{
}

/// The state after `n` ticks of movement.
pub open spec fn moved_times(m: GameModel, n: nat) -> GameModel
    decreases n,
{
    if n == 0 {
        m
    } else {
        moved(moved_times(m, (n - 1) as nat))
    }
}

/// Moving left for `n` ticks from column `x` ends at column `x - n`, or at
/// the left edge if that comes first; the row does not change.
pub proof fn lemma_ticks_left(m: GameModel, n: nat)
    requires
        m.direction == Direction::Left,
        MIN_X <= m.head.x,
    ensures
        moved_times(m, n).direction == Direction::Left,
        moved_times(m, n).head == (Position {
            x: (if m.head.x - n >= MIN_X { m.head.x - n } else { MIN_X as int }) as i32,
            y: m.head.y,
        }),
    decreases n,
{
    if n > 0 {
        lemma_ticks_left(m, (n - 1) as nat);
    }
}

} // verus!
