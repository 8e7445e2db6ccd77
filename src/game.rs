use vstd::prelude::*;
use rand::Rng;
use crate::clock::TickClock;
use crate::grid::{in_bounds, step, step_spec, Direction, Position, MAX_HEIGHT, MAX_WIDTH};
use crate::input::{resolve, resolve_spec, Keys};

verus! {

/// Coordinate of the cell where a freshly grown body segment waits, off the
/// field, until the next tick pulls it into the chain.
pub const OFF_FIELD_COORD: i32 = -100;

/// The waiting cell of a new segment: `(OFF_FIELD_COORD, OFF_FIELD_COORD)`.
pub open spec fn off_field() -> Position {
    Position { x: OFF_FIELD_COORD, y: OFF_FIELD_COORD }
}

/// The whole state of a game: the head with its pending direction, the body
/// segments in order from the head to the tail, the food if any, and the
/// tick clock.
#[derive(Clone, Debug)]
pub struct Game {
    pub head: Position,
    pub direction: Direction,
    pub body: Vec<Position>,
    pub food: Option<Position>,
    pub clock: TickClock,
}

/// The mathematical state of a game.
pub struct GameModel {
    pub head: Position,
    pub direction: Direction,
    pub body: Seq<Position>,
    pub food: Option<Position>,
    pub clock: TickClock,
}

impl View for Game {
    type V = GameModel;

    open spec fn view(&self) -> GameModel {
        GameModel {
            head: self.head,
            direction: self.direction,
            body: self.body@,
            food: self.food,
            clock: self.clock,
        }
    }
}

/// The head is on the field and the clock has a period.
pub open spec fn model_wf(m: GameModel) -> bool {
    in_bounds(m.head) && m.clock.wf()
}

/// The game at start: head at the centre moving left, no body, no food.
pub open spec fn initial_model() -> GameModel {
    GameModel {
        head: Position { x: 0, y: 0 },
        direction: Direction::Left,
        body: Seq::empty(),
        food: None,
        clock: TickClock { elapsed_nanos: 0, period_nanos: crate::clock::TICK_NANOS },
    }
}

/// The food after a spawn that would place it at `(x, y)`: food that is
/// already there stays, so at most one exists.
pub open spec fn placed(food: Option<Position>, x: i32, y: i32) -> Option<Position> {
    match food {
        Some(f) => Some(f),
        None => Some(Position { x, y }),
    }
}

/// The body after the head left `head`: the first segment takes the head's
/// old cell and every other segment the old cell of the one before it.
pub open spec fn shifted(head: Position, body: Seq<Position>) -> Seq<Position> {
    Seq::new(body.len(), |i: int| if i == 0 { head } else { body[i - 1] })
}

/// The head stands on the food.
pub open spec fn can_eat(m: GameModel) -> bool {
    m.food == Some(m.head)
}

/// The state after the eat check: on a hit the food is gone and one segment
/// is appended off the field; otherwise nothing changes.
pub open spec fn eaten(m: GameModel) -> GameModel {
    if can_eat(m) {
        GameModel { food: None, body: m.body.push(off_field()), ..m }
    } else {
        m
    }
}

/// The state after one tick of movement: the head steps in its direction and
/// the body follows.
pub open spec fn moved(m: GameModel) -> GameModel {
    GameModel { head: step_spec(m.head, m.direction), body: shifted(m.head, m.body), ..m }
}

/// The state after the clock is consumed: on a full period the tick fires
/// and the snake moves; the flag says whether it fired.
pub open spec fn ticked(m: GameModel) -> (GameModel, bool) {
    if m.clock.ready() {
        let c = TickClock {
            elapsed_nanos: (m.clock.elapsed_nanos % m.clock.period_nanos) as u64,
            ..m.clock
        };
        (moved(GameModel { clock: c, ..m }), true)
    } else {
        (m, false)
    }
}

/// One frame: the clock advances by `delta`, the keys set the direction, food
/// is spawned at `(x, y)` if there is none, the eat check runs, and the snake
/// moves when the tick fires.
pub open spec fn frame_spec(m: GameModel, keys: Keys, delta: u64, x: i32, y: i32) -> (
    GameModel,
    bool,
) {
    let c = TickClock {
        elapsed_nanos: TickClock::advanced(m.clock.elapsed_nanos as nat, delta as nat) as u64,
        ..m.clock
    };
    let m1 = GameModel {
        clock: c,
        direction: resolve_spec(m.direction, keys),
        food: placed(m.food, x, y),
        ..m
    };
    ticked(eaten(m1))
}

/// Relies on rand's `thread_rng().gen_range(low..high)`, which returns a value
/// of the half-open range and panics only when it is empty.
#[verifier::external_body]
fn random_in_range(low: i32, high: i32) -> (r: i32)
    requires
        low < high,
    ensures
        low <= r < high,
{
    rand::thread_rng().gen_range(low..high)
}

impl Game {
    pub open spec fn wf(&self) -> bool {
        model_wf(self@)
    }

    /// A new game: head at the origin moving left, no body, no food.
    pub fn new() -> (r: Game)
        ensures
            r@ == initial_model(),
            r.wf(),
    {
        Game {
            head: Position { x: 0, y: 0 },
            direction: Direction::Left,
            body: Vec::new(),
            food: None,
            clock: TickClock::game(),
        }
    }

    /// Adds `delta_nanos` of wall time to the tick clock.
    pub fn update_game_timer(&mut self, delta_nanos: u64)
        ensures
            final(self)@ == (GameModel {
                clock: TickClock {
                    elapsed_nanos: TickClock::advanced(
                        old(self).clock.elapsed_nanos as nat,
                        delta_nanos as nat,
                    ) as u64,
                    ..old(self).clock
                },
                ..old(self)@
            }),
    {
        self.clock.advance(delta_nanos);
    }

    /// Sets the pending direction from the keys held in this frame.
    pub fn update_player_direction(&mut self, keys: Keys)
        ensures
            final(self)@ == (GameModel {
                direction: resolve_spec(old(self).direction, keys),
                ..old(self)@
            }),
    {
        self.direction = resolve(self.direction, keys);
    }

    /// Places food at `(x, y)` unless food already exists.
    pub fn spawn_if_absent_at(&mut self, x: i32, y: i32)
        ensures
            final(self)@ == (GameModel { food: placed(old(self).food, x, y), ..old(self)@ }),
    {
        if self.food.is_none() {
            self.food = Some(Position { x, y });
        }
    }

    /// Places food on a uniformly drawn cell of the field unless food
    /// already exists. The cell may lie under the snake.
    pub fn spawn_if_absent(&mut self)
        ensures
            final(self).food is Some,
            old(self).food is Some ==> final(self)@ == old(self)@,
            old(self).food is None ==> in_bounds(final(self).food->Some_0),
            final(self)@ == (GameModel { food: final(self).food, ..old(self)@ }),
    {
        if self.food.is_some() {
            return;
        }
        let x = random_in_range(-MAX_WIDTH / 2, MAX_WIDTH / 2);
        let y = random_in_range(-MAX_HEIGHT / 2, MAX_HEIGHT / 2);
        self.spawn_if_absent_at(x, y);
    }

    /// When the head stands on the food, removes the food, appends one body
    /// segment at `off_field()` and returns true; otherwise changes nothing.
    pub fn eat_food(&mut self) -> (ate: bool)
        ensures
            ate == can_eat(old(self)@),
            final(self)@ == eaten(old(self)@),
    {
        let hit = match self.food {
            Some(f) => f == self.head,
            None => false,
        };
        if hit {
            self.food = None;
            self.body.push(Position { x: OFF_FIELD_COORD, y: OFF_FIELD_COORD });
        }
        hit
    }

    /// Moves the head one cell in its direction, clamped at the edge, and
    /// shifts each body segment into the cell its predecessor left.
    pub fn move_snake(&mut self)
        ensures
            final(self)@ == moved(old(self)@),
    {
        let prev_head = self.head;
        self.head = step(self.head, self.direction);
        let ghost body0 = self.body@;
        let n = self.body.len();
        let mut prev = prev_head;
        let mut i: usize = 0;
        while i < n
            invariant
                i <= n,
                n == body0.len(),
                self.body@.len() == n,
                self.head == step_spec(prev_head, self.direction),
                self.direction == old(self).direction,
                self.food == old(self).food,
                self.clock == old(self).clock,
                prev_head == old(self).head,
                body0 == old(self).body@,
                prev == (if i == 0 { prev_head } else { body0[i - 1] }),
                forall|j: int| 0 <= j < i ==> self.body@[j] == shifted(prev_head, body0)[j],
                forall|j: int| i <= j < n ==> self.body@[j] == body0[j],
            decreases n - i,
        {
            let cur = self.body[i];
            self.body[i] = prev;
            prev = cur;
            i = i + 1;
        }
        assert(self.body@ =~= shifted(prev_head, body0));
    }

    /// Consumes the tick clock and, when a full period has elapsed, moves the
    /// snake. Returns whether it moved.
    pub fn update_snake_body(&mut self) -> (fired: bool)
        requires
            old(self).wf(),
        ensures
            (final(self)@, fired) == ticked(old(self)@),
    {
        let fired = self.clock.consume_if_ready();
        if fired {
            self.move_snake();
        }
        fired
    }

    /// One frame with the food cell given: timer, direction, food, eat check,
    /// then movement on a tick. Returns whether the snake moved.
    pub fn frame_with_food(&mut self, keys: Keys, delta_nanos: u64, x: i32, y: i32) -> (moved: bool)
        requires
            old(self).wf(),
        ensures
            (final(self)@, moved) == frame_spec(old(self)@, keys, delta_nanos, x, y),
            final(self).wf(),
    {
        self.update_game_timer(delta_nanos);
        self.spawn_if_absent_at(x, y);
        self.update_player_direction(keys);
        self.eat_food();
        let r = self.update_snake_body();
        proof {
            crate::grid::lemma_step_in_bounds(old(self).head, self.direction);
        }
        r
    }

    /// One frame of the game, drawing the food cell at random when food is
    /// needed. Returns whether the snake moved.
    pub fn frame(&mut self, keys: Keys, delta_nanos: u64) -> (moved: bool)
        requires
            old(self).wf(),
        ensures
            final(self).wf(),
            exists|x: i32, y: i32|
                in_bounds(Position { x, y }) && (#[trigger] frame_spec(old(self)@, keys, delta_nanos, x, y))
                    == (final(self)@, moved),
    {
        let (x, y) = match self.food {
            Some(_) => (0, 0),
            None => (
                random_in_range(-MAX_WIDTH / 2, MAX_WIDTH / 2),
                random_in_range(-MAX_HEIGHT / 2, MAX_HEIGHT / 2),
            ),
        };
        self.frame_with_food(keys, delta_nanos, x, y)
    }
}

} // verus!
