//! The body of the snake: spawning a unit behind the tail, and the
//! per-frame replay of the head's turns by every unit.

use vstd::prelude::*;
use crate::direction::Direction;
use crate::elevations::{Elevations, Image};
use crate::geometry::{grid_rect, PhysicsData, Point, Rect, W_I};
use crate::invariants::{in_step, lemma_frame_keeps_step, tail_turns_last};
use crate::snake::{Snake, SnakeBody, SnakeView, SPRITE_BASE_ANGLE};

verus! {

/// Side of one body unit, in world units.
pub const SNAKE_W: i64 = 50;

/// Number of rows in the sprite sheet of a body unit.
pub const BODY_SPRITE_ROWS: u32 = 17;

/// The clock that all body units share for their sprite: the length of one
/// frame in milliseconds, and the row of the sprite sheet that is shown.
#[derive(Clone, Copy, Debug, PartialEq, Eq, Structural)]
pub struct SnakeBodyAnim {
    pub frame_ms: u32,
    pub frame: u32,
}

/// What the per-frame replay reads and writes of one body unit: the unit
/// itself, its rectangle, its velocity and the rotation of its sprite.
#[derive(Clone, Copy, Debug, PartialEq, Eq, Structural)]
pub struct SnakeBodies {
    pub body: SnakeBody,
    pub pos: Rect,
    pub velocity: Point,
    pub rotation: i64,
}

/// How far a unit that moves along `dir` has come past `pivot`, measured
/// along the axis of `dir`: negative while the turn is still ahead.
pub open spec fn overshoot(dir: Direction, center: Point, pivot: Point) -> int {
    match dir {
        Direction::Left => pivot.x - center.x,
        Direction::Right => center.x - pivot.x,
        Direction::Up => pivot.y - center.y,
        Direction::Down => center.y - pivot.y,
    }
}

/// The point that lies `by` units from `from` along `dir`.
pub open spec fn advanced(from: Point, dir: Direction, by: int) -> (int, int) {
    match dir {
        Direction::Left => (from.x - by, from.y as int),
        Direction::Right => (from.x + by, from.y as int),
        Direction::Up => (from.x as int, from.y - by),
        Direction::Down => (from.x as int, from.y + by),
    }
}

/// The unit has reached or passed the turn that it targets, and that turn
/// is retained in the log.
pub open spec fn reaches(unit: SnakeBodies, snake: SnakeView) -> bool {
    match snake.pivot(unit.body.pivot_idx as int) {
        Some(pivot) => overshoot(unit.body.direction, unit.pos.center_spec(), pivot.0) >= 0,
        None => false,
    }
}

/// `after` is `before` once it has taken the turn `pivot`: it stands as far
/// behind the turn along the new heading as it had run past it along the
/// old one, moves along the new heading at `speed`, and targets the next turn.
pub open spec fn took_turn(before: SnakeBodies, pivot: (Point, Direction), speed: i32, after: SnakeBodies) -> bool {
    let over = overshoot(before.body.direction, before.pos.center_spec(), pivot.0);
    &&& after.body.direction == pivot.1
    &&& after.body.snake_idx == before.body.snake_idx
    &&& after.body.pivot_idx == before.body.pivot_idx + 1
    &&& (after.pos.cx as int, after.pos.cy as int) == advanced(pivot.0, pivot.1, over)
    &&& after.pos.w == before.pos.w
    &&& after.pos.h == before.pos.h
    &&& after.velocity.x == pivot.1.unit().0 * speed
    &&& after.velocity.y == pivot.1.unit().1 * speed
    &&& after.rotation == pivot.1.angle() - SPRITE_BASE_ANGLE
}

/// `after` is what one frame of replay against `snake` makes of `before`:
/// the unit takes its turn if it has reached it, and is unchanged otherwise.
pub open spec fn followed(before: SnakeBodies, snake: SnakeView, speed: i32, after: SnakeBodies) -> bool {
    if reaches(before, snake) {
        took_turn(before, snake.pivot(before.body.pivot_idx as int).unwrap(), speed, after)
    } else {
        after == before
    }
}

/// The ledger after one unit had its frame: the tail, when it takes a
/// turn, drops the oldest retained turn.
pub open spec fn ledger_after_one(unit: SnakeBodies, snake: SnakeView) -> SnakeView {
    if reaches(unit, snake) && snake.is_tail(unit.body.snake_idx as int) {
        snake.evicted()
    } else {
        snake
    }
}

/// The ledger after the units of `bodies` had their frame, one after the
/// other in the order of the sequence.
pub open spec fn ledger_after(bodies: Seq<SnakeBodies>, snake: SnakeView) -> SnakeView
    decreases bodies.len(),
{
    if bodies.len() == 0 {
        snake
    } else {
        ledger_after_one(bodies.last(), ledger_after(bodies.drop_last(), snake))
    }
}

/// `after` is what one frame of replay, in the order of `bodies`, makes of
/// the units `bodies`.
pub open spec fn frame_of(snake: SnakeView, bodies: Seq<SnakeBodies>, speed: i32, after: Seq<SnakeBodies>) -> bool {
    &&& after.len() == bodies.len()
    &&& forall|i: int|
        0 <= i < bodies.len() ==> followed(
            bodies[i],
            ledger_after(bodies.take(i), snake),
            speed,
            #[trigger] after[i],
        )
}

/// One frame of replay for one unit. A unit whose turn is not in the log
/// (not recorded yet, or dropped already) is left as it is.
pub fn update_snake_body(unit: &mut SnakeBodies, snake: &mut Snake, speed: i32) -> (turned: bool)
    requires
        old(snake).wf(),
        old(unit).pos.center_spec().bounded(),
    ensures
        final(snake).wf(),
        turned == reaches(*old(unit), old(snake)@),
        followed(*old(unit), old(snake)@, speed, *final(unit)),
        final(snake)@ == ledger_after_one(*old(unit), old(snake)@),
{
    let (piv_pos, piv_dir) = match snake.pivot_at(unit.body.pivot_idx) {
        Some(pivot) => pivot,
        None => {
            return false;
        },
    };
    assert(piv_pos.bounded());
    let diff: i64 = match unit.body.direction {
        Direction::Left => piv_pos.x - unit.pos.cx,
        Direction::Right => unit.pos.cx - piv_pos.x,
        Direction::Up => piv_pos.y - unit.pos.cy,
        Direction::Down => unit.pos.cy - piv_pos.y,
    };
    if diff < 0 {
        return false;
    }
    unit.body.pivot_idx = unit.body.pivot_idx + 1;
    unit.body.direction = piv_dir;
    unit.pos.cx = piv_pos.x;
    unit.pos.cy = piv_pos.y;
    match piv_dir {
        Direction::Left => {
            unit.pos.cx = unit.pos.cx - diff;
        },
        Direction::Right => {
            unit.pos.cx = unit.pos.cx + diff;
        },
        Direction::Up => {
            unit.pos.cy = unit.pos.cy - diff;
        },
        Direction::Down => {
            unit.pos.cy = unit.pos.cy + diff;
        },
    }
    unit.velocity = piv_dir.velocity(speed);
    unit.rotation = piv_dir.rotation(SPRITE_BASE_ANGLE);
    if snake.body_count > 0 && unit.body.snake_idx == snake.body_count - 1 {
        snake.evict_front();
    }
    true
}

/// One frame of replay for all units, in the order of `bodies`. Every
/// unit is replayed against the ledger as the units before it left it.
/// Units and ledger that were in step stay in step, so that no unit
/// targets a dropped turn, if the tail is the last to take the oldest turn.
pub fn update_snake_bodies(bodies: &mut Vec<SnakeBodies>, snake: &mut Snake, speed: i32)
    requires
        old(snake).wf(),
        forall|i: int| 0 <= i < old(bodies)@.len() ==> (#[trigger] old(bodies)@[i]).pos.center_spec().bounded(),
    ensures
        final(snake).wf(),
        final(snake)@ == ledger_after(old(bodies)@, old(snake)@),
        frame_of(old(snake)@, old(bodies)@, speed, final(bodies)@),
        in_step(old(snake)@, old(bodies)@) && tail_turns_last(old(snake)@, old(bodies)@) ==> in_step(
            final(snake)@,
            final(bodies)@,
        ),
{
    let ghost before = bodies@;
    let ghost start = snake@;
    let n: usize = bodies.len();
    let mut i: usize = 0;
    while i < n
        invariant
            i <= n,
            n == before.len(),
            bodies@.len() == n,
            snake.wf(),
            snake@ == ledger_after(before.take(i as int), start),
            forall|j: int| i <= j < n ==> bodies@[j] == before[j],
            forall|j: int| 0 <= j < n ==> (#[trigger] before[j]).pos.center_spec().bounded(),
            forall|j: int|
                0 <= j < i ==> followed(
                    before[j],
                    ledger_after(before.take(j), start),
                    speed,
                    #[trigger] bodies@[j],
                ),
        decreases n - i,
    {
        let mut unit: SnakeBodies = bodies[i];
        assert(unit == before[i as int]);
        update_snake_body(&mut unit, snake, speed);
        bodies.set(i, unit);
        proof {
            assert(before.take(i + 1).drop_last() == before.take(i as int));
            assert(before.take(i + 1).last() == before[i as int]);
        }
        i = i + 1;
    }
    proof {
        assert(before.take(n as int) == before);
        if in_step(start, before) && tail_turns_last(start, before) {
            lemma_frame_keeps_step(start, before, speed, bodies@);
        }
    }
}

/// The position of `i` in `bodies` is that of the tail: the first unit
/// with the highest place in the spawning order.
pub open spec fn tail_at(bodies: Seq<SnakeBodies>, i: int) -> bool {
    &&& 0 <= i < bodies.len()
    &&& forall|j: int| 0 <= j < bodies.len() ==> (#[trigger] bodies[j]).body.snake_idx <= bodies[i].body.snake_idx
    &&& forall|j: int| 0 <= j < i ==> (#[trigger] bodies[j]).body.snake_idx < bodies[i].body.snake_idx
}

/// The position of the tail in `bodies`, or `None` when there is no unit.
pub open spec fn tail_of(bodies: Seq<SnakeBodies>) -> Option<int> {
    if bodies.len() == 0 {
        None
    } else {
        Some(choose|i: int| tail_at(bodies, i))
    }
}

/// At most one position is that of the tail.
pub proof fn lemma_tail_unique(bodies: Seq<SnakeBodies>, i: int, j: int)
    requires
        tail_at(bodies, i),
        tail_at(bodies, j),
    ensures
        i == j,
{
    if i < j {
        assert(bodies[i].body.snake_idx < bodies[j].body.snake_idx);
    } else if j < i {
        assert(bodies[j].body.snake_idx < bodies[i].body.snake_idx);
    }
}

/// The position of the tail in `bodies`, or `None` when there is no unit.
pub fn find_tail(bodies: &Vec<SnakeBodies>) -> (tail: Option<usize>)
    ensures
        match tail {
            Some(i) => tail_at(bodies@, i as int) && tail_of(bodies@) == Some(i as int),
            None => bodies@.len() == 0 && tail_of(bodies@) is None,
        },
{
    if bodies.len() == 0 {
        return None;
    }
    let mut best: usize = 0;
    let mut i: usize = 1;
    while i < bodies.len()
        invariant
            1 <= i <= bodies@.len(),
            best < i,
            forall|j: int| 0 <= j < i ==> (#[trigger] bodies@[j]).body.snake_idx <= bodies@[best as int].body.snake_idx,
            forall|j: int| 0 <= j < best ==> (#[trigger] bodies@[j]).body.snake_idx < bodies@[best as int].body.snake_idx,
        decreases bodies@.len() - i,
    {
        if bodies[i].body.snake_idx > bodies[best].body.snake_idx {
            best = i;
        }
        i = i + 1;
    }
    proof {
        assert(tail_at(bodies@, best as int));
        lemma_tail_unique(bodies@, best as int, tail_of(bodies@).unwrap());
    }
    Some(best)
}

/// Everything that a new body unit is created with.
#[derive(Clone, Copy, Debug, PartialEq, Eq, Structural)]
pub struct BodySpawn {
    pub body: SnakeBody,
    pub elevation: Elevations,
    pub image: Image,
    pub rotation: i64,
    pub pos: Rect,
    pub physics: PhysicsData,
}

/// The centre and the heading that a new unit starts from: those of the
/// unit at position `tail`, or the origin and `Up` when there is no unit.
pub open spec fn spawn_origin(bodies: Seq<SnakeBodies>, tail: Option<int>) -> (Point, Direction) {
    match tail {
        Some(i) => (bodies[i].pos.center_spec(), bodies[i].body.direction),
        None => (Point { x: 0, y: 0 }, Direction::Up),
    }
}

/// `spawn` is the unit that grows behind a tail at `center` heading `dir`:
/// one unit's width behind it, with the same heading, last in the
/// spawning order, and targeting the oldest retained turn.
pub open spec fn spawned_behind(center: Point, dir: Direction, snake: SnakeView, speed: i32, spawn: BodySpawn) -> bool {
    &&& spawn.body.direction == dir
    &&& spawn.body.snake_idx == snake.body_count
    &&& spawn.body.pivot_idx == snake.pivot_offset
    &&& spawn.elevation == Elevations::Snake
    &&& spawn.image == Image::SnakeBody
    &&& spawn.rotation == dir.angle() - SPRITE_BASE_ANGLE
    &&& (spawn.pos.cx as int, spawn.pos.cy as int) == advanced(center, dir, -SNAKE_W)
    &&& spawn.pos.w == SNAKE_W
    &&& spawn.pos.h == SNAKE_W
    &&& spawn.physics.v.x == dir.unit().0 * speed
    &&& spawn.physics.v.y == dir.unit().1 * speed
    &&& spawn.physics.a == (Point { x: 0, y: 0 })
    &&& spawn.physics.boundary == Some(grid_rect())
}

/// Grows the snake by one unit after a fruit was eaten. The unit starts
/// behind the tail of `bodies`; with no unit yet, behind the origin heading `Up`.
pub fn new_snake_body(bodies: &Vec<SnakeBodies>, snake: &mut Snake, speed: i32) -> (spawn: BodySpawn)
    requires
        old(snake).wf(),
        old(snake).body_count < usize::MAX,
        forall|i: int| 0 <= i < bodies@.len() ==> (#[trigger] bodies@[i]).pos.center_spec().bounded(),
    ensures
        final(snake).wf(),
        final(snake)@ == old(snake)@.grown(),
        spawned_behind(
            spawn_origin(bodies@, tail_of(bodies@)).0,
            spawn_origin(bodies@, tail_of(bodies@)).1,
            old(snake)@,
            speed,
            spawn,
        ),
{
    let tail = find_tail(bodies);
    let (center, direction) = match tail {
        Some(i) => (bodies[i].pos.center(), bodies[i].body.direction),
        None => (Point::new(), Direction::Up),
    };
    let mut pos = center;
    match direction {
        Direction::Left => {
            pos.x = pos.x + SNAKE_W;
        },
        Direction::Right => {
            pos.x = pos.x - SNAKE_W;
        },
        Direction::Up => {
            pos.y = pos.y + SNAKE_W;
        },
        Direction::Down => {
            pos.y = pos.y - SNAKE_W;
        },
    }
    let w: i64 = W_I as i64;
    let spawn = BodySpawn {
        body: SnakeBody { direction, snake_idx: snake.body_count, pivot_idx: snake.pivot_offset },
        elevation: Elevations::Snake,
        image: Image::SnakeBody,
        rotation: direction.rotation(SPRITE_BASE_ANGLE),
        pos: Rect::from_center(pos.x, pos.y, SNAKE_W, SNAKE_W),
        physics: PhysicsData {
            v: direction.velocity(speed),
            a: Point::new(),
            boundary: Some(Rect::from_center(0, 0, w, w)),
        },
    };
    snake.body_count = snake.body_count + 1;
    spawn
}

/// Moves the shared sprite clock on by `frames` frames; the row wraps
/// round at the end of the sprite sheet.
pub fn animate_snake_bodies(anim: &mut SnakeBodyAnim, frames: u32)
    ensures
        final(anim).frame_ms == old(anim).frame_ms,
        final(anim).frame == (old(anim).frame + frames) % (BODY_SPRITE_ROWS as int),
{
    let sum: u64 = anim.frame as u64 + frames as u64;
    anim.frame = (sum % (BODY_SPRITE_ROWS as u64)) as u32;
}

} // verus!
