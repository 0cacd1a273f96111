//! The snake's head: the log of its turns, steering, and the collisions
//! that end a game.

use std::collections::VecDeque;
use vstd::prelude::*;
use crate::direction::Direction;
use crate::elevations::{Animation, Elevations, Image};
use crate::event::{Entity, Event, Phase};
use crate::geometry::{grid_rect, PhysicsData, Point, Rect, W_I};
use crate::snake_body::{SnakeBodyAnim, SNAKE_W};

verus! {

/// One unit of the snake's body: its heading, its place in the order of
/// spawning, and the index in the log of the turn that it has to reach next.
#[derive(Clone, Copy, Debug, PartialEq, Eq, Structural)]
pub struct SnakeBody {
    pub direction: Direction,
    pub snake_idx: usize,
    pub pivot_idx: usize,
}

/// The data that the head owns: how many body units were spawned, and the
/// retained part of the log of turns. The turn at position `k` of `pivots`
/// has the index `pivot_offset + k` in the log.
pub struct Snake {
    pub body_count: usize,
    pub pivot_offset: usize,
    pub pivots: VecDeque<(Point, Direction)>,
}

/// The mathematical value of a `Snake`.
pub struct SnakeView {
    pub body_count: nat,
    pub pivot_offset: nat,
    pub pivots: Seq<(Point, Direction)>,
}

impl SnakeView {
    /// The index that the next recorded turn will get.
    pub open spec fn end(self) -> nat {
        self.pivot_offset + self.pivots.len()
    }

    /// The turn with index `idx` in the log, if it is retained.
    pub open spec fn pivot(self, idx: int) -> Option<(Point, Direction)> {
        if self.pivot_offset <= idx < self.end() {
            Some(self.pivots[idx - self.pivot_offset])
        } else {
            None
        }
    }

    /// The body unit with this place in the spawning order is the tail.
    pub open spec fn is_tail(self, snake_idx: int) -> bool {
        snake_idx + 1 == self.body_count
    }

    /// The value after a turn was recorded at the back of the log.
    pub open spec fn recorded(self, pos: Point, dir: Direction) -> SnakeView {
        SnakeView { pivots: self.pivots.push((pos, dir)), ..self }
    }

    /// The value after the oldest retained turn was dropped.
    pub open spec fn evicted(self) -> SnakeView {
        SnakeView {
            pivot_offset: self.pivot_offset + 1,
            pivots: self.pivots.drop_first(),
            ..self
        }
    }

    /// The value after one more body unit was spawned.
    pub open spec fn grown(self) -> SnakeView {
        SnakeView { body_count: self.body_count + 1, ..self }
    }
}

impl View for Snake {
    type V = SnakeView;

    open spec fn view(&self) -> SnakeView {
        SnakeView {
            body_count: self.body_count as nat,
            pivot_offset: self.pivot_offset as nat,
            pivots: self.pivots@,
        }
    }
}

impl Snake {
    /// Every index of the log fits the machine, and every retained turn
    /// was made at a position within the coordinate limit.
    pub open spec fn wf(&self) -> bool {
        &&& self@.end() <= usize::MAX
        &&& forall|k: int| 0 <= k < self.pivots@.len() ==> (#[trigger] self.pivots@[k]).0.bounded()
    }

    /// A snake without body units and with an empty log.
    pub fn new() -> (snake: Snake)
        ensures
            snake.wf(),
            snake@ == (SnakeView { body_count: 0, pivot_offset: 0, pivots: Seq::empty() }),
    {
        Snake { body_count: 0, pivot_offset: 0, pivots: VecDeque::new() }
    }

    /// Whether the ledger is well formed.
    pub fn is_wf(&self) -> (ok: bool)
        ensures
            ok == self.wf(),
    {
        if self.pivots.len() > usize::MAX - self.pivot_offset {
            return false;
        }
        let mut k: usize = 0;
        while k < self.pivots.len()
            invariant
                k <= self.pivots@.len(),
                forall|j: int| 0 <= j < k ==> (#[trigger] self.pivots@[j]).0.bounded(),
            decreases self.pivots@.len() - k,
        {
            if !self.pivots[k].0.is_bounded() {
                return false;
            }
            k = k + 1;
        }
        true
    }

    /// Whether one more turn can be recorded without running out of indices.
    pub fn has_room(&self) -> (ok: bool)
        requires
            self.wf(),
        ensures
            ok == (self@.end() < usize::MAX && self.body_count < usize::MAX),
    {
        self.pivot_offset + self.pivots.len() < usize::MAX && self.body_count < usize::MAX
    }

    /// The turn with index `idx` in the log. An index below the retained
    /// part or beyond the last recorded turn gives `None`.
    pub fn pivot_at(&self, idx: usize) -> (pivot: Option<(Point, Direction)>)
        ensures
            pivot == self@.pivot(idx as int),
    {
        if idx < self.pivot_offset {
            return None;
        }
        let local: usize = idx - self.pivot_offset;
        if local < self.pivots.len() {
            Some(self.pivots[local])
        } else {
            None
        }
    }

    /// Records a turn at the back of the log.
    pub fn push_pivot(&mut self, pos: Point, dir: Direction)
        requires
            old(self).wf(),
            pos.bounded(),
            old(self)@.end() < usize::MAX,
        ensures
            final(self).wf(),
            final(self)@ == old(self)@.recorded(pos, dir),
    {
        self.pivots.push_back((pos, dir));
    }

    /// Drops the oldest retained turn, if there is one, and moves the offset
    /// past it.
    pub fn evict_front(&mut self) -> (evicted: bool)
        requires
            old(self).wf(),
        ensures
            final(self).wf(),
            evicted == (old(self)@.pivots.len() > 0),
            final(self)@ == if evicted { old(self)@.evicted() } else { old(self)@ },
    {
        match self.pivots.pop_front() {
            Some(_) => {
                self.pivot_offset = self.pivot_offset + 1;
                true
            },
            None => false,
        }
    }
}

/// A key of the keyboard as the input layer reports it: the character on
/// the key, and whether the key went down (and not up).
#[derive(Clone, Copy, Debug, PartialEq, Eq, Structural)]
pub struct Key {
    pub pressed: bool,
    pub key: char,
}

/// What a turn of the head asks of the entity that carries the head.
#[derive(Clone, Copy, Debug, PartialEq, Eq, Structural)]
pub struct Steer {
    /// The new heading.
    pub direction: Direction,
    /// The body unit to attach to the head itself, at the first turn only.
    pub body: Option<SnakeBody>,
    /// The new velocity of the head.
    pub velocity: Point,
    /// The new rotation of the head's sprite.
    pub rotation: i64,
}

/// The index of the turn that a body unit attached to the head targets:
/// the most recent one, or the first when none was recorded yet.
pub open spec fn head_pivot_idx(snake: SnakeView) -> int {
    if snake.end() >= 1 { snake.end() - 1 } else { 0 }
}

/// The heading that a key event selects: that of the key, when the key went down.
pub open spec fn steering(key: Key) -> Option<Direction> {
    if key.pressed { Direction::of_key(key.key) } else { None }
}

/// What `move_snake` hands back when the key selects the heading `dir`.
pub open spec fn steer_of(dir: Direction, speed: i32, body: Option<SnakeBody>, snake: SnakeView) -> Steer {
    Steer {
        direction: dir,
        body: if body is None {
            Some(
                SnakeBody {
                    direction: dir,
                    snake_idx: snake.body_count as usize,
                    pivot_idx: head_pivot_idx(snake) as usize,
                },
            )
        } else {
            None
        },
        velocity: Point { x: (dir.unit().0 * speed) as i64, y: (dir.unit().1 * speed) as i64 },
        rotation: (dir.angle() - SPRITE_BASE_ANGLE) as i64,
    }
}

/// The ledger after `move_snake` has handled a key that selects `dir`.
pub open spec fn steered(snake: SnakeView, body: Option<SnakeBody>, center: Point, dir: Direction) -> SnakeView {
    if body is None {
        snake.grown().recorded(center, dir)
    } else {
        snake.recorded(center, dir)
    }
}

/// The angle by which the sprites of the snake are drawn turned.
pub const SPRITE_BASE_ANGLE: i32 = 90;

/// The speed of a new snake, in world units per second.
pub const SNAKE_SPEED: i32 = 100;

/// Handles one key event for the head. A key that went down and selects a
/// heading records a turn at the head's centre; at the first turn, when the
/// head carries no body unit yet (`body` is `None`), it also hands back the body
/// unit to attach to the head. Any other key event changes nothing.
pub fn move_snake(key: &Key, center: Point, speed: i32, body: Option<SnakeBody>, snake: &mut Snake) -> (steer: Option<Steer>)
    requires
        old(snake).wf(),
        center.bounded(),
        old(snake)@.end() < usize::MAX,
        body is None ==> old(snake).body_count < usize::MAX,
    ensures
        final(snake).wf(),
        match steering(*key) {
            Some(dir) => {
                &&& steer == Some(steer_of(dir, speed, body, old(snake)@))
                &&& final(snake)@ == steered(old(snake)@, body, center, dir)
            },
            None => steer is None && final(snake)@ == old(snake)@,
        },
{
    if !key.pressed {
        return None;
    }
    let direction = match Direction::from_key(key.key) {
        Some(d) => d,
        None => {
            return None;
        },
    };
    let mut attach: Option<SnakeBody> = None;
    if body.is_none() {
        let end: usize = snake.pivot_offset + snake.pivots.len();
        let pivot_idx: usize = if end >= 1 { end - 1 } else { 0 };
        attach = Some(SnakeBody { direction, snake_idx: snake.body_count, pivot_idx });
        snake.body_count = snake.body_count + 1;
    }
    snake.push_pivot(center, direction);
    Some(
        Steer {
            direction,
            body: attach,
            velocity: direction.velocity(speed),
            rotation: direction.rotation(SPRITE_BASE_ANGLE),
        },
    )
}

/// Number of frames in the sprite sheet of the head.
pub const HEAD_FRAMES: u32 = 8;

/// Milliseconds for which one frame of the head, and one row of the body
/// units' sprite sheet, is shown.
pub const FRAME_MS: u32 = 150;

/// Everything that the head of a new snake is created with.
pub struct HeadSpawn {
    pub snake: Snake,
    pub elevation: Elevations,
    pub image: Image,
    pub animation: Animation,
    pub hit_box: Rect,
    pub pos: Rect,
    pub physics: PhysicsData,
    pub speed: i32,
}

/// What spawning a snake asks for: the head, the shared sprite clock of
/// the body units where there is none yet, and the events to send on.
pub struct NewSnake {
    pub head: HeadSpawn,
    pub body_anim: Option<SnakeBodyAnim>,
    pub events: Vec<Event>,
}

/// Creates the head of a new snake: at rest on the origin, confined to the
/// grid, with no body unit and an empty log. `has_body_anim` says whether the
/// shared sprite clock of the body units exists already; `hit_box_w` is the
/// side of the head's hit-box. Asks for the first fruit.
pub fn new_snake(has_body_anim: bool, hit_box_w: i64) -> (spawn: NewSnake)
    ensures
        spawn.head.snake.wf(),
        spawn.head.snake@ == (SnakeView { body_count: 0, pivot_offset: 0, pivots: Seq::empty() }),
        spawn.head.elevation == Elevations::Snake,
        spawn.head.image == Image::SnakeHead,
        spawn.head.animation == (Animation { frames: HEAD_FRAMES, frame_ms: FRAME_MS, repeats: true }),
        spawn.head.hit_box == (Rect { cx: 0, cy: 0, w: hit_box_w, h: hit_box_w }),
        spawn.head.pos == (Rect { cx: 0, cy: 0, w: SNAKE_W, h: SNAKE_W }),
        spawn.head.physics == (PhysicsData {
            v: Point { x: 0, y: 0 },
            a: Point { x: 0, y: 0 },
            boundary: Some(grid_rect()),
        }),
        spawn.head.speed == SNAKE_SPEED,
        spawn.body_anim == if has_body_anim {
            None
        } else {
            Some(SnakeBodyAnim { frame_ms: FRAME_MS, frame: 0 })
        },
        spawn.events@ == seq![Event::SpawnFruit],
{
    let w: i64 = W_I as i64;
    let head = HeadSpawn {
        snake: Snake::new(),
        elevation: Elevations::Snake,
        image: Image::SnakeHead,
        animation: Animation { frames: HEAD_FRAMES, frame_ms: FRAME_MS, repeats: true },
        hit_box: Rect::from_center(0, 0, hit_box_w, hit_box_w),
        pos: Rect::from_center(0, 0, SNAKE_W, SNAKE_W),
        physics: PhysicsData { v: Point::new(), a: Point::new(), boundary: Some(Rect::from_center(0, 0, w, w)) },
        speed: SNAKE_SPEED,
    };
    let body_anim = if has_body_anim {
        None
    } else {
        Some(SnakeBodyAnim { frame_ms: FRAME_MS, frame: 0 })
    };
    let mut events: Vec<Event> = Vec::new();
    events.push(Event::SpawnFruit);
    NewSnake { head, body_anim, events }
}

/// What the collision checks read of the head: its handle, its rectangle
/// and its hit-box.
#[derive(Clone, Copy, Debug, PartialEq, Eq, Structural)]
pub struct SnakePos {
    pub eid: Entity,
    pub pos: Rect,
    pub hit_box: Rect,
}

/// What the collision checks read of an entity that carries a body unit.
#[derive(Clone, Copy, Debug, PartialEq, Eq, Structural)]
pub struct SnakeBodyPos {
    pub eid: Entity,
    pub hit_box: Rect,
}

/// The two events that end a game, in the order in which they are sent.
pub open spec fn game_over_events() -> Seq<Event> {
    seq![Event::OnExit(Phase::Playing), Event::OnEnter(Phase::GameOver)]
}

/// The hit-box of the head overlaps that of a body unit on another entity.
pub open spec fn bites_itself(snake: SnakePos, bodies: Seq<SnakeBodyPos>) -> bool {
    exists|i: int|
        0 <= i < bodies.len() && (#[trigger] bodies[i]).eid != snake.eid && bodies[i].hit_box.overlaps(
            snake.hit_box,
        )
}

fn end_game() -> (events: Vec<Event>)
    ensures
        events@ == game_over_events(),
{
    let mut events: Vec<Event> = Vec::new();
    events.push(Event::OnExit(Phase::Playing));
    events.push(Event::OnEnter(Phase::GameOver));
    assert(events@ =~= game_over_events());
    events
}

/// Ends the game when the head runs into the body. The entity of the head,
/// which carries a body unit itself, is not compared with the head. However
/// many units the head overlaps, the game is ended once.
pub fn collide_snake(snake: &SnakePos, bodies: &Vec<SnakeBodyPos>) -> (events: Vec<Event>)
    requires
        snake.hit_box.bounded(),
        forall|i: int| 0 <= i < bodies@.len() ==> (#[trigger] bodies@[i]).hit_box.bounded(),
    ensures
        events@ == if bites_itself(*snake, bodies@) {
            game_over_events()
        } else {
            Seq::empty()
        },
{
    let mut i: usize = 0;
    while i < bodies.len()
        invariant
            i <= bodies@.len(),
            snake.hit_box.bounded(),
            forall|j: int| 0 <= j < bodies@.len() ==> (#[trigger] bodies@[j]).hit_box.bounded(),
            forall|j: int|
                0 <= j < i ==> !((#[trigger] bodies@[j]).eid != snake.eid && bodies@[j].hit_box.overlaps(
                    snake.hit_box,
                )),
        decreases bodies@.len() - i,
    {
        if bodies[i].eid != snake.eid && bodies[i].hit_box.intersects(&snake.hit_box) {
            return end_game();
        }
        i = i + 1;
    }
    Vec::new()
}

/// Ends the game when the entity that left its boundary is the head.
pub fn collide_wall(collide: Entity, snake: &SnakePos) -> (events: Vec<Event>)
    ensures
        events@ == if collide == snake.eid {
            game_over_events()
        } else {
            Seq::empty()
        },
{
    if collide == snake.eid {
        end_game()
    } else {
        Vec::new()
    }
}

/// The handles of `bodies`, in order.
pub open spec fn eids(bodies: Seq<SnakeBodyPos>) -> Seq<Entity> {
    Seq::new(bodies.len(), |i: int| bodies[i].eid)
}

/// Marks every entity that carries a body unit for removal, when the
/// playing phase is left.
pub fn delete_snake(bodies: &Vec<SnakeBodyPos>, trash: &mut Vec<Entity>)
    ensures
        final(trash)@ == old(trash)@ + eids(bodies@),
{
    let mut i: usize = 0;
    while i < bodies.len()
        invariant
            i <= bodies@.len(),
            trash@ == old(trash)@ + eids(bodies@).take(i as int),
        decreases bodies@.len() - i,
    {
        trash.push(bodies[i].eid);
        assert(eids(bodies@).take(i + 1) =~= eids(bodies@).take(i as int).push(bodies@[i as int].eid));
        i = i + 1;
    }
    assert(eids(bodies@).take(bodies@.len() as int) =~= eids(bodies@));
}

} // verus!
