//! Fruit: placing a new one on a square that the head does not occupy, and
//! noticing that the head has reached one.

use rand::Rng;
use vstd::prelude::*;
use crate::elevations::{Elevations, Image};
use crate::event::{Entity, Event};
use crate::fruit_effect::{effect_spawn, new_fruit_effect, FruitEffectSpawn, N_EFFECTS};
use crate::geometry::{
    centre_of, lemma_square_round_trip, pos_to_square, square_of, square_to_pos, Point, Rect, N_SQUARES,
};
use crate::snake::SnakePos;

verus! {

/// Side of a fruit, in world units.
pub const FRUIT_W: i64 = 25;

/// Number of squares drawn at random before the squares are searched in order.
pub const MAX_DRAWS: u32 = 64;

/// Draws a number below `bound`, each with the same chance, from
/// `gen_range` of the crate `rand` on the generator of the current thread.
/// Nothing is claimed of the number but its range; an empty range, on
/// which `gen_range` panics, is excluded.
#[verifier::external_body]
fn random_below(bound: u32) -> (n: u32)
    requires
        bound > 0,
    ensures
        n < bound,
{
    rand::thread_rng().gen_range(0..bound)
}

/// The cell lies on the playing grid.
pub open spec fn on_grid(cell: Point) -> bool {
    0 <= cell.x < N_SQUARES && 0 <= cell.y < N_SQUARES
}

/// The square with column `x` and row `y`, unless it is the one that `taken` names.
pub fn free_square(taken: Point, x: u32, y: u32) -> (cell: Option<Point>)
    ensures
        cell == if taken == (Point { x: x as i64, y: y as i64 }) {
            None
        } else {
            Some(Point { x: x as i64, y: y as i64 })
        },
{
    let cell = Point { x: x as i64, y: y as i64 };
    if cell == taken {
        None
    } else {
        Some(cell)
    }
}

/// The first square of the grid, going down the first column, that is
/// not `taken`.
pub fn first_free_square(taken: Point) -> (cell: Point)
    ensures
        cell == if taken == (Point { x: 0, y: 0 }) {
            Point { x: 0, y: 1 }
        } else {
            Point { x: 0, y: 0 }
        },
        on_grid(cell),
        cell != taken,
{
    match free_square(taken, 0, 0) {
        Some(cell) => cell,
        None => Point { x: 0, y: 1 },
    }
}

/// A square of the grid other than `taken`, drawn at random. After
/// `MAX_DRAWS` draws that all gave `taken`, the first free square in order
/// is used.
pub fn pick_square(taken: Point) -> (cell: Point)
    ensures
        on_grid(cell),
        cell != taken,
{
    let mut draws: u32 = 0;
    while draws < MAX_DRAWS
        invariant
            draws <= MAX_DRAWS,
        decreases MAX_DRAWS - draws,
    {
        let x = random_below(N_SQUARES);
        let y = random_below(N_SQUARES);
        match free_square(taken, x, y) {
            Some(cell) => {
                return cell;
            },
            None => {},
        }
        draws = draws + 1;
    }
    first_free_square(taken)
}

/// Everything that a new fruit is created with, and the first glow around it.
#[derive(Clone, Copy, Debug, PartialEq, Eq, Structural)]
pub struct FruitSpawn {
    pub elevation: Elevations,
    pub image: Image,
    pub pos: Rect,
    pub effect: FruitEffectSpawn,
}

/// `spawn` is the fruit with the handle `fruit` in the middle of the square
/// `cell`, with glow number `img` around it.
pub open spec fn fruit_on(spawn: FruitSpawn, cell: Point, img: u8, fruit: Entity, camera: Point) -> bool {
    &&& spawn.elevation == Elevations::Fruit
    &&& spawn.image == Image::Fruit
    &&& (spawn.pos.cx as int, spawn.pos.cy as int) == centre_of(cell, camera)
    &&& spawn.pos.w == FRUIT_W
    &&& spawn.pos.h == FRUIT_W
    &&& spawn.effect == effect_spawn(img, fruit, spawn.pos.center_spec())
}

/// The fruit with the handle `fruit` in the middle of the square `cell`, with
/// glow number `img` around it.
pub fn place_fruit(cell: Point, img: u8, fruit: Entity, camera: Point) -> (spawn: FruitSpawn)
    requires
        cell.bounded(),
        camera.bounded(),
    ensures
        fruit_on(spawn, cell, img, fruit, camera),
{
    let pos = square_to_pos(cell, camera);
    FruitSpawn {
        elevation: Elevations::Fruit,
        image: Image::Fruit,
        pos: Rect::from_center(pos.x, pos.y, FRUIT_W, FRUIT_W),
        effect: new_fruit_effect(img, fruit, pos),
    }
}

/// The square of the grid that holds the centre of `spawn`.
pub open spec fn fruit_square(spawn: FruitSpawn, camera: Point) -> (int, int) {
    square_of(spawn.pos.center_spec(), camera)
}

/// Places a new fruit, with the handle `fruit`, in the middle of a square of
/// the grid drawn at random among those that do not hold the centre of the
/// head, and surrounds it with a glow drawn at random.
pub fn new_fruit(fruit: Entity, snake: &SnakePos, camera: Point) -> (spawn: FruitSpawn)
    requires
        snake.pos.center_spec().bounded(),
        camera.bounded(),
    ensures
        0 <= fruit_square(spawn, camera).0 < N_SQUARES,
        0 <= fruit_square(spawn, camera).1 < N_SQUARES,
        fruit_square(spawn, camera) != square_of(snake.pos.center_spec(), camera),
        spawn.effect.effect.img < N_EFFECTS,
        fruit_on(
            spawn,
            Point { x: fruit_square(spawn, camera).0 as i64, y: fruit_square(spawn, camera).1 as i64 },
            spawn.effect.effect.img,
            fruit,
            camera,
        ),
{
    let snake_pos = pos_to_square(snake.pos.center(), camera);
    let cell = pick_square(snake_pos);
    let img: u8 = random_below(N_EFFECTS as u32) as u8;
    let spawn = place_fruit(cell, img, fruit, camera);
    proof {
        lemma_square_round_trip(cell, camera, spawn.pos.center_spec());
    }
    spawn
}

/// What the collision check reads of a fruit.
#[derive(Clone, Copy, Debug, PartialEq, Eq, Structural)]
pub struct FruitPos {
    pub eid: Entity,
    pub pos: Rect,
}

/// The handles of the fruits of `fruits` that overlap `hit_box`, in order.
pub open spec fn eaten(fruits: Seq<FruitPos>, hit_box: Rect) -> Seq<Entity> {
    fruits.filter(|f: FruitPos| f.pos.overlaps(hit_box)).map_values(|f: FruitPos| f.eid)
}

/// The events for the eaten fruits `eids`: for each one in order, that it
/// was eaten and that a new fruit is to be placed.
pub open spec fn eat_events(eids: Seq<Entity>) -> Seq<Event>
    decreases eids.len(),
{
    if eids.len() == 0 {
        Seq::empty()
    } else {
        eat_events(eids.drop_last()).push(Event::EatFruit(eids.last())).push(Event::SpawnFruit)
    }
}

/// Lets the head eat every fruit that its hit-box overlaps: the fruit is
/// marked for removal, the snake is told to grow, and a new fruit is asked for.
pub fn collide_fruit(fruits: &Vec<FruitPos>, snake: &SnakePos, trash: &mut Vec<Entity>) -> (events: Vec<Event>)
    requires
        snake.hit_box.bounded(),
        forall|i: int| 0 <= i < fruits@.len() ==> (#[trigger] fruits@[i]).pos.bounded(),
    ensures
        final(trash)@ == old(trash)@ + eaten(fruits@, snake.hit_box),
        events@ == eat_events(eaten(fruits@, snake.hit_box)),
{
    let mut events: Vec<Event> = Vec::new();
    let mut i: usize = 0;
    while i < fruits.len()
        invariant
            i <= fruits@.len(),
            snake.hit_box.bounded(),
            forall|j: int| 0 <= j < fruits@.len() ==> (#[trigger] fruits@[j]).pos.bounded(),
            trash@ == old(trash)@ + eaten(fruits@.take(i as int), snake.hit_box),
            events@ == eat_events(eaten(fruits@.take(i as int), snake.hit_box)),
        decreases fruits@.len() - i,
    {
        proof {
            lemma_eaten_push(fruits@.take(i as int), fruits@[i as int], snake.hit_box);
            assert(fruits@.take(i + 1) == fruits@.take(i as int).push(fruits@[i as int]));
        }
        if fruits[i].pos.intersects(&snake.hit_box) {
            trash.push(fruits[i].eid);
            events.push(Event::EatFruit(fruits[i].eid));
            events.push(Event::SpawnFruit);
            proof {
                let ghost before = eaten(fruits@.take(i as int), snake.hit_box);
                assert(before.push(fruits@[i as int].eid).drop_last() == before);
            }
        }
        i = i + 1;
    }
    proof {
        assert(fruits@.take(fruits@.len() as int) == fruits@);
    }
    events
}

/// Appending a fruit to a sequence appends its handle to the eaten ones
/// exactly when it overlaps the hit-box.
pub proof fn lemma_eaten_push(fruits: Seq<FruitPos>, f: FruitPos, hit_box: Rect)
    ensures
        eaten(fruits.push(f), hit_box) == if f.pos.overlaps(hit_box) {
            eaten(fruits, hit_box).push(f.eid)
        } else {
            eaten(fruits, hit_box)
        },
{
    let pred = |f: FruitPos| f.pos.overlaps(hit_box);
    assert(fruits.push(f).drop_last() == fruits);
    reveal(Seq::filter);
    assert(fruits.push(f).filter(pred) == if pred(f) { fruits.filter(pred).push(f) } else { fruits.filter(pred) });
    if pred(f) {
        assert(fruits.filter(pred).push(f).map_values(|f: FruitPos| f.eid) =~= fruits.filter(pred).map_values(
            |f: FruitPos| f.eid,
        ).push(f.eid));
    }
}

} // verus!
