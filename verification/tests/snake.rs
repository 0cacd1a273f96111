use snake::direction::Direction;
use snake::event::{Entity, Event, Phase};
use snake::geometry::{PhysicsData, Point, Rect};
use snake::snake::{
    collide_snake, collide_wall, delete_snake, move_snake, new_snake, Key, Snake, SnakeBody, SnakeBodyPos, SnakePos,
};
use snake::snake_body::SnakeBodyAnim;

fn head_at(x: i64, y: i64) -> SnakePos {
    SnakePos { eid: Entity(1), pos: Rect::from_center(x, y, 50, 50), hit_box: Rect::from_center(x, y, 40, 40) }
}

#[test]
fn new_ledger_is_empty() {
    let snake = Snake::new();
    assert_eq!(snake.body_count, 0);
    assert_eq!(snake.pivot_offset, 0);
    assert!(snake.pivots.is_empty());
    assert_eq!(snake.pivot_at(0), None);
}

#[test]
fn ledger_is_indexed_by_offset() {
    let mut snake = Snake::new();
    snake.push_pivot(Point { x: 1, y: 2 }, Direction::Up);
    snake.push_pivot(Point { x: 3, y: 4 }, Direction::Left);
    assert_eq!(snake.pivot_at(0), Some((Point { x: 1, y: 2 }, Direction::Up)));
    assert_eq!(snake.pivot_at(1), Some((Point { x: 3, y: 4 }, Direction::Left)));
    assert_eq!(snake.pivot_at(2), None);
    assert!(snake.evict_front());
    assert_eq!(snake.pivot_offset, 1);
    assert_eq!(snake.pivot_at(0), None);
    assert_eq!(snake.pivot_at(1), Some((Point { x: 3, y: 4 }, Direction::Left)));
    assert!(snake.evict_front());
    assert_eq!(snake.pivot_offset, 2);
    assert!(!snake.evict_front());
    assert_eq!(snake.pivot_offset, 2);
}

#[test]
fn first_turn_attaches_a_body_to_the_head() {
    let mut snake = Snake::new();
    let key = Key { pressed: true, key: 'd' };
    let steer = move_snake(&key, Point { x: 0, y: 0 }, 100, None, &mut snake).unwrap();
    assert_eq!(steer.direction, Direction::Right);
    assert_eq!(steer.body, Some(SnakeBody { direction: Direction::Right, snake_idx: 0, pivot_idx: 0 }));
    assert_eq!(steer.velocity, Point { x: 100, y: 0 });
    assert_eq!(steer.rotation, 90);
    assert_eq!(snake.body_count, 1);
    assert_eq!(snake.pivots.len(), 1);
    assert_eq!(snake.pivots[0], (Point { x: 0, y: 0 }, Direction::Right));
}

#[test]
fn head_turn_appends_pivot_at_head_centre() {
    let mut snake = Snake::new();
    let body = SnakeBody { direction: Direction::Right, snake_idx: 0, pivot_idx: 1 };
    snake.body_count = 1;
    snake.pivot_offset = 1;
    let key = Key { pressed: true, key: 'w' };
    let steer = move_snake(&key, Point { x: 275, y: 275 }, 100, Some(body), &mut snake).unwrap();
    assert_eq!(steer.direction, Direction::Up);
    assert_eq!(steer.body, None);
    assert_eq!(steer.velocity, Point { x: 0, y: -100 });
    assert_eq!(steer.rotation, 0);
    assert_eq!(snake.body_count, 1);
    assert_eq!(snake.pivot_offset, 1);
    assert_eq!(snake.pivot_at(1), Some((Point { x: 275, y: 275 }, Direction::Up)));
}

#[test]
fn first_body_targets_the_most_recent_pivot() {
    let mut snake = Snake::new();
    snake.push_pivot(Point { x: 0, y: 0 }, Direction::Up);
    snake.push_pivot(Point { x: 0, y: -50 }, Direction::Left);
    snake.evict_front();
    let key = Key { pressed: true, key: 's' };
    let steer = move_snake(&key, Point { x: -50, y: -50 }, 100, None, &mut snake).unwrap();
    assert_eq!(steer.body, Some(SnakeBody { direction: Direction::Down, snake_idx: 0, pivot_idx: 1 }));
    assert_eq!(snake.pivots.len(), 2);
}

#[test]
fn same_heading_twice_is_recorded_twice() {
    let mut snake = Snake::new();
    let key = Key { pressed: true, key: 'a' };
    let first = move_snake(&key, Point { x: 0, y: 0 }, 100, None, &mut snake).unwrap();
    let second = move_snake(&key, Point { x: -10, y: 0 }, 100, first.body, &mut snake).unwrap();
    assert_eq!(second.body, None);
    assert_eq!(snake.body_count, 1);
    assert_eq!(snake.pivots.len(), 2);
    assert_eq!(snake.pivots[0], (Point { x: 0, y: 0 }, Direction::Left));
    assert_eq!(snake.pivots[1], (Point { x: -10, y: 0 }, Direction::Left));
}

#[test]
fn released_and_unknown_keys_are_ignored() {
    let mut snake = Snake::new();
    let up = Key { pressed: false, key: 'w' };
    assert_eq!(move_snake(&up, Point { x: 0, y: 0 }, 100, None, &mut snake), None);
    let other = Key { pressed: true, key: 'x' };
    assert_eq!(move_snake(&other, Point { x: 0, y: 0 }, 100, None, &mut snake), None);
    assert_eq!(snake.body_count, 0);
    assert!(snake.pivots.is_empty());
}

#[test]
fn new_snake_rests_on_the_origin() {
    let spawn = new_snake(false, 40);
    assert_eq!(spawn.head.snake.body_count, 0);
    assert_eq!(spawn.head.snake.pivot_offset, 0);
    assert!(spawn.head.snake.pivots.is_empty());
    assert_eq!(spawn.head.hit_box, Rect { cx: 0, cy: 0, w: 40, h: 40 });
    assert_eq!(spawn.head.pos, Rect { cx: 0, cy: 0, w: 50, h: 50 });
    assert_eq!(
        spawn.head.physics,
        PhysicsData {
            v: Point { x: 0, y: 0 },
            a: Point { x: 0, y: 0 },
            boundary: Some(Rect { cx: 0, cy: 0, w: 500, h: 500 }),
        }
    );
    assert_eq!(spawn.head.speed, 100);
    assert_eq!(spawn.head.animation.frames, 8);
    assert_eq!(spawn.head.animation.frame_ms, 150);
    assert!(spawn.head.animation.repeats);
    assert_eq!(spawn.body_anim, Some(SnakeBodyAnim { frame_ms: 150, frame: 0 }));
    assert_eq!(spawn.events, vec![Event::SpawnFruit]);
}

#[test]
fn new_snake_keeps_the_sprite_clock() {
    let spawn = new_snake(true, 40);
    assert_eq!(spawn.body_anim, None);
    assert_eq!(spawn.events, vec![Event::SpawnFruit]);
}

#[test]
fn self_collision_ends_the_game_once() {
    let head = head_at(0, 0);
    let bodies = vec![
        SnakeBodyPos { eid: Entity(1), hit_box: head.hit_box },
        SnakeBodyPos { eid: Entity(2), hit_box: Rect::from_center(10, 0, 40, 40) },
        SnakeBodyPos { eid: Entity(3), hit_box: Rect::from_center(0, 10, 40, 40) },
        SnakeBodyPos { eid: Entity(4), hit_box: Rect::from_center(-5, -5, 40, 40) },
    ];
    let events = collide_snake(&head, &bodies);
    assert_eq!(events, vec![Event::OnExit(Phase::Playing), Event::OnEnter(Phase::GameOver)]);
}

#[test]
fn head_does_not_collide_with_its_own_body() {
    let head = head_at(0, 0);
    let bodies = vec![
        SnakeBodyPos { eid: Entity(1), hit_box: head.hit_box },
        SnakeBodyPos { eid: Entity(2), hit_box: Rect::from_center(50, 0, 40, 40) },
    ];
    assert_eq!(collide_snake(&head, &bodies), vec![]);
    assert_eq!(collide_snake(&head, &vec![]), vec![]);
}

#[test]
fn wall_collision_of_the_head_ends_the_game() {
    let head = head_at(250, 0);
    assert_eq!(
        collide_wall(Entity(1), &head),
        vec![Event::OnExit(Phase::Playing), Event::OnEnter(Phase::GameOver)]
    );
    assert_eq!(collide_wall(Entity(7), &head), vec![]);
}

#[test]
fn leaving_play_removes_every_body() {
    let hb = Rect::from_center(0, 0, 40, 40);
    let bodies = vec![
        SnakeBodyPos { eid: Entity(4), hit_box: hb },
        SnakeBodyPos { eid: Entity(2), hit_box: hb },
        SnakeBodyPos { eid: Entity(9), hit_box: hb },
    ];
    let mut trash = vec![Entity(100)];
    delete_snake(&bodies, &mut trash);
    assert_eq!(trash, vec![Entity(100), Entity(4), Entity(2), Entity(9)]);
}
