use snake::elevations::Elevations;
use snake::event::{Entity, Event, Phase};
use snake::geometry::Rect;
use snake::phase::{create_bkgrnd, game_over, init, restart, Caption, TextLine};
use snake::snake::Key;
use snake::stage::{Kind, Stage};

#[test]
fn game_starts_by_entering_play() {
    assert_eq!(init(), vec![Event::SetState(Phase::Playing)]);
}

#[test]
fn background_has_a_square_for_every_cell() {
    let background = create_bkgrnd(false).unwrap();
    assert_eq!(background.elevation, Elevations::Background);
    assert_eq!(background.pos, Rect { cx: 0, cy: 0, w: 500, h: 500 });
    assert_eq!(background.border, 2);
    assert_eq!(background.squares.len(), 100);
    assert_eq!(background.squares[0], Rect { cx: 25, cy: 25, w: 50, h: 50 });
    assert_eq!(background.squares[1], Rect { cx: 25, cy: 75, w: 50, h: 50 });
    assert_eq!(background.squares[10], Rect { cx: 75, cy: 25, w: 50, h: 50 });
    assert_eq!(background.squares[57], Rect { cx: 275, cy: 375, w: 50, h: 50 });
    assert_eq!(background.squares[99], Rect { cx: 475, cy: 475, w: 50, h: 50 });
}

#[test]
fn background_is_created_once() {
    assert!(create_bkgrnd(true).is_none());
}

#[test]
fn game_over_screen_is_shown_once() {
    let screen = game_over(false).unwrap();
    assert_eq!(screen.elevation, Elevations::GameOverScreen);
    assert_eq!(screen.pos, Rect { cx: 0, cy: 0, w: 500, h: 500 });
    assert_eq!(screen.shade, 64);
    assert_eq!(screen.title, TextLine { caption: Caption::GameOver, width: 166, above: true });
    assert_eq!(screen.hint, TextLine { caption: Caption::PressRestart, width: 250, above: false });
    assert_eq!(game_over(true), None);
}

#[test]
fn captions_have_their_words() {
    assert_eq!(Caption::GameOver.text(), "Game Over!");
    assert_eq!(Caption::PressRestart.text(), "Press 'r' to restart");
}

#[test]
fn restart_needs_the_screen() {
    let r = Key { pressed: true, key: 'r' };
    assert_eq!(restart(&r, true), vec![Event::OnExit(Phase::GameOver), Event::OnEnter(Phase::Playing)]);
    assert_eq!(restart(&r, false), vec![]);
    assert_eq!(restart(&Key { pressed: true, key: 'w' }, true), vec![]);
    assert_eq!(restart(&Key { pressed: true, key: 'R' }, true), vec![]);
}

#[test]
fn first_game_has_one_head_and_one_fruit() {
    let mut stage = Stage::new();
    assert_eq!(stage.set_state(Phase::Playing), vec![Event::OnEnter(Phase::Playing)]);
    assert_eq!(stage.enter(Phase::Playing), vec![Event::SpawnBackground, Event::SpawnSnake]);
    assert!(stage.accepts(&Event::SpawnBackground));
    assert!(stage.add(Kind::Background, Entity(0)));
    assert!(!stage.accepts(&Event::SpawnBackground));
    assert!(stage.add(Kind::Head, Entity(1)));
    assert!(stage.add(Kind::Fruit, Entity(2)));
    assert_eq!(stage.phase, Some(Phase::Playing));
    assert_eq!(stage.head, Some(Entity(1)));
    assert_eq!(stage.fruits, vec![Entity(2)]);
    assert!(stage.bodies.is_empty());
    assert!(stage.trash.is_empty());
}

#[test]
fn restart_clears_the_last_game() {
    let mut stage = Stage::new();
    stage.enter(Phase::Playing);
    stage.add(Kind::Background, Entity(0));
    stage.add(Kind::Head, Entity(1));
    stage.add(Kind::Fruit, Entity(2));
    stage.add(Kind::Effect, Entity(3));
    stage.add(Kind::Body, Entity(4));
    stage.add(Kind::Body, Entity(5));

    // The head runs into its body.
    assert!(stage.exit(Phase::Playing));
    assert_eq!(stage.phase, None);
    assert!(stage.bodies.is_empty());
    assert_eq!(stage.trash, vec![Entity(4), Entity(5)]);
    assert_eq!(stage.enter(Phase::GameOver), vec![]);
    assert!(!stage.has_screen());
    stage.add(Kind::Screen, Entity(6));
    stage.add(Kind::Death, Entity(7));
    stage.add(Kind::Death, Entity(8));
    assert!(stage.has_screen());
    assert_eq!(stage.commit(), vec![Entity(4), Entity(5)]);
    assert!(stage.trash.is_empty());

    // The restart key.
    assert_eq!(stage.set_state(Phase::Playing), vec![Event::OnExit(Phase::GameOver), Event::OnEnter(Phase::Playing)]);
    assert!(stage.exit(Phase::GameOver));
    assert_eq!(stage.trash, vec![Entity(6), Entity(7), Entity(8)]);
    assert_eq!(stage.enter(Phase::Playing), vec![Event::SpawnSnake]);
    assert_eq!(stage.trash, vec![Entity(6), Entity(7), Entity(8), Entity(1), Entity(2), Entity(3)]);
    stage.add(Kind::Head, Entity(9));
    stage.add(Kind::Fruit, Entity(10));
    assert_eq!(stage.head, Some(Entity(9)));
    assert_eq!(stage.fruits, vec![Entity(10)]);
    assert!(stage.bodies.is_empty());
    assert!(stage.effects.is_empty());
    assert!(stage.deaths.is_empty());
    assert_eq!(stage.screen, None);
    assert_eq!(stage.background, Some(Entity(0)));
    assert!(stage.has_background());
}

#[test]
fn entering_play_on_an_empty_stage_destroys_nothing() {
    let mut stage = Stage::new();
    stage.add(Kind::Background, Entity(0));
    assert_eq!(stage.enter(Phase::Playing), vec![Event::SpawnSnake]);
    assert!(stage.trash.is_empty());
    assert_eq!(stage.head, None);
    assert!(stage.fruits.is_empty());
    assert_eq!(stage.background, Some(Entity(0)));
    // Entering the active phase again asks for nothing.
    stage.add(Kind::Head, Entity(1));
    assert_eq!(stage.enter(Phase::Playing), vec![]);
    assert_eq!(stage.head, Some(Entity(1)));
}

#[test]
fn second_game_over_in_a_frame_is_ignored() {
    let mut stage = Stage::new();
    stage.enter(Phase::Playing);
    stage.add(Kind::Body, Entity(4));
    assert!(stage.exit(Phase::Playing));
    assert_eq!(stage.enter(Phase::GameOver), vec![]);
    stage.add(Kind::Screen, Entity(6));
    // The same two events once more: nothing changes.
    assert!(!stage.exit(Phase::Playing));
    assert_eq!(stage.enter(Phase::GameOver), vec![]);
    assert_eq!(stage.phase, Some(Phase::GameOver));
    assert_eq!(stage.screen, Some(Entity(6)));
    assert_eq!(stage.trash, vec![Entity(4)]);
}

#[test]
fn there_is_one_head_one_screen_one_background() {
    let mut stage = Stage::new();
    assert!(stage.add(Kind::Head, Entity(1)));
    assert!(!stage.add(Kind::Head, Entity(2)));
    assert!(stage.add(Kind::Screen, Entity(3)));
    assert!(!stage.add(Kind::Screen, Entity(4)));
    assert!(stage.add(Kind::Background, Entity(5)));
    assert!(!stage.add(Kind::Background, Entity(6)));
    assert_eq!(stage.head, Some(Entity(1)));
    assert_eq!(stage.screen, Some(Entity(3)));
    assert_eq!(stage.background, Some(Entity(5)));
    assert_eq!(stage.trash, vec![Entity(2), Entity(4), Entity(6)]);
}

#[test]
fn destroyed_entity_goes_to_the_trash_once() {
    let mut stage = Stage::new();
    stage.add(Kind::Fruit, Entity(2));
    stage.add(Kind::Effect, Entity(3));
    stage.add(Kind::Effect, Entity(4));
    stage.add(Kind::Head, Entity(1));
    assert!(stage.destroy(Entity(2)));
    assert!(stage.destroy(Entity(4)));
    assert!(!stage.destroy(Entity(2)));
    assert!(!stage.destroy(Entity(99)));
    assert!(stage.fruits.is_empty());
    assert_eq!(stage.effects, vec![Entity(3)]);
    assert_eq!(stage.head, Some(Entity(1)));
    assert_eq!(stage.trash, vec![Entity(2), Entity(4)]);
    assert!(stage.destroy(Entity(1)));
    assert_eq!(stage.head, None);
    assert_eq!(stage.commit(), vec![Entity(2), Entity(4), Entity(1)]);
    assert_eq!(stage.commit(), vec![]);
}

#[test]
fn events_are_handled_in_their_phase_only() {
    let mut stage = Stage::new();
    assert!(!stage.accepts(&Event::SpawnSnake));
    assert!(!stage.accepts(&Event::SpawnFruit));
    assert!(!stage.accepts(&Event::EatFruit(Entity(2))));
    assert!(!stage.accepts(&Event::OnExit(Phase::Playing)));
    assert!(stage.accepts(&Event::OnEnter(Phase::Playing)));
    assert!(stage.accepts(&Event::SetState(Phase::GameOver)));
    stage.enter(Phase::Playing);
    assert!(stage.accepts(&Event::SpawnSnake));
    assert!(stage.accepts(&Event::SpawnFruit));
    assert!(stage.accepts(&Event::EatFruit(Entity(2))));
    assert!(stage.accepts(&Event::OnExit(Phase::Playing)));
    assert!(!stage.accepts(&Event::OnExit(Phase::GameOver)));
    assert!(!stage.accepts(&Event::OnEnter(Phase::Playing)));
    assert!(stage.accepts(&Event::OnEnter(Phase::GameOver)));
    stage.exit(Phase::Playing);
    stage.enter(Phase::GameOver);
    // What the dying snake still ate is dropped.
    assert!(!stage.accepts(&Event::EatFruit(Entity(2))));
    assert!(!stage.accepts(&Event::SpawnFruit));
    assert!(!stage.accepts(&Event::OnExit(Phase::Playing)));
    assert!(!stage.accepts(&Event::OnEnter(Phase::GameOver)));
}
