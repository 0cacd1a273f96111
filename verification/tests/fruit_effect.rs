use snake::elevations::{Elevations, Image};
use snake::event::Entity;
use snake::fruit_effect::{
    fruit_effect_image, new_fruit_effect, on_remove_fruit, update_fruit_effect, update_fruit_effects, EffectUpdate,
    FruitEffect, FruitEffectFruits, FruitEffectSpawn, FruitEffects,
};
use snake::geometry::{Point, Rect};

fn glow(eid: u64, img: u8, left_before: u32, expired: u32, passed: u32, left: u32) -> FruitEffects {
    FruitEffects {
        eid: Entity(eid),
        effect: FruitEffect { fruit: Entity(50), img },
        pos: Rect::from_center(75, 125, 35, 35),
        left_before,
        expired,
        passed,
        left,
    }
}

#[test]
fn image_path_holds_the_number() {
    assert_eq!(fruit_effect_image(0), "res/snake/fruit_effects_0.png");
    assert_eq!(fruit_effect_image(2), "res/snake/fruit_effects_2.png");
    assert_eq!(fruit_effect_image(9), "res/snake/fruit_effects_9.png");
    assert_eq!(fruit_effect_image(10), "res/snake/fruit_effects_10.png");
    assert_eq!(fruit_effect_image(99), "res/snake/fruit_effects_99.png");
    assert_eq!(fruit_effect_image(100), "res/snake/fruit_effects_100.png");
    assert_eq!(fruit_effect_image(105), "res/snake/fruit_effects_105.png");
    assert_eq!(fruit_effect_image(255), "res/snake/fruit_effects_255.png");
}

#[test]
fn image_path_matches_the_numeral_of_every_number() {
    for i in 0..=255u8 {
        assert_eq!(fruit_effect_image(i), format!("res/snake/fruit_effects_{i}.png"));
    }
}

#[test]
fn new_glow_is_transparent() {
    let spawn = new_fruit_effect(1, Entity(4), Point { x: 25, y: -75 });
    assert_eq!(
        spawn,
        FruitEffectSpawn {
            effect: FruitEffect { fruit: Entity(4), img: 1 },
            timer_ms: 2000,
            elevation: Elevations::FruitEffect,
            image: Image::FruitEffect(1),
            alpha: 0,
            pos: Rect { cx: 25, cy: -75, w: 35, h: 35 },
        }
    );
}

#[test]
fn glow_fades_in_and_out() {
    let alpha = |passed: u32, left: u32| match update_fruit_effect(&glow(1, 0, left + 16, 0, passed, left)) {
        EffectUpdate::Fade { alpha, .. } => alpha,
        EffectUpdate::Expired => panic!("the glow has not run out"),
    };
    assert_eq!(alpha(0, 2000), 0);
    assert_eq!(alpha(100, 1900), 63);
    assert_eq!(alpha(200, 1800), 127);
    assert_eq!(alpha(399, 1601), 254);
    assert_eq!(alpha(400, 1600), 255);
    assert_eq!(alpha(1000, 1000), 255);
    assert_eq!(alpha(1600, 400), 255);
    assert_eq!(alpha(1800, 200), 127);
    assert_eq!(alpha(1999, 1), 0);
    assert_eq!(alpha(2000, 0), 0);
}

#[test]
fn glow_is_followed_by_the_next_one() {
    let update = update_fruit_effect(&glow(1, 0, 210, 0, 1800, 200));
    let next = FruitEffectSpawn {
        effect: FruitEffect { fruit: Entity(50), img: 1 },
        timer_ms: 2000,
        elevation: Elevations::FruitEffect,
        image: Image::FruitEffect(1),
        alpha: 0,
        pos: Rect { cx: 75, cy: 125, w: 35, h: 35 },
    };
    assert_eq!(update, EffectUpdate::Fade { alpha: 127, next: Some(next) });
}

#[test]
fn next_glow_number_wraps_round() {
    let number = |img: u8| match update_fruit_effect(&glow(1, img, 201, 0, 1801, 199)) {
        EffectUpdate::Fade { next: Some(next), .. } => next.effect.img,
        _ => panic!("the glow is followed by the next one"),
    };
    assert_eq!(number(0), 1);
    assert_eq!(number(1), 2);
    assert_eq!(number(2), 0);
    assert_eq!(number(255), 1);
}

#[test]
fn glow_starts_the_next_one_once() {
    // Before the threshold.
    assert_eq!(update_fruit_effect(&glow(1, 0, 250, 0, 1799, 201)), EffectUpdate::Fade { alpha: 128, next: None });
    // After it was crossed.
    assert_eq!(update_fruit_effect(&glow(1, 0, 200, 0, 1816, 184)), EffectUpdate::Fade { alpha: 117, next: None });
}

#[test]
fn expired_glow_is_removed() {
    assert_eq!(update_fruit_effect(&glow(1, 0, 10, 1, 0, 2000)), EffectUpdate::Expired);
    assert_eq!(update_fruit_effect(&glow(1, 0, 300, 6, 6, 1994)), EffectUpdate::Expired);
}

#[test]
fn frame_of_all_glows() {
    let effects = vec![glow(1, 0, 2000, 0, 16, 1984), glow(2, 1, 10, 1, 6, 1994), glow(3, 2, 208, 0, 1808, 192)];
    let mut trash = vec![Entity(77)];
    let updates = update_fruit_effects(&effects, &mut trash);
    assert_eq!(trash, vec![Entity(77), Entity(2)]);
    assert_eq!(updates.len(), 3);
    assert_eq!(updates[0], EffectUpdate::Fade { alpha: 10, next: None });
    assert_eq!(updates[1], EffectUpdate::Expired);
    assert_eq!(
        updates[2],
        EffectUpdate::Fade {
            alpha: 122,
            next: Some(new_fruit_effect(0, Entity(50), Point { x: 75, y: 125 })),
        }
    );
}

#[test]
fn glows_go_with_their_fruit() {
    let effects = vec![
        FruitEffectFruits { eid: Entity(10), effect: FruitEffect { fruit: Entity(1), img: 0 } },
        FruitEffectFruits { eid: Entity(11), effect: FruitEffect { fruit: Entity(2), img: 1 } },
        FruitEffectFruits { eid: Entity(12), effect: FruitEffect { fruit: Entity(1), img: 1 } },
    ];
    let mut trash = Vec::new();
    on_remove_fruit(Entity(1), &effects, &mut trash);
    assert_eq!(trash, vec![Entity(10), Entity(12)]);
    on_remove_fruit(Entity(3), &effects, &mut trash);
    assert_eq!(trash, vec![Entity(10), Entity(12)]);
}
