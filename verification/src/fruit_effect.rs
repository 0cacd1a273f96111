//! The glow around a fruit: a short-lived entity that fades in and out and
//! is followed by the next glow shortly before it ends.

use vstd::prelude::*;
use vstd::string::*;
use crate::elevations::{Elevations, Image};
use crate::event::Entity;
use crate::geometry::{Point, Rect};

verus! {

/// Number of different glows.
pub const N_EFFECTS: u8 = 3;

/// Milliseconds that a glow lasts.
pub const EFFECT_MS: u32 = 2000;

/// Remaining milliseconds at which a glow starts the one that follows it.
pub const EFFECT_OVERLAP_MS: u32 = 200;

/// Milliseconds over which a glow fades in, and out.
pub const EFFECT_FADE_MS: u32 = 400;

/// Side of a glow, in world units.
pub const EFFECT_W: i64 = 35;

/// The decimal digit for a number below ten.
pub open spec fn digit_char(d: nat) -> char {
    if d == 0 {
        '0'
    } else if d == 1 {
        '1'
    } else if d == 2 {
        '2'
    } else if d == 3 {
        '3'
    } else if d == 4 {
        '4'
    } else if d == 5 {
        '5'
    } else if d == 6 {
        '6'
    } else if d == 7 {
        '7'
    } else if d == 8 {
        '8'
    } else {
        '9'
    }
}

/// The decimal numeral of `n`, without leading zeros.
pub open spec fn decimal(n: nat) -> Seq<char>
    decreases n,
{
    if n < 10 {
        seq![digit_char(n)]
    } else {
        decimal(n / 10).push(digit_char(n % 10))
    }
}

/// The path of the picture of glow number `i`.
pub open spec fn effect_image_path(i: u8) -> Seq<char> {
    "res/snake/fruit_effects_"@ + decimal(i as nat) + ".png"@
}

fn digit_str(d: u8) -> (s: &'static str)
    requires
        d < 10,
    ensures
        s@ == seq![digit_char(d as nat)],
{
    proof {
        reveal_strlit("0");
        reveal_strlit("1");
        reveal_strlit("2");
        reveal_strlit("3");
        reveal_strlit("4");
        reveal_strlit("5");
        reveal_strlit("6");
        reveal_strlit("7");
        reveal_strlit("8");
        reveal_strlit("9");
    }
    let s = if d == 0 {
        "0"
    } else if d == 1 {
        "1"
    } else if d == 2 {
        "2"
    } else if d == 3 {
        "3"
    } else if d == 4 {
        "4"
    } else if d == 5 {
        "5"
    } else if d == 6 {
        "6"
    } else if d == 7 {
        "7"
    } else if d == 8 {
        "8"
    } else {
        "9"
    };
    assert(s@ =~= seq![digit_char(d as nat)]);
    s
}

/// The path of the picture of glow number `i`.
pub fn fruit_effect_image(i: u8) -> (path: String)
    ensures
        path@ == effect_image_path(i),
{
    let mut path = String::from_str("res/snake/fruit_effects_");
    let ghost prefix = path@;
    if i >= 100 {
        path.append(digit_str(i / 100));
    }
    if i >= 10 {
        path.append(digit_str((i / 10) % 10));
    }
    path.append(digit_str(i % 10));
    proof {
        let n = i as nat;
        reveal_with_fuel(decimal, 3);
        if n >= 100 {
            assert((n / 10) / 10 == n / 100);
            assert(decimal(n) =~= seq![digit_char(n / 100), digit_char((n / 10) % 10), digit_char(n % 10)]);
        } else if n >= 10 {
            assert(decimal(n) =~= seq![digit_char(n / 10), digit_char(n % 10)]);
        }
        assert(path@ =~= prefix + decimal(n));
    }
    path.append(".png");
    path
}

/// A glow: the fruit that it surrounds, and the number of its picture.
#[derive(Clone, Copy, Debug, PartialEq, Eq, Structural)]
pub struct FruitEffect {
    pub fruit: Entity,
    pub img: u8,
}

/// Everything that a new glow is created with.
#[derive(Clone, Copy, Debug, PartialEq, Eq, Structural)]
pub struct FruitEffectSpawn {
    pub effect: FruitEffect,
    pub timer_ms: u32,
    pub elevation: Elevations,
    pub image: Image,
    pub alpha: u8,
    pub pos: Rect,
}

/// The glow number `img` around `fruit`, centred at `pos`.
pub open spec fn effect_spawn(img: u8, fruit: Entity, pos: Point) -> FruitEffectSpawn {
    FruitEffectSpawn {
        effect: FruitEffect { fruit, img },
        timer_ms: EFFECT_MS,
        elevation: Elevations::FruitEffect,
        image: Image::FruitEffect(img),
        alpha: 0,
        pos: Rect { cx: pos.x, cy: pos.y, w: EFFECT_W, h: EFFECT_W },
    }
}

/// Everything that glow number `img` around `fruit`, centred at `pos`, is
/// created with: transparent, and with its timer at the start.
pub fn new_fruit_effect(img: u8, fruit: Entity, pos: Point) -> (spawn: FruitEffectSpawn)
    ensures
        spawn == effect_spawn(img, fruit, pos),
{
    FruitEffectSpawn {
        effect: FruitEffect { fruit, img },
        timer_ms: EFFECT_MS,
        elevation: Elevations::FruitEffect,
        image: Image::FruitEffect(img),
        alpha: 0,
        pos: Rect::from_center(pos.x, pos.y, EFFECT_W, EFFECT_W),
    }
}

/// What the per-frame update reads of one glow: its handle, the glow, its
/// rectangle, and what its timer said in this frame. The timer was asked
/// for the time left, then moved on by the frame's time, which gave
/// `expired` (not zero once the timer has run out), then asked for the
/// time passed and left again.
#[derive(Clone, Copy, Debug, PartialEq, Eq, Structural)]
pub struct FruitEffects {
    pub eid: Entity,
    pub effect: FruitEffect,
    pub pos: Rect,
    pub left_before: u32,
    pub expired: u32,
    pub passed: u32,
    pub left: u32,
}

/// What one frame makes of a glow.
#[derive(Clone, Copy, Debug, PartialEq, Eq, Structural)]
pub enum EffectUpdate {
    /// The glow has run out and is removed.
    Expired,
    /// The glow is drawn with `alpha`; `next`, if any, is the glow that follows it.
    Fade { alpha: u8, next: Option<FruitEffectSpawn> },
}

/// The opacity of a glow: it rises over the first `EFFECT_FADE_MS`
/// milliseconds of the glow and falls over its last.
pub open spec fn fade_alpha(passed: u32, left: u32) -> int {
    let near = if passed <= left { passed } else { left };
    let t = if near <= EFFECT_FADE_MS { near } else { EFFECT_FADE_MS };
    t * 255 / (EFFECT_FADE_MS as int)
}

/// The number of the glow that follows glow number `img`.
pub open spec fn next_img(img: u8) -> int {
    (img + 1) % (N_EFFECTS as int)
}

/// What one frame makes of the glow `e`.
pub open spec fn effect_update(e: FruitEffects) -> EffectUpdate {
    if e.expired > 0 {
        EffectUpdate::Expired
    } else {
        EffectUpdate::Fade {
            alpha: fade_alpha(e.passed, e.left) as u8,
            next: if e.left_before > EFFECT_OVERLAP_MS && e.left <= EFFECT_OVERLAP_MS {
                Some(effect_spawn(next_img(e.effect.img) as u8, e.effect.fruit, e.pos.center_spec()))
            } else {
                None
            },
        }
    }
}

/// The opacity of a glow is at most the full one.
pub proof fn lemma_fade_alpha_range(passed: u32, left: u32)
    ensures
        0 <= fade_alpha(passed, left) <= 255,
        passed >= EFFECT_FADE_MS && left >= EFFECT_FADE_MS ==> fade_alpha(passed, left) == 255,
        passed == 0 || left == 0 ==> fade_alpha(passed, left) == 0,
{
}

/// One frame of one glow.
pub fn update_fruit_effect(e: &FruitEffects) -> (update: EffectUpdate)
    ensures
        update == effect_update(*e),
{
    if e.expired > 0 {
        return EffectUpdate::Expired;
    }
    let near: u32 = if e.passed <= e.left { e.passed } else { e.left };
    let t: u32 = if near <= EFFECT_FADE_MS { near } else { EFFECT_FADE_MS };
    let alpha: u8 = (t * 255 / EFFECT_FADE_MS) as u8;
    let next = if e.left_before > EFFECT_OVERLAP_MS && e.left <= EFFECT_OVERLAP_MS {
        let img: u8 = ((e.effect.img as u16 + 1) % (N_EFFECTS as u16)) as u8;
        Some(new_fruit_effect(img, e.effect.fruit, e.pos.center()))
    } else {
        None
    };
    EffectUpdate::Fade { alpha, next }
}

/// The handles of the glows of `effects` that have run out, in order.
pub open spec fn expired_effects(effects: Seq<FruitEffects>) -> Seq<Entity> {
    effects.filter(|e: FruitEffects| e.expired > 0).map_values(|e: FruitEffects| e.eid)
}

/// One frame of all glows. The glows that have run out are marked for removal.
pub fn update_fruit_effects(effects: &Vec<FruitEffects>, trash: &mut Vec<Entity>) -> (updates: Vec<EffectUpdate>)
    ensures
        updates@ == effects@.map_values(|e: FruitEffects| effect_update(e)),
        final(trash)@ == old(trash)@ + expired_effects(effects@),
{
    let mut updates: Vec<EffectUpdate> = Vec::new();
    let mut i: usize = 0;
    while i < effects.len()
        invariant
            i <= effects@.len(),
            updates@ == effects@.take(i as int).map_values(|e: FruitEffects| effect_update(e)),
            trash@ == old(trash)@ + expired_effects(effects@.take(i as int)),
        decreases effects@.len() - i,
    {
        let update = update_fruit_effect(&effects[i]);
        proof {
            let ghost head = effects@.take(i as int);
            assert(effects@.take(i + 1) == head.push(effects@[i as int]));
            lemma_expired_push(head, effects@[i as int]);
            assert(head.push(effects@[i as int]).map_values(|e: FruitEffects| effect_update(e)) =~= head.map_values(
                |e: FruitEffects| effect_update(e),
            ).push(effect_update(effects@[i as int])));
        }
        if effects[i].expired > 0 {
            trash.push(effects[i].eid);
        }
        updates.push(update);
        i = i + 1;
    }
    proof {
        assert(effects@.take(effects@.len() as int) == effects@);
    }
    updates
}

/// Appending a glow to a sequence appends its handle to the handles of
/// those that have run out exactly when it has run out itself.
pub proof fn lemma_expired_push(effects: Seq<FruitEffects>, e: FruitEffects)
    ensures
        expired_effects(effects.push(e)) == if e.expired > 0 {
            expired_effects(effects).push(e.eid)
        } else {
            expired_effects(effects)
        },
{
    let pred = |e: FruitEffects| e.expired > 0;
    let full = effects.push(e);
    assert(full.drop_last() == effects);
    reveal(Seq::filter);
    assert(full.filter(pred) == if pred(e) { effects.filter(pred).push(e) } else { effects.filter(pred) });
    if e.expired > 0 {
        assert(effects.filter(pred).push(e).map_values(|e: FruitEffects| e.eid) =~= effects.filter(pred).map_values(
            |e: FruitEffects| e.eid,
        ).push(e.eid));
    }
}

/// What the removal of a fruit reads of one glow.
#[derive(Clone, Copy, Debug, PartialEq, Eq, Structural)]
pub struct FruitEffectFruits {
    pub eid: Entity,
    pub effect: FruitEffect,
}

/// The handles of the glows of `effects` that surround `fruit`, in order.
pub open spec fn effects_of(fruit: Entity, effects: Seq<FruitEffectFruits>) -> Seq<Entity> {
    effects.filter(|e: FruitEffectFruits| e.effect.fruit == fruit).map_values(|e: FruitEffectFruits| e.eid)
}

/// Marks the glows around an eaten fruit for removal.
pub fn on_remove_fruit(fruit: Entity, effects: &Vec<FruitEffectFruits>, trash: &mut Vec<Entity>)
    ensures
        final(trash)@ == old(trash)@ + effects_of(fruit, effects@),
{
    let mut i: usize = 0;
    while i < effects.len()
        invariant
            i <= effects@.len(),
            trash@ == old(trash)@ + effects_of(fruit, effects@.take(i as int)),
        decreases effects@.len() - i,
    {
        proof {
            let ghost head = effects@.take(i as int);
            let ghost e = effects@[i as int];
            let pred = |e: FruitEffectFruits| e.effect.fruit == fruit;
            assert(effects@.take(i + 1) == head.push(e));
            assert(head.push(e).drop_last() == head);
            reveal(Seq::filter);
            assert(head.push(e).filter(pred) == if pred(e) { head.filter(pred).push(e) } else { head.filter(pred) });
            if pred(e) {
                assert(head.filter(pred).push(e).map_values(|e: FruitEffectFruits| e.eid) =~= head.filter(
                    pred,
                ).map_values(|e: FruitEffectFruits| e.eid).push(e.eid));
            }
        }
        if effects[i].effect.fruit == fruit {
            trash.push(effects[i].eid);
        }
        i = i + 1;
    }
    proof {
        assert(effects@.take(effects@.len() as int) == effects@);
    }
}

} // verus!
