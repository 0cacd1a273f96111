//! The register of the active phase and of the live entities of each
//! kind, with the handlers that run when a phase is entered or left.
//!
//! Entities are not removed at once: a handler moves their handles to the
//! trash, and the whole trash is handed over for removal once, at the end
//! of the frame.

use vstd::prelude::*;
use crate::event::{Entity, Event, Phase};

verus! {

/// The kinds of entities of the game.
#[derive(Clone, Copy, Debug, PartialEq, Eq, Structural)]
pub enum Kind {
    Background,
    Screen,
    Head,
    Body,
    Fruit,
    Effect,
    Death,
}

/// The active phase, the live entities by kind, and the trash.
pub struct Stage {
    pub phase: Option<Phase>,
    pub background: Option<Entity>,
    pub screen: Option<Entity>,
    pub head: Option<Entity>,
    pub bodies: Vec<Entity>,
    pub fruits: Vec<Entity>,
    pub effects: Vec<Entity>,
    pub deaths: Vec<Entity>,
    pub trash: Vec<Entity>,
}

/// The mathematical value of a `Stage`.
pub struct StageView {
    pub phase: Option<Phase>,
    pub background: Option<Entity>,
    pub screen: Option<Entity>,
    pub head: Option<Entity>,
    pub bodies: Seq<Entity>,
    pub fruits: Seq<Entity>,
    pub effects: Seq<Entity>,
    pub deaths: Seq<Entity>,
    pub trash: Seq<Entity>,
}

/// The handle in `slot` as a sequence of one, or the empty sequence.
pub open spec fn held(slot: Option<Entity>) -> Seq<Entity> {
    match slot {
        Some(e) => seq![e],
        None => Seq::empty(),
    }
}

impl StageView {
    /// The stage before the first game: no phase and no entity.
    pub open spec fn empty() -> StageView {
        StageView {
            phase: None,
            background: None,
            screen: None,
            head: None,
            bodies: Seq::empty(),
            fruits: Seq::empty(),
            effects: Seq::empty(),
            deaths: Seq::empty(),
            trash: Seq::empty(),
        }
    }

    /// No entity of a game is live: no head, body unit, fruit, glow,
    /// game-over screen or dying unit.
    pub open spec fn torn_down(self) -> bool {
        &&& self.head is None
        &&& self.screen is None
        &&& self.bodies.len() == 0
        &&& self.fruits.len() == 0
        &&& self.effects.len() == 0
        &&& self.deaths.len() == 0
    }

    /// The stage after `e` was registered as an entity of `kind`. Of the
    /// background, the screen and the head there is at most one: where
    /// one is live, `e` goes to the trash instead.
    pub open spec fn added(self, kind: Kind, e: Entity) -> StageView {
        match kind {
            Kind::Background => if self.background is None {
                StageView { background: Some(e), ..self }
            } else {
                StageView { trash: self.trash.push(e), ..self }
            },
            Kind::Screen => if self.screen is None {
                StageView { screen: Some(e), ..self }
            } else {
                StageView { trash: self.trash.push(e), ..self }
            },
            Kind::Head => if self.head is None {
                StageView { head: Some(e), ..self }
            } else {
                StageView { trash: self.trash.push(e), ..self }
            },
            Kind::Body => StageView { bodies: self.bodies.push(e), ..self },
            Kind::Fruit => StageView { fruits: self.fruits.push(e), ..self },
            Kind::Effect => StageView { effects: self.effects.push(e), ..self },
            Kind::Death => StageView { deaths: self.deaths.push(e), ..self },
        }
    }

    /// The stage after all entities of a game were moved to the trash. The
    /// background stays.
    pub open spec fn cleared(self) -> StageView {
        StageView {
            head: None,
            screen: None,
            bodies: Seq::empty(),
            fruits: Seq::empty(),
            effects: Seq::empty(),
            deaths: Seq::empty(),
            trash: self.trash + held(self.head) + self.bodies + self.fruits + self.effects + held(self.screen)
                + self.deaths,
            ..self
        }
    }

    /// The stage after `phase` was entered. Entering the playing phase
    /// clears the stage of the last game; entering the active phase again
    /// changes nothing.
    pub open spec fn entered(self, phase: Phase) -> StageView {
        if self.phase == Some(phase) {
            self
        } else {
            match phase {
                Phase::Playing => StageView { phase: Some(phase), ..self.cleared() },
                Phase::GameOver => StageView { phase: Some(phase), ..self },
            }
        }
    }

    /// The events that entering `phase` sends: the playing phase asks for
    /// the background, where there is none, and then for a snake, unless it
    /// is the active phase already.
    pub open spec fn enter_events(self, phase: Phase) -> Seq<Event> {
        if self.phase != Some(phase) && phase == Phase::Playing {
            if self.background is None {
                seq![Event::SpawnBackground, Event::SpawnSnake]
            } else {
                seq![Event::SpawnSnake]
            }
        } else {
            Seq::empty()
        }
    }

    /// The stage after `phase` was left. Leaving the playing phase moves
    /// the body units to the trash; leaving the game-over phase, the
    /// screen and the dying units. Leaving a phase that is not the
    /// active one changes nothing.
    pub open spec fn exited(self, phase: Phase) -> StageView {
        if self.phase != Some(phase) {
            self
        } else {
            match phase {
                Phase::Playing => StageView {
                    phase: None,
                    bodies: Seq::empty(),
                    trash: self.trash + self.bodies,
                    ..self
                },
                Phase::GameOver => StageView {
                    phase: None,
                    screen: None,
                    deaths: Seq::empty(),
                    trash: self.trash + held(self.screen) + self.deaths,
                    ..self
                },
            }
        }
    }

    /// `e` is registered as a live entity.
    pub open spec fn live(self, e: Entity) -> bool {
        ||| self.background == Some(e)
        ||| self.screen == Some(e)
        ||| self.head == Some(e)
        ||| self.bodies.contains(e)
        ||| self.fruits.contains(e)
        ||| self.effects.contains(e)
        ||| self.deaths.contains(e)
    }

    /// The stage after the live entity `e` was moved to the trash; an
    /// entity that is not live changes nothing.
    pub open spec fn destroyed(self, e: Entity) -> StageView {
        StageView {
            phase: self.phase,
            background: emptied(self.background, e),
            screen: emptied(self.screen, e),
            head: emptied(self.head, e),
            bodies: others(self.bodies, e),
            fruits: others(self.fruits, e),
            effects: others(self.effects, e),
            deaths: others(self.deaths, e),
            trash: if self.live(e) {
                self.trash.push(e)
            } else {
                self.trash
            },
        }
    }

    /// The event is to be handled in this state of the stage. The
    /// background is created only where there is none. A snake, a fruit
    /// and a growth are asked for in vain unless the game is being played, so that what a dying snake still eats is dropped; a phase is
    /// left only while it is active and entered only while it is not, so
    /// that a second end of the game in one frame is dropped.
    pub open spec fn accepts(self, event: Event) -> bool {
        match event {
            Event::SpawnBackground => self.background is None,
            Event::SpawnSnake => self.phase == Some(Phase::Playing),
            Event::SpawnFruit => self.phase == Some(Phase::Playing),
            Event::EatFruit(_) => self.phase == Some(Phase::Playing),
            Event::OnExit(phase) => self.phase == Some(phase),
            Event::OnEnter(phase) => self.phase != Some(phase),
            Event::SetState(_) => true,
        }
    }

    /// The events that making `phase` the active phase sends: the active
    /// phase, if there is one, is left, then `phase` is entered.
    pub open spec fn switch_events(self, phase: Phase) -> Seq<Event> {
        match self.phase {
            Some(active) => seq![Event::OnExit(active), Event::OnEnter(phase)],
            None => seq![Event::OnEnter(phase)],
        }
    }

    /// The stage after the trash was handed over for removal.
    pub open spec fn committed(self) -> StageView {
        StageView { trash: Seq::empty(), ..self }
    }
}

/// The slot without `e`.
pub open spec fn emptied(slot: Option<Entity>, e: Entity) -> Option<Entity> {
    if slot == Some(e) {
        None
    } else {
        slot
    }
}

/// The handles of `list` other than `e`, in order.
pub open spec fn others(list: Seq<Entity>, e: Entity) -> Seq<Entity> {
    list.filter(|x: Entity| x != e)
}

impl View for Stage {
    type V = StageView;

    open spec fn view(&self) -> StageView {
        StageView {
            phase: self.phase,
            background: self.background,
            screen: self.screen,
            head: self.head,
            bodies: self.bodies@,
            fruits: self.fruits@,
            effects: self.effects@,
            deaths: self.deaths@,
            trash: self.trash@,
        }
    }
}

fn discard(slot: &mut Option<Entity>, trash: &mut Vec<Entity>)
    ensures
        *final(slot) is None,
        final(trash)@ == old(trash)@ + held(*old(slot)),
{
    match slot.take() {
        Some(e) => {
            trash.push(e);
            assert(trash@ =~= old(trash)@ + held(*old(slot)));
        },
        None => {
            assert(trash@ =~= old(trash)@ + held(*old(slot)));
        },
    }
}

fn empty_slot(slot: &mut Option<Entity>, e: Entity) -> (found: bool)
    ensures
        *final(slot) == emptied(*old(slot), e),
        found == (*old(slot) == Some(e)),
{
    if *slot == Some(e) {
        *slot = None;
        true
    } else {
        false
    }
}

fn take_out(list: &mut Vec<Entity>, e: Entity) -> (found: bool)
    ensures
        final(list)@ == others(old(list)@, e),
        found == old(list)@.contains(e),
{
    let mut kept: Vec<Entity> = Vec::new();
    let mut found = false;
    let mut i: usize = 0;
    while i < list.len()
        invariant
            i <= list@.len(),
            list@ == old(list)@,
            kept@ == others(list@.take(i as int), e),
            found == list@.take(i as int).contains(e),
        decreases list@.len() - i,
    {
        proof {
            let ghost head = list@.take(i as int);
            let ghost x = list@[i as int];
            let pred = |x: Entity| x != e;
            assert(list@.take(i + 1) == head.push(x));
            assert(head.push(x).drop_last() == head);
            reveal(Seq::filter);
            assert(head.push(x).filter(pred) == if pred(x) { head.filter(pred).push(x) } else { head.filter(pred) });
            assert(head.push(x)[i as int] == x);
            assert(head.push(x).contains(e) == (head.contains(e) || x == e)) by {
                if head.contains(e) {
                    let k = choose|k: int| 0 <= k < head.len() && head[k] == e;
                    assert(head.push(x)[k] == e);
                }
            }
        }
        if list[i] == e {
            found = true;
        } else {
            kept.push(list[i]);
        }
        i = i + 1;
    }
    proof {
        assert(list@.take(list@.len() as int) == list@);
    }
    *list = kept;
    found
}

impl Stage {
    /// The stage before the first game.
    pub fn new() -> (stage: Stage)
        ensures
            stage@ == StageView::empty(),
    {
        Stage {
            phase: None,
            background: None,
            screen: None,
            head: None,
            bodies: Vec::new(),
            fruits: Vec::new(),
            effects: Vec::new(),
            deaths: Vec::new(),
            trash: Vec::new(),
        }
    }

    /// Whether the game-over screen is shown.
    pub fn has_screen(&self) -> (shown: bool)
        ensures
            shown == (self@.screen is Some),
    {
        self.screen.is_some()
    }

    /// Whether the background exists.
    pub fn has_background(&self) -> (exists: bool)
        ensures
            exists == (self@.background is Some),
    {
        self.background.is_some()
    }

    /// Registers `e` as a live entity of `kind`; says whether it was
    /// registered, and not put in the trash as a second background, screen or head.
    pub fn add(&mut self, kind: Kind, e: Entity) -> (kept: bool)
        ensures
            final(self)@ == old(self)@.added(kind, e),
            kept == match kind {
                Kind::Background => old(self)@.background is None,
                Kind::Screen => old(self)@.screen is None,
                Kind::Head => old(self)@.head is None,
                _ => true,
            },
    {
        match kind {
            Kind::Background => {
                if self.background.is_none() {
                    self.background = Some(e);
                    true
                } else {
                    self.trash.push(e);
                    false
                }
            },
            Kind::Screen => {
                if self.screen.is_none() {
                    self.screen = Some(e);
                    true
                } else {
                    self.trash.push(e);
                    false
                }
            },
            Kind::Head => {
                if self.head.is_none() {
                    self.head = Some(e);
                    true
                } else {
                    self.trash.push(e);
                    false
                }
            },
            Kind::Body => {
                self.bodies.push(e);
                true
            },
            Kind::Fruit => {
                self.fruits.push(e);
                true
            },
            Kind::Effect => {
                self.effects.push(e);
                true
            },
            Kind::Death => {
                self.deaths.push(e);
                true
            },
        }
    }

    /// Moves all entities of a game to the trash.
    pub fn clear(&mut self)
        ensures
            final(self)@ == old(self)@.cleared(),
    {
        discard(&mut self.head, &mut self.trash);
        self.trash.append(&mut self.bodies);
        self.trash.append(&mut self.fruits);
        self.trash.append(&mut self.effects);
        discard(&mut self.screen, &mut self.trash);
        self.trash.append(&mut self.deaths);
    }

    /// Runs the handler for entering `phase` and makes it the active phase.
    pub fn enter(&mut self, phase: Phase) -> (events: Vec<Event>)
        ensures
            final(self)@ == old(self)@.entered(phase),
            events@ == old(self)@.enter_events(phase),
    {
        let mut events: Vec<Event> = Vec::new();
        if self.phase == Some(phase) {
            return events;
        }
        match phase {
            Phase::Playing => {
                self.clear();
                if self.background.is_none() {
                    events.push(Event::SpawnBackground);
                }
                events.push(Event::SpawnSnake);
            },
            Phase::GameOver => {},
        }
        self.phase = Some(phase);
        assert(events@ =~= old(self)@.enter_events(phase));
        events
    }

    /// Runs the handler for leaving `phase`, if it is the active phase;
    /// says whether it was.
    pub fn exit(&mut self, phase: Phase) -> (left: bool)
        ensures
            final(self)@ == old(self)@.exited(phase),
            left == (old(self)@.phase == Some(phase)),
    {
        if self.phase != Some(phase) {
            return false;
        }
        match phase {
            Phase::Playing => {
                self.trash.append(&mut self.bodies);
            },
            Phase::GameOver => {
                discard(&mut self.screen, &mut self.trash);
                self.trash.append(&mut self.deaths);
            },
        }
        self.phase = None;
        true
    }

    /// Whether `event` is to be handled in this state of the stage.
    pub fn accepts(&self, event: &Event) -> (handled: bool)
        ensures
            handled == self@.accepts(*event),
    {
        match event {
            Event::SpawnBackground => self.background.is_none(),
            Event::SpawnSnake => self.phase == Some(Phase::Playing),
            Event::SpawnFruit => self.phase == Some(Phase::Playing),
            Event::EatFruit(_) => self.phase == Some(Phase::Playing),
            Event::OnExit(phase) => self.phase == Some(*phase),
            Event::OnEnter(phase) => self.phase != Some(*phase),
            Event::SetState(_) => true,
        }
    }

    /// The events that make `phase` the active phase. The stage changes
    /// when they are handled, by `exit` and `enter`.
    pub fn set_state(&self, phase: Phase) -> (events: Vec<Event>)
        ensures
            events@ == self@.switch_events(phase),
    {
        let mut events: Vec<Event> = Vec::new();
        match self.phase {
            Some(active) => {
                events.push(Event::OnExit(active));
            },
            None => {},
        }
        events.push(Event::OnEnter(phase));
        assert(events@ =~= self@.switch_events(phase));
        events
    }

    /// Moves the live entity `e` to the trash; says whether it was live.
    pub fn destroy(&mut self, e: Entity) -> (found: bool)
        ensures
            final(self)@ == old(self)@.destroyed(e),
            found == old(self)@.live(e),
    {
        let in_background = empty_slot(&mut self.background, e);
        let in_screen = empty_slot(&mut self.screen, e);
        let in_head = empty_slot(&mut self.head, e);
        let in_bodies = take_out(&mut self.bodies, e);
        let in_fruits = take_out(&mut self.fruits, e);
        let in_effects = take_out(&mut self.effects, e);
        let in_deaths = take_out(&mut self.deaths, e);
        let found = in_background || in_screen || in_head || in_bodies || in_fruits || in_effects || in_deaths;
        if found {
            self.trash.push(e);
        }
        found
    }

    /// Hands the trash over for removal, at the end of a frame.
    pub fn commit(&mut self) -> (batch: Vec<Entity>)
        ensures
            batch@ == old(self)@.trash,
            final(self)@ == old(self)@.committed(),
    {
        let mut batch: Vec<Entity> = Vec::new();
        batch.append(&mut self.trash);
        batch
    }
}

/// The stage after the playing phase was entered and the snake and the
/// first fruit that it asks for were registered.
pub open spec fn started(stage: StageView, head: Entity, fruit: Entity) -> StageView {
    stage.entered(Phase::Playing).added(Kind::Head, head).added(Kind::Fruit, fruit)
}

/// Entering the playing phase from any other state of the stage, with
/// entities of an earlier game or without, asks for one snake, after the
/// background where there is none, and leaves exactly one head, one fruit
/// and no body unit. On a stage that was torn down already nothing goes
/// to the trash.
pub proof fn lemma_start_yields_one_snake(stage: StageView, head: Entity, fruit: Entity)
    requires
        stage.phase != Some(Phase::Playing),
    ensures
        stage.enter_events(Phase::Playing) == if stage.background is None {
            seq![Event::SpawnBackground, Event::SpawnSnake]
        } else {
            seq![Event::SpawnSnake]
        },
        started(stage, head, fruit).phase == Some(Phase::Playing),
        started(stage, head, fruit).head == Some(head),
        started(stage, head, fruit).fruits == seq![fruit],
        started(stage, head, fruit).bodies.len() == 0,
        started(stage, head, fruit).effects.len() == 0,
        started(stage, head, fruit).deaths.len() == 0,
        started(stage, head, fruit).screen is None,
        started(stage, head, fruit).background == stage.background,
        stage.torn_down() ==> started(stage, head, fruit).trash == stage.trash,
{
    let s = started(stage, head, fruit);
    assert(s.fruits =~= seq![fruit]);
    if stage.torn_down() {
        assert(stage.bodies =~= Seq::empty());
        assert(stage.fruits =~= Seq::empty());
        assert(stage.effects =~= Seq::empty());
        assert(stage.deaths =~= Seq::empty());
        assert(s.trash =~= stage.trash);
    }
}

/// Entering a phase twice is entering it once, and so is leaving it.
pub proof fn lemma_enter_and_exit_once(stage: StageView, phase: Phase)
    ensures
        stage.entered(phase).entered(phase) == stage.entered(phase),
        stage.entered(phase).enter_events(phase) == Seq::<Event>::empty(),
        stage.exited(phase).exited(phase) == stage.exited(phase),
{
}

} // verus!
