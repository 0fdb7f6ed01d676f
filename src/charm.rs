//! The charm mechanic: the player's charming area pulses on a cooldown, each
//! pulse may turn an enemy inside it into an ally for a while, and an ally
//! whose charm runs out turns back into an enemy.
use vstd::prelude::*;

use crate::chance::chance;
use crate::collision::{
    ally_layers, enemy_layers, CollisionLayers, CollisionStatus, EntityId, GameCollisionEvent,
};
use crate::timer::{Timer, NANOS_PER_SEC};

verus! {

/// How long a charm lasts: 25 s.
pub const CHARMED_DURATION: u64 = 25 * NANOS_PER_SEC;

/// Time between two pulses of the charming area: 2 s.
pub const CHARMING_AREA_COOLDOWN: u64 = 2 * NANOS_PER_SEC;

/// Each eligible unit is charmed by a pulse with probability 1/5.
pub const LUCK_AT_CHARMING_NUMERATOR: u32 = 1;

pub const LUCK_AT_CHARMING_DENOMINATOR: u32 = 5;

/// The time left before a charmed ally turns back.
#[derive(Debug, Clone, Copy, PartialEq, Eq, Structural)]
pub struct Charmed {
    pub active_until: Timer,
}

impl Charmed {
    pub open spec fn fresh() -> Charmed {
        Charmed { active_until: Timer::fresh(CHARMED_DURATION, false) }
    }

    pub fn new() -> (r: Charmed)
        ensures
            r == Charmed::fresh(),
    {
        Charmed { active_until: Timer::new(CHARMED_DURATION, false) }
    }
}

/// The area around the player and the time before its next pulse.
#[derive(Debug, Clone, Copy, PartialEq, Eq, Structural)]
pub struct CharmingArea {
    pub active_in: Timer,
}

impl CharmingArea {
    pub fn new() -> (r: CharmingArea)
        ensures
            r.active_in == Timer::fresh(CHARMING_AREA_COOLDOWN, false),
    {
        CharmingArea { active_in: Timer::new(CHARMING_AREA_COOLDOWN, false) }
    }
}

/// Whether a unit stands inside the charming area.
#[derive(Debug, Clone, Copy, PartialEq, Eq, Structural)]
pub struct CharmedEligible {
    pub is_eligible: bool,
}

#[derive(Debug, Clone, Copy, PartialEq, Eq, Structural)]
pub enum AllyEnemyConvertionEvent {
    AllyResetCharming(EntityId),
    EnemyIntoAlly(EntityId),
    AllyIntoEnemy(EntityId),
}

#[derive(Debug, Clone, Copy, PartialEq, Eq, Structural)]
pub enum Side {
    Enemy,
    Ally,
}

/// A unit that can be charmed: an enemy, or an enemy turned ally.
#[derive(Debug, Clone, Copy, PartialEq, Eq, Structural)]
pub struct Fighter {
    pub entity: EntityId,
    pub side: Side,
    pub layers: CollisionLayers,
    pub charmed: Option<Charmed>,
    pub eligible: CharmedEligible,
}

/// What applying one conversion event did to a unit.
#[derive(Debug, Clone, Copy, PartialEq, Eq, Structural)]
pub enum ConvertionOutcome {
    Unchanged,
    Charmed,
    Refreshed,
    Uncharmed,
}

/// The event a lucky pulse sends for a unit: an ally has its charm renewed,
/// an enemy is turned.
pub open spec fn convertion_for(f: Fighter) -> AllyEnemyConvertionEvent {
    match f.side {
        Side::Ally => AllyEnemyConvertionEvent::AllyResetCharming(f.entity),
        Side::Enemy => AllyEnemyConvertionEvent::EnemyIntoAlly(f.entity),
    }
}

/// The events of one pulse, in the units' order: one for each unit that is
/// eligible and whose draw came out lucky.
pub open spec fn convertions_of(fighters: Seq<Fighter>, lucky: Seq<bool>) -> Seq<
    AllyEnemyConvertionEvent,
>
    decreases fighters.len(),
{
    if fighters.len() == 0 || lucky.len() == 0 {
        seq![]
    } else {
        let before = convertions_of(fighters.drop_last(), lucky.drop_last());
        if fighters.last().eligible.is_eligible && lucky.last() {
            before.push(convertion_for(fighters.last()))
        } else {
            before
        }
    }
}

impl Fighter {
    /// The unit after one conversion event. An event for another entity
    /// changes nothing; turning an ally back needs a running charm.
    pub open spec fn converted(self, e: AllyEnemyConvertionEvent) -> Fighter {
        match e {
            AllyEnemyConvertionEvent::EnemyIntoAlly(id) => if id == self.entity {
                Fighter {
                    side: Side::Ally,
                    layers: CollisionLayers::of_ally(),
                    charmed: Some(Charmed::fresh()),
                    ..self
                }
            } else {
                self
            },
            AllyEnemyConvertionEvent::AllyResetCharming(id) => if id == self.entity
                && self.charmed.is_some() {
                Fighter {
                    charmed: Some(
                        Charmed { active_until: self.charmed.unwrap().active_until.restarted() },
                    ),
                    ..self
                }
            } else {
                self
            },
            AllyEnemyConvertionEvent::AllyIntoEnemy(id) => if id == self.entity
                && self.charmed.is_some() {
                Fighter {
                    side: Side::Enemy,
                    layers: CollisionLayers::of_enemy(),
                    charmed: None,
                    ..self
                }
            } else {
                self
            },
        }
    }

    /// What one conversion event does to the unit, as `apply_convertion` reports it.
    pub open spec fn outcome(self, e: AllyEnemyConvertionEvent) -> ConvertionOutcome {
        match e {
            AllyEnemyConvertionEvent::EnemyIntoAlly(id) => if id == self.entity {
                ConvertionOutcome::Charmed
            } else {
                ConvertionOutcome::Unchanged
            },
            AllyEnemyConvertionEvent::AllyResetCharming(id) => if id == self.entity
                && self.charmed.is_some() {
                ConvertionOutcome::Refreshed
            } else {
                ConvertionOutcome::Unchanged
            },
            AllyEnemyConvertionEvent::AllyIntoEnemy(id) => if id == self.entity
                && self.charmed.is_some() {
                ConvertionOutcome::Uncharmed
            } else {
                ConvertionOutcome::Unchanged
            },
        }
    }

    /// The unit after a run of conversion events, taken in order.
    pub open spec fn converted_by_all(self, events: Seq<AllyEnemyConvertionEvent>) -> Fighter
        decreases events.len(),
    {
        if events.len() == 0 {
            self
        } else {
            self.converted_by_all(events.drop_last()).converted(events.last())
        }
    }

    /// Whether the unit stands in the charming area after a run of collision
    /// events: the last contact with the area that concerns it decides.
    pub open spec fn eligible_after(self, events: Seq<GameCollisionEvent>) -> bool
        decreases events.len(),
    {
        if events.len() == 0 {
            self.eligible.is_eligible
        } else {
            match events.last() {
                GameCollisionEvent::ConvertingWeaponAndEnemy { status, enemy, .. } => if enemy
                    == self.entity {
                    status == CollisionStatus::Started
                } else {
                    self.eligible_after(events.drop_last())
                },
                _ => self.eligible_after(events.drop_last()),
            }
        }
    }

    /// The unit after a frame of `delta` nanoseconds: a running charm counts
    /// down.
    pub open spec fn aged(self, delta: u64) -> Fighter {
        match self.charmed {
            Some(c) => Fighter {
                charmed: Some(Charmed { active_until: c.active_until.ticked(delta) }),
                ..self
            },
            None => self,
        }
    }

    /// An enemy as it enters the game: not charmed, outside the area.
    pub fn enemy(entity: EntityId) -> (r: Fighter)
        ensures
            r.entity == entity,
            r.side == Side::Enemy,
            r.layers == CollisionLayers::of_enemy(),
            r.charmed.is_none(),
            !r.eligible.is_eligible,
    {
        Fighter {
            entity,
            side: Side::Enemy,
            layers: enemy_layers(),
            charmed: None,
            eligible: CharmedEligible { is_eligible: false },
        }
    }

    /// Applies one conversion event to this unit.
    pub fn apply_convertion(&mut self, e: &AllyEnemyConvertionEvent) -> (r: ConvertionOutcome)
        ensures
            *final(self) == old(self).converted(*e),
            r == old(self).outcome(*e),
    {
        match e {
            AllyEnemyConvertionEvent::EnemyIntoAlly(id) => {
                if *id == self.entity {
                    self.side = Side::Ally;
                    self.layers = ally_layers();
                    self.charmed = Some(Charmed::new());
                    ConvertionOutcome::Charmed
                } else {
                    ConvertionOutcome::Unchanged
                }
            },
            AllyEnemyConvertionEvent::AllyResetCharming(id) => {
                if *id == self.entity {
                    match &mut self.charmed {
                        Some(c) => {
                            c.active_until.reset();
                            ConvertionOutcome::Refreshed
                        },
                        None => ConvertionOutcome::Unchanged,
                    }
                } else {
                    ConvertionOutcome::Unchanged
                }
            },
            AllyEnemyConvertionEvent::AllyIntoEnemy(id) => {
                if *id == self.entity && self.charmed.is_some() {
                    self.side = Side::Enemy;
                    self.layers = enemy_layers();
                    self.charmed = None;
                    ConvertionOutcome::Uncharmed
                } else {
                    ConvertionOutcome::Unchanged
                }
            },
        }
    }
}

/// Applies each conversion event to the unit it names, in order.
pub fn apply_convertions(fighters: &mut Vec<Fighter>, events: &Vec<AllyEnemyConvertionEvent>)
    ensures
        final(fighters)@.len() == old(fighters)@.len(),
        forall|i: int|
            0 <= i < final(fighters)@.len() ==> #[trigger] final(fighters)@[i] == old(
                fighters,
            )@[i].converted_by_all(events@),
{
    let ghost start = fighters@;
    let mut i: usize = 0;
    while i < fighters.len()
        invariant
            i <= fighters@.len(),
            fighters@.len() == start.len(),
            forall|k: int| 0 <= k < i ==> #[trigger] fighters@[k] == start[k].converted_by_all(events@),
            forall|k: int| i <= k < fighters@.len() ==> #[trigger] fighters@[k] == start[k],
        decreases fighters@.len() - i,
    {
        let mut f = fighters[i];
        let mut j: usize = 0;
        while j < events.len()
            invariant
                j <= events@.len(),
                f == start[i as int].converted_by_all(events@.subrange(0, j as int)),
            decreases events@.len() - j,
        {
            assert(events@.subrange(0, j + 1).drop_last() =~= events@.subrange(0, j as int));
            f.apply_convertion(&events[j]);
            j += 1;
        }
        assert(events@.subrange(0, j as int) =~= events@);
        fighters[i] = f;
        i += 1;
    }
}

/// Counts down every running charm by `delta` nanoseconds and asks for every
/// charm that has run out to be undone.
pub fn tick_charmed(fighters: &mut Vec<Fighter>, delta: u64) -> (r: Vec<AllyEnemyConvertionEvent>)
    requires
        forall|i: int|
            0 <= i < old(fighters)@.len() && (#[trigger] old(fighters)@[i]).charmed.is_some()
                ==> !old(fighters)@[i].charmed.unwrap().active_until.repeating,
    ensures
        final(fighters)@.len() == old(fighters)@.len(),
        forall|i: int|
            0 <= i < final(fighters)@.len() ==> #[trigger] final(fighters)@[i] == old(
                fighters,
            )@[i].aged(delta),
        r@ == expired_charms(final(fighters)@),
{
    let ghost start = fighters@;
    let mut out: Vec<AllyEnemyConvertionEvent> = Vec::new();
    let mut i: usize = 0;
    while i < fighters.len()
        invariant
            i <= fighters@.len(),
            fighters@.len() == start.len(),
            forall|k: int|
                0 <= k < start.len() && (#[trigger] start[k]).charmed.is_some()
                    ==> !start[k].charmed.unwrap().active_until.repeating,
            forall|k: int| 0 <= k < i ==> #[trigger] fighters@[k] == start[k].aged(delta),
            forall|k: int| i <= k < fighters@.len() ==> #[trigger] fighters@[k] == start[k],
            out@ == expired_charms(fighters@.subrange(0, i as int)),
        decreases fighters@.len() - i,
    {
        let ghost before = fighters@;
        let mut f = fighters[i];
        match &mut f.charmed {
            Some(c) => {
                c.active_until.tick(delta);
                if c.active_until.finished() {
                    out.push(AllyEnemyConvertionEvent::AllyIntoEnemy(f.entity));
                }
            },
            None => {},
        }
        fighters[i] = f;
        assert(fighters@.subrange(0, i as int) =~= before.subrange(0, i as int));
        assert(fighters@.subrange(0, i + 1).drop_last() =~= fighters@.subrange(0, i as int));
        i += 1;
    }
    assert(fighters@.subrange(0, i as int) =~= fighters@);
    out
}

/// One request to turn back for each unit, in order, whose charm has run out.
pub open spec fn expired_charms(fighters: Seq<Fighter>) -> Seq<AllyEnemyConvertionEvent>
    decreases fighters.len(),
{
    if fighters.len() == 0 {
        seq![]
    } else {
        let before = expired_charms(fighters.drop_last());
        let f = fighters.last();
        if f.charmed.is_some() && f.charmed.unwrap().active_until.finished {
            before.push(AllyEnemyConvertionEvent::AllyIntoEnemy(f.entity))
        } else {
            before
        }
    }
}

/// Records which units enter or leave the charming area.
pub fn mark_charmed_eligibles(fighters: &mut Vec<Fighter>, events: &Vec<GameCollisionEvent>)
    ensures
        final(fighters)@.len() == old(fighters)@.len(),
        forall|i: int|
            0 <= i < final(fighters)@.len() ==> #[trigger] final(fighters)@[i] == (Fighter {
                eligible: CharmedEligible { is_eligible: old(fighters)@[i].eligible_after(events@) },
                ..old(fighters)@[i]
            }),
{
    let ghost start = fighters@;
    let mut i: usize = 0;
    while i < fighters.len()
        invariant
            i <= fighters@.len(),
            fighters@.len() == start.len(),
            forall|k: int|
                0 <= k < i ==> #[trigger] fighters@[k] == (Fighter {
                    eligible: CharmedEligible { is_eligible: start[k].eligible_after(events@) },
                    ..start[k]
                }),
            forall|k: int| i <= k < fighters@.len() ==> #[trigger] fighters@[k] == start[k],
        decreases fighters@.len() - i,
    {
        let mut f = fighters[i];
        let mut j: usize = 0;
        while j < events.len()
            invariant
                j <= events@.len(),
                f == (Fighter {
                    eligible: CharmedEligible {
                        is_eligible: start[i as int].eligible_after(events@.subrange(0, j as int)),
                    },
                    ..start[i as int]
                }),
            decreases events@.len() - j,
        {
            assert(events@.subrange(0, j + 1).drop_last() =~= events@.subrange(0, j as int));
            match &events[j] {
                GameCollisionEvent::ConvertingWeaponAndEnemy { status, enemy, .. } => {
                    if *enemy == f.entity {
                        f.eligible.is_eligible = match status {
                            CollisionStatus::Started => true,
                            CollisionStatus::Stopped => false,
                        };
                    }
                },
                _ => {},
            }
            j += 1;
        }
        assert(events@.subrange(0, j as int) =~= events@);
        fighters[i] = f;
        i += 1;
    }
}

/// The conversion events of one pulse, given for each unit whether its draw
/// came out lucky.
pub fn charm_convertions(fighters: &Vec<Fighter>, lucky: &Vec<bool>) -> (r: Vec<
    AllyEnemyConvertionEvent,
>)
    requires
        lucky@.len() == fighters@.len(),
    ensures
        r@ == convertions_of(fighters@, lucky@),
{
    let mut out: Vec<AllyEnemyConvertionEvent> = Vec::new();
    let mut i: usize = 0;
    while i < fighters.len()
        invariant
            i <= fighters@.len(),
            lucky@.len() == fighters@.len(),
            out@ == convertions_of(fighters@.subrange(0, i as int), lucky@.subrange(0, i as int)),
        decreases fighters@.len() - i,
    {
        assert(fighters@.subrange(0, i + 1).drop_last() =~= fighters@.subrange(0, i as int));
        assert(lucky@.subrange(0, i + 1).drop_last() =~= lucky@.subrange(0, i as int));
        let f = &fighters[i];
        if f.eligible.is_eligible && lucky[i] {
            match f.side {
                Side::Ally => out.push(AllyEnemyConvertionEvent::AllyResetCharming(f.entity)),
                Side::Enemy => out.push(AllyEnemyConvertionEvent::EnemyIntoAlly(f.entity)),
            }
        }
        i += 1;
    }
    assert(fighters@.subrange(0, i as int) =~= fighters@);
    assert(lucky@.subrange(0, i as int) =~= lucky@);
    out
}

/// Draws the luck of every eligible unit and returns the events of the
/// pulse. Units outside the area draw nothing and are never lucky.
pub fn roll_charm_convertions(fighters: &Vec<Fighter>) -> (r: Vec<AllyEnemyConvertionEvent>)
    ensures
        exists|lucky: Seq<bool>|
            lucky.len() == fighters@.len() && r@ == convertions_of(fighters@, lucky),
{
    let mut lucky: Vec<bool> = Vec::new();
    let mut i: usize = 0;
    while i < fighters.len()
        invariant
            i <= fighters@.len(),
            lucky@.len() == i,
        decreases fighters@.len() - i,
    {
        if fighters[i].eligible.is_eligible {
            lucky.push(chance(LUCK_AT_CHARMING_NUMERATOR, LUCK_AT_CHARMING_DENOMINATOR));
        } else {
            lucky.push(false);
        }
        i += 1;
    }
    charm_convertions(fighters, &lucky)
}

/// Counts the charming area down by `delta` nanoseconds. When it runs out it
/// restarts, pulses, and the lucky units inside it are converted: the result
/// is then `Some` of the pulse's events. Between pulses it is `None`.
pub fn tick_charming_areas(area: &mut CharmingArea, delta: u64, fighters: &Vec<Fighter>) -> (r:
    Option<Vec<AllyEnemyConvertionEvent>>)
    requires
        old(area).active_in.repeating ==> old(area).active_in.duration > 0,
    ensures
        ({
            let ticked = old(area).active_in.ticked(delta);
            &&& r.is_some() == ticked.finished
            &&& final(area).active_in == (if ticked.finished {
                ticked.restarted()
            } else {
                ticked
            })
            &&& r.is_some() ==> exists|lucky: Seq<bool>|
                lucky.len() == fighters@.len() && r.unwrap()@ == convertions_of(fighters@, lucky)
        }),
{
    area.active_in.tick(delta);
    if area.active_in.finished() {
        area.active_in.reset();
        Some(roll_charm_convertions(fighters))
    } else {
        None
    }
}

} // verus!

verus! {

/// Charming an enemy and then turning it back leaves it exactly as it was.
pub proof fn lemma_charm_round_trip(f: Fighter)
    requires
        f.side == Side::Enemy,
        f.layers == CollisionLayers::of_enemy(),
        f.charmed.is_none(),
    ensures
        f.converted(AllyEnemyConvertionEvent::EnemyIntoAlly(f.entity)).converted(
            AllyEnemyConvertionEvent::AllyIntoEnemy(f.entity),
        ) == f,
{
}

/// Every event of a pulse names a unit that is eligible and was lucky, and
/// asks for the conversion that unit's side calls for.
pub proof fn lemma_pulse_names_eligible_units(fighters: Seq<Fighter>, lucky: Seq<bool>)
    requires
        lucky.len() == fighters.len(),
    ensures
        forall|k: int|
            #![trigger convertions_of(fighters, lucky)[k]]
            0 <= k < convertions_of(fighters, lucky).len() ==> exists|i: int|
                #![trigger fighters[i]]
                0 <= i < fighters.len() && fighters[i].eligible.is_eligible && lucky[i]
                    && convertions_of(fighters, lucky)[k] == convertion_for(fighters[i]),
    decreases fighters.len(),
{
    if fighters.len() > 0 {
        let (fs, ls) = (fighters.drop_last(), lucky.drop_last());
        lemma_pulse_names_eligible_units(fs, ls);
        let before = convertions_of(fs, ls);
        assert forall|k: int|
            #![trigger convertions_of(fighters, lucky)[k]]
            0 <= k < convertions_of(fighters, lucky).len() implies exists|i: int|
                #![trigger fighters[i]]
                0 <= i < fighters.len() && fighters[i].eligible.is_eligible && lucky[i]
                    && convertions_of(fighters, lucky)[k] == convertion_for(fighters[i]) by {
            let all = convertions_of(fighters, lucky);
            let last_counts = fighters.last().eligible.is_eligible && lucky.last();
            assert(all == if last_counts {
                before.push(convertion_for(fighters.last()))
            } else {
                before
            });
            if k < before.len() {
                assert(all[k] == before[k]);
                let i = choose|i: int|
                    0 <= i < fs.len() && fs[i].eligible.is_eligible && ls[i] && before[k]
                        == convertion_for(fs[i]);
                assert(fighters[i] == fs[i] && lucky[i] == ls[i]);
                assert(0 <= i < fighters.len() && fighters[i].eligible.is_eligible && lucky[i]
                    && all[k] == convertion_for(fighters[i]));
            } else {
                let i = fighters.len() - 1;
                assert(fighters[i] == fighters.last() && lucky[i] == lucky.last());
                assert(0 <= i < fighters.len() && fighters[i].eligible.is_eligible && lucky[i]
                    && all[k] == convertion_for(fighters[i]));
            }
        }
    }
}

} // verus!
