//! The player's life: contacts with enemies, damage, and the invulnerability
//! window that follows each hit.
use vstd::prelude::*;

use crate::collision::{CollisionStatus, EntityId, GameCollisionEvent};
use crate::timer::{Timer, NANOS_PER_MILLI};

verus! {

/// How long the player cannot be hurt after a hit: 2.5 s.
pub const INVULNERABLE_DURATION: u64 = 2_500 * NANOS_PER_MILLI;

/// How much life a unit has left, in thirds.
#[derive(Debug, Clone, Copy, PartialEq, Eq, Structural)]
pub enum Health {
    Full,
    TwoThird,
    OneThird,
    Empty,
}

impl Health {
    /// Remaining thirds of life: 3 for `Full` down to 0 for `Empty`.
    pub open spec fn thirds(self) -> nat {
        match self {
            Health::Full => 3,
            Health::TwoThird => 2,
            Health::OneThird => 1,
            Health::Empty => 0,
        }
    }

    /// What is left after `hits` hits.
    pub open spec fn thirds_after(self, hits: nat) -> nat {
        if self.thirds() <= hits {
            0
        } else {
            (self.thirds() - hits) as nat
        }
    }

    /// One hit removes a third of life; an empty gauge stays empty.
    pub fn take_damage(&self) -> (r: Health)
        ensures
            r.thirds() == self.thirds_after(1),
    {
        match self {
            Health::Full => Health::TwoThird,
            Health::TwoThird => Health::OneThird,
            Health::OneThird => Health::Empty,
            Health::Empty => Health::Empty,
        }
    }

    pub fn is_empty(&self) -> (r: bool)
        ensures
            r == (self.thirds() == 0),
    {
        match self {
            Health::Empty => true,
            _ => false,
        }
    }
}

/// How many enemies the player is touching.
#[derive(Debug, Clone, Copy, PartialEq, Eq, Structural)]
pub struct TakingDamage {
    pub count: usize,
}

/// The contact count after one event: a contact between the player and an
/// enemy that starts adds one (saturating), one that stops removes one (never
/// below zero); other events change nothing.
pub open spec fn contact_step(count: usize, event: GameCollisionEvent) -> usize {
    match event {
        GameCollisionEvent::PlayerAndEnemy { status, .. } => match status {
            CollisionStatus::Started => if count == usize::MAX {
                count
            } else {
                (count + 1) as usize
            },
            CollisionStatus::Stopped => if count == 0 {
                0
            } else {
                (count - 1) as usize
            },
        },
        _ => count,
    }
}

/// The contact count after a run of events, taken in order.
pub open spec fn contacts_after(count: usize, events: Seq<GameCollisionEvent>) -> usize
    decreases events.len(),
{
    if events.len() == 0 {
        count
    } else {
        contact_step(contacts_after(count, events.drop_last()), events.last())
    }
}

impl TakingDamage {
    pub fn new() -> (r: TakingDamage)
        ensures
            r.count == 0,
    {
        TakingDamage { count: 0 }
    }
}

/// Counts the enemies that start or stop touching the player.
pub fn mark_player_as_taking_damage(
    taking_damage: &mut TakingDamage,
    events: &Vec<GameCollisionEvent>,
)
    ensures
        final(taking_damage).count == contacts_after(old(taking_damage).count, events@),
{
    let ghost start = taking_damage.count;
    let mut i: usize = 0;
    while i < events.len()
        invariant
            i <= events.len(),
            taking_damage.count == contacts_after(start, events@.subrange(0, i as int)),
        decreases events.len() - i,
    {
        assert(events@.subrange(0, i + 1).drop_last() =~= events@.subrange(0, i as int));
        match &events[i] {
            GameCollisionEvent::PlayerAndEnemy { status, .. } => match status {
                CollisionStatus::Started => {
                    taking_damage.count = taking_damage.count.saturating_add(1);
                },
                CollisionStatus::Stopped => {
                    taking_damage.count = taking_damage.count.saturating_sub(1);
                },
            },
            _ => {},
        }
        i += 1;
    }
    assert(events@.subrange(0, i as int) =~= events@);
}

/// The window during which the player cannot be hurt.
#[derive(Debug, Clone, Copy, PartialEq, Eq, Structural)]
pub struct Invulnerable {
    pub active_until: Timer,
}

impl Invulnerable {
    /// A window that is already over, as the player starts the game.
    pub fn expired() -> (r: Invulnerable)
        ensures
            r.active_until == Timer::fresh(INVULNERABLE_DURATION, false).ticked(
                INVULNERABLE_DURATION,
            ),
            r.active_until.finished,
    {
        let mut timer = Timer::new(INVULNERABLE_DURATION, false);
        timer.tick(INVULNERABLE_DURATION);
        Invulnerable { active_until: timer }
    }

    pub fn is_active(&self) -> (r: bool)
        ensures
            r == !self.active_until.finished,
    {
        !self.active_until.finished()
    }

    pub fn tick(&mut self, delta: u64)
        requires
            old(self).active_until.repeating ==> old(self).active_until.duration > 0,
        ensures
            final(self).active_until == old(self).active_until.ticked(delta),
    {
        self.active_until.tick(delta);
    }

    /// How the player's sprite is tinted: red while it cannot be hurt.
    pub fn tint(&self) -> (r: Tint)
        ensures
            r == (if self.active_until.finished {
                Tint::Plain
            } else {
                Tint::Red
            }),
    {
        if self.active_until.finished() {
            Tint::Plain
        } else {
            Tint::Red
        }
    }
}

#[derive(Debug, Clone, Copy, PartialEq, Eq, Structural)]
pub enum Tint {
    Plain,
    Red,
}

/// Once the invulnerability window is over, every enemy in contact hits the
/// player once, and each hit opens the window again.
pub fn applying_player_damage(
    taking_damage: &TakingDamage,
    invulnerable: &mut Invulnerable,
    health: &mut Health,
)
    ensures
        ({
            let hit = old(invulnerable).active_until.finished && taking_damage.count > 0;
            &&& final(health).thirds() == (if hit {
                old(health).thirds_after(taking_damage.count as nat)
            } else {
                old(health).thirds()
            })
            &&& final(invulnerable).active_until == (if hit {
                old(invulnerable).active_until.restarted()
            } else {
                old(invulnerable).active_until
            })
        }),
{
    if invulnerable.active_until.finished() {
        let ghost start = *health;
        let ghost timer = invulnerable.active_until;
        let mut i: usize = 0;
        while i < taking_damage.count && !health.is_empty()
            invariant
                i <= taking_damage.count,
                health.thirds() == start.thirds_after(i as nat),
                i > 0 ==> invulnerable.active_until == timer.restarted(),
                i == 0 ==> invulnerable.active_until == timer,
            decreases taking_damage.count - i,
        {
            invulnerable.active_until.reset();
            *health = health.take_damage();
            i += 1;
        }
        if i == 0 && taking_damage.count > 0 {
            invulnerable.active_until.reset();
        }
    }
}

/// Which way the player walks, one unit per axis, given the keys held: up
/// wins over down and right over left. A dead player does not steer.
pub fn move_direction(health: Health, up: bool, down: bool, right: bool, left: bool) -> (r:
    Option<(i8, i8)>)
    ensures
        health.thirds() == 0 ==> r.is_none(),
        health.thirds() > 0 ==> r == Some(
            (
                (if right {
                    1i8
                } else if left {
                    -1i8
                } else {
                    0i8
                }),
                (if up {
                    1i8
                } else if down {
                    -1i8
                } else {
                    0i8
                }),
            ),
        ),
{
    if health.is_empty() {
        return None;
    }
    let y: i8 = if up {
        1
    } else if down {
        -1
    } else {
        0
    };
    let x: i8 = if right {
        1
    } else if left {
        -1
    } else {
        0
    };
    Some((x, y))
}

} // verus!

verus! {

/// An enemy that starts and then stops touching the player leaves the
/// contact count as it was, unless the count was already saturated.
pub proof fn lemma_contact_balance(count: usize, player: EntityId, enemy: EntityId)
    requires
        count < usize::MAX,
    ensures
        contacts_after(
            count,
            seq![
                GameCollisionEvent::PlayerAndEnemy { status: CollisionStatus::Started, player, enemy },
                GameCollisionEvent::PlayerAndEnemy { status: CollisionStatus::Stopped, player, enemy },
            ],
        ) == count,
{
    let start = GameCollisionEvent::PlayerAndEnemy { status: CollisionStatus::Started, player, enemy };
    let stop = GameCollisionEvent::PlayerAndEnemy { status: CollisionStatus::Stopped, player, enemy };
    let both = seq![start, stop];
    assert(both.drop_last() =~= seq![start]);
    assert(seq![start].drop_last() =~= Seq::<GameCollisionEvent>::empty());
    assert(contacts_after(count, Seq::<GameCollisionEvent>::empty()) == count);
    assert(contacts_after(count, seq![start]) == count + 1);
    assert(contacts_after(count, both) == contact_step(contacts_after(count, seq![start]), stop));
}

/// Hits add up: `a` hits and then `b` more leave what `a + b` hits leave.
pub proof fn lemma_hits_add_up(h: Health, a: nat, b: nat)
    ensures
        ({
            let after_a = h.thirds_after(a);
            (if after_a <= b {
                0
            } else {
                (after_a - b) as nat
            }) == h.thirds_after(a + b)
        }),
{
}

} // verus!
