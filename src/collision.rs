//! Collision layers and the classification of raw shape overlaps into game
//! events.
use vstd::prelude::*;

verus! {

/// An entity of the game world, by the bits of its engine identifier.
#[derive(Debug, Clone, Copy, PartialEq, Eq, Structural, Hash)]
pub struct EntityId(pub u64);

/// The collision groups of the game, one bit each.
#[derive(Debug, Clone, Copy, PartialEq, Eq, Structural)]
pub enum GameLayer {
    Player,
    ConvertingWeapon,
    Ally,
    Enemy,
}

impl GameLayer {
    /// Each layer owns one bit, in declaration order.
    pub open spec fn bit(self) -> u32 {
        match self {
            GameLayer::Player => 1,
            GameLayer::ConvertingWeapon => 2,
            GameLayer::Ally => 4,
            GameLayer::Enemy => 8,
        }
    }

    pub fn to_bits(&self) -> (r: u32)
        ensures
            r == self.bit(),
    {
        match self {
            GameLayer::Player => 1,
            GameLayer::ConvertingWeapon => 2,
            GameLayer::Ally => 4,
            GameLayer::Enemy => 8,
        }
    }
}

/// The groups an entity belongs to and the groups it reacts to.
#[derive(Debug, Clone, Copy, PartialEq, Eq, Structural)]
pub struct CollisionLayers {
    pub groups: u32,
    pub masks: u32,
}

impl CollisionLayers {
    pub open spec fn has_group(self, layer: GameLayer) -> bool {
        self.groups & layer.bit() != 0
    }

    pub open spec fn has_mask(self, layer: GameLayer) -> bool {
        self.masks & layer.bit() != 0
    }

    pub open spec fn of_player() -> CollisionLayers {
        CollisionLayers { groups: 1, masks: 12 }
    }

    pub open spec fn of_enemy() -> CollisionLayers {
        CollisionLayers { groups: 8, masks: 15 }
    }

    pub open spec fn of_wave_enemy() -> CollisionLayers {
        CollisionLayers { groups: 8, masks: 11 }
    }

    pub open spec fn of_ally() -> CollisionLayers {
        CollisionLayers { groups: 4, masks: 15 }
    }

    pub open spec fn of_charming_area() -> CollisionLayers {
        CollisionLayers { groups: 2, masks: 12 }
    }

    /// The groups are exactly the given layers.
    pub open spec fn groups_are(self, layers: Set<GameLayer>) -> bool {
        forall|l: GameLayer| self.has_group(l) <==> layers.contains(l)
    }

    /// The masks are exactly the given layers.
    pub open spec fn masks_are(self, layers: Set<GameLayer>) -> bool {
        forall|l: GameLayer| self.has_mask(l) <==> layers.contains(l)
    }

    pub fn contains_group(&self, layer: GameLayer) -> (r: bool)
        ensures
            r == self.has_group(layer),
    {
        self.groups & layer.to_bits() != 0
    }

    pub fn contains_mask(&self, layer: GameLayer) -> (r: bool)
        ensures
            r == self.has_mask(layer),
    {
        self.masks & layer.to_bits() != 0
    }
}

/// Which layer bits the constant layer words below hold.
proof fn lemma_layer_words()
    ensures
        1u32 & 1u32 != 0 && 1u32 & 2u32 == 0 && 1u32 & 4u32 == 0 && 1u32 & 8u32 == 0,
        2u32 & 1u32 == 0 && 2u32 & 2u32 != 0 && 2u32 & 4u32 == 0 && 2u32 & 8u32 == 0,
        4u32 & 1u32 == 0 && 4u32 & 2u32 == 0 && 4u32 & 4u32 != 0 && 4u32 & 8u32 == 0,
        8u32 & 1u32 == 0 && 8u32 & 2u32 == 0 && 8u32 & 4u32 == 0 && 8u32 & 8u32 != 0,
        11u32 & 1u32 != 0 && 11u32 & 2u32 != 0 && 11u32 & 4u32 == 0 && 11u32 & 8u32 != 0,
        12u32 & 1u32 == 0 && 12u32 & 2u32 == 0 && 12u32 & 4u32 != 0 && 12u32 & 8u32 != 0,
        15u32 & 1u32 != 0 && 15u32 & 2u32 != 0 && 15u32 & 4u32 != 0 && 15u32 & 8u32 != 0,
        (1u32 | 2u32 | 8u32) == 11u32,
        (4u32 | 8u32) == 12u32,
        (1u32 | 2u32 | 4u32 | 8u32) == 15u32,
{
    assert({
        &&& 1u32 & 1u32 != 0 && 1u32 & 2u32 == 0 && 1u32 & 4u32 == 0 && 1u32 & 8u32 == 0
        &&& 2u32 & 1u32 == 0 && 2u32 & 2u32 != 0 && 2u32 & 4u32 == 0 && 2u32 & 8u32 == 0
        &&& 4u32 & 1u32 == 0 && 4u32 & 2u32 == 0 && 4u32 & 4u32 != 0 && 4u32 & 8u32 == 0
        &&& 8u32 & 1u32 == 0 && 8u32 & 2u32 == 0 && 8u32 & 4u32 == 0 && 8u32 & 8u32 != 0
        &&& 11u32 & 1u32 != 0 && 11u32 & 2u32 != 0 && 11u32 & 4u32 == 0 && 11u32 & 8u32 != 0
        &&& 12u32 & 1u32 == 0 && 12u32 & 2u32 == 0 && 12u32 & 4u32 != 0 && 12u32 & 8u32 != 0
        &&& 15u32 & 1u32 != 0 && 15u32 & 2u32 != 0 && 15u32 & 4u32 != 0 && 15u32 & 8u32 != 0
        &&& (1u32 | 2u32 | 8u32) == 11u32
        &&& (4u32 | 8u32) == 12u32
        &&& (1u32 | 2u32 | 4u32 | 8u32) == 15u32
    }) by (bit_vector);
}

/// The player collides with allies and enemies.
pub fn player_layers() -> (r: CollisionLayers)
    ensures
        r == CollisionLayers::of_player(),
        r.groups_are(set![GameLayer::Player]),
        r.masks_are(set![GameLayer::Ally, GameLayer::Enemy]),
{
    proof {
        lemma_layer_words();
    }
    CollisionLayers { groups: 1, masks: 4 | 8 }
}

/// An enemy collides with the player, the allies, the other enemies and the
/// charming area.
pub fn enemy_layers() -> (r: CollisionLayers)
    ensures
        r == CollisionLayers::of_enemy(),
        r.groups_are(set![GameLayer::Enemy]),
        r.masks_are(
            set![GameLayer::Player, GameLayer::ConvertingWeapon, GameLayer::Ally, GameLayer::Enemy],
        ),
{
    proof {
        lemma_layer_words();
    }
    CollisionLayers { groups: 8, masks: 1 | 2 | 4 | 8 }
}

/// An enemy of a wave collides with the player, the charming area and the
/// other enemies, but not with allies.
pub fn wave_enemy_layers() -> (r: CollisionLayers)
    ensures
        r == CollisionLayers::of_wave_enemy(),
        r.groups_are(set![GameLayer::Enemy]),
        r.masks_are(set![GameLayer::Player, GameLayer::ConvertingWeapon, GameLayer::Enemy]),
{
    proof {
        lemma_layer_words();
    }
    CollisionLayers { groups: 8, masks: 1 | 2 | 8 }
}

/// A charmed enemy keeps the masks of an enemy but joins the allies' group.
pub fn ally_layers() -> (r: CollisionLayers)
    ensures
        r == CollisionLayers::of_ally(),
        r.groups_are(set![GameLayer::Ally]),
        r.masks_are(
            set![GameLayer::Player, GameLayer::ConvertingWeapon, GameLayer::Ally, GameLayer::Enemy],
        ),
{
    proof {
        lemma_layer_words();
    }
    CollisionLayers { groups: 4, masks: 1 | 2 | 4 | 8 }
}

/// The charming area around the player touches allies and enemies.
pub fn charming_area_layers() -> (r: CollisionLayers)
    ensures
        r == CollisionLayers::of_charming_area(),
        r.groups_are(set![GameLayer::ConvertingWeapon]),
        r.masks_are(set![GameLayer::Ally, GameLayer::Enemy]),
{
    proof {
        lemma_layer_words();
    }
    CollisionLayers { groups: 2, masks: 4 | 8 }
}

#[derive(Debug, Clone, Copy, PartialEq, Eq, Structural)]
pub enum CollisionStatus {
    Started,
    Stopped,
}

/// A contact between two rigid bodies as the physics engine reports it.
#[derive(Debug, Clone, Copy, PartialEq, Eq, Structural)]
pub struct RawCollision {
    pub status: CollisionStatus,
    pub entity_1: EntityId,
    pub entity_2: EntityId,
    pub layers_1: CollisionLayers,
    pub layers_2: CollisionLayers,
}

#[derive(Debug, Clone, Copy, PartialEq, Eq, Structural)]
pub enum GameCollisionEvent {
    PlayerAndEnemy { status: CollisionStatus, player: EntityId, enemy: EntityId },
    AllyAndEnemy { status: CollisionStatus, ally: EntityId, enemy: EntityId },
    EnemyAndEnemy(CollisionStatus, EntityId, EntityId),
    ConvertingWeaponAndEnemy {
        status: CollisionStatus,
        converting_weapon: EntityId,
        enemy: EntityId,
    },
}

/// The game event a contact stands for. The first matching rule wins:
/// player and enemy, ally and enemy, two enemies, converting weapon and
/// enemy; each pair is tried in both orders.
pub open spec fn game_event_of(c: RawCollision) -> Option<GameCollisionEvent> {
    let (l1, l2) = (c.layers_1, c.layers_2);
    let (e1, e2) = (c.entity_1, c.entity_2);
    let status = c.status;
    if l1.has_group(GameLayer::Player) && l2.has_group(GameLayer::Enemy) {
        Some(GameCollisionEvent::PlayerAndEnemy { status, player: e1, enemy: e2 })
    } else if l2.has_group(GameLayer::Player) && l1.has_group(GameLayer::Enemy) {
        Some(GameCollisionEvent::PlayerAndEnemy { status, player: e2, enemy: e1 })
    } else if l1.has_group(GameLayer::Ally) && l2.has_group(GameLayer::Enemy) {
        Some(GameCollisionEvent::AllyAndEnemy { status, ally: e1, enemy: e2 })
    } else if l2.has_group(GameLayer::Ally) && l1.has_group(GameLayer::Enemy) {
        Some(GameCollisionEvent::AllyAndEnemy { status, ally: e2, enemy: e1 })
    } else if l1.has_group(GameLayer::Enemy) && l2.has_group(GameLayer::Enemy) {
        Some(GameCollisionEvent::EnemyAndEnemy(status, e1, e2))
    } else if l1.has_group(GameLayer::ConvertingWeapon) && l2.has_group(GameLayer::Enemy) {
        Some(
            GameCollisionEvent::ConvertingWeaponAndEnemy {
                status,
                converting_weapon: e1,
                enemy: e2,
            },
        )
    } else if l2.has_group(GameLayer::ConvertingWeapon) && l1.has_group(GameLayer::Enemy) {
        Some(
            GameCollisionEvent::ConvertingWeaponAndEnemy {
                status,
                converting_weapon: e2,
                enemy: e1,
            },
        )
    } else {
        None
    }
}

/// The game events of a run of contacts, in order; contacts that match no
/// rule produce nothing.
pub open spec fn game_events_of(cs: Seq<RawCollision>) -> Seq<GameCollisionEvent>
    decreases cs.len(),
{
    if cs.len() == 0 {
        seq![]
    } else {
        let before = game_events_of(cs.drop_last());
        match game_event_of(cs.last()) {
            Some(e) => before.push(e),
            None => before,
        }
    }
}

pub fn classify_collision(c: &RawCollision) -> (r: Option<GameCollisionEvent>)
    ensures
        r == game_event_of(*c),
{
    let status = c.status;
    let (l1, l2) = (&c.layers_1, &c.layers_2);
    let (e1, e2) = (c.entity_1, c.entity_2);
    if l1.contains_group(GameLayer::Player) && l2.contains_group(GameLayer::Enemy) {
        Some(GameCollisionEvent::PlayerAndEnemy { status, player: e1, enemy: e2 })
    } else if l2.contains_group(GameLayer::Player) && l1.contains_group(GameLayer::Enemy) {
        Some(GameCollisionEvent::PlayerAndEnemy { status, player: e2, enemy: e1 })
    } else if l1.contains_group(GameLayer::Ally) && l2.contains_group(GameLayer::Enemy) {
        Some(GameCollisionEvent::AllyAndEnemy { status, ally: e1, enemy: e2 })
    } else if l2.contains_group(GameLayer::Ally) && l1.contains_group(GameLayer::Enemy) {
        Some(GameCollisionEvent::AllyAndEnemy { status, ally: e2, enemy: e1 })
    } else if l1.contains_group(GameLayer::Enemy) && l2.contains_group(GameLayer::Enemy) {
        Some(GameCollisionEvent::EnemyAndEnemy(status, e1, e2))
    } else if l1.contains_group(GameLayer::ConvertingWeapon) && l2.contains_group(
        GameLayer::Enemy,
    ) {
        Some(
            GameCollisionEvent::ConvertingWeaponAndEnemy {
                status,
                converting_weapon: e1,
                enemy: e2,
            },
        )
    } else if l2.contains_group(GameLayer::ConvertingWeapon) && l1.contains_group(
        GameLayer::Enemy,
    ) {
        Some(
            GameCollisionEvent::ConvertingWeaponAndEnemy {
                status,
                converting_weapon: e2,
                enemy: e1,
            },
        )
    } else {
        None
    }
}

/// Turns the contacts reported during one frame into game events.
pub fn produce_game_collision_events(in_events: &Vec<RawCollision>) -> (out_events: Vec<
    GameCollisionEvent,
>)
    ensures
        out_events@ == game_events_of(in_events@),
{
    let mut out_events: Vec<GameCollisionEvent> = Vec::new();
    let mut i: usize = 0;
    while i < in_events.len()
        invariant
            i <= in_events.len(),
            out_events@ == game_events_of(in_events@.subrange(0, i as int)),
        decreases in_events.len() - i,
    {
        let event = classify_collision(&in_events[i]);
        assert(in_events@.subrange(0, i + 1).drop_last() =~= in_events@.subrange(0, i as int));
        match event {
            Some(e) => out_events.push(e),
            None => {},
        }
        i += 1;
    }
    assert(in_events@.subrange(0, i as int) =~= in_events@);
    out_events
}

} // verus!
