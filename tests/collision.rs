use charm_survivors::collision::{
    ally_layers, charming_area_layers, enemy_layers, player_layers, produce_game_collision_events,
    classify_collision, wave_enemy_layers, CollisionLayers, CollisionStatus, EntityId,
    GameCollisionEvent, GameLayer, RawCollision,
};

fn raw(status: CollisionStatus, a: u64, la: CollisionLayers, b: u64, lb: CollisionLayers) -> RawCollision {
    RawCollision { status, entity_1: EntityId(a), entity_2: EntityId(b), layers_1: la, layers_2: lb }
}

#[test]
fn layer_words() {
    assert_eq!(player_layers(), CollisionLayers { groups: 1, masks: 12 });
    assert_eq!(enemy_layers(), CollisionLayers { groups: 8, masks: 15 });
    assert_eq!(ally_layers(), CollisionLayers { groups: 4, masks: 15 });
    assert_eq!(charming_area_layers(), CollisionLayers { groups: 2, masks: 12 });
    assert_eq!(wave_enemy_layers(), CollisionLayers { groups: 8, masks: 11 });
    assert!(player_layers().contains_group(GameLayer::Player));
    assert!(!player_layers().contains_group(GameLayer::Enemy));
    assert!(player_layers().contains_mask(GameLayer::Enemy));
    assert!(!wave_enemy_layers().contains_mask(GameLayer::Ally));
    assert_eq!(GameLayer::Enemy.to_bits(), 8);
}

#[test]
fn player_and_enemy_in_either_order() {
    let e = classify_collision(&raw(CollisionStatus::Started, 1, player_layers(), 2, enemy_layers()));
    assert_eq!(
        e,
        Some(GameCollisionEvent::PlayerAndEnemy {
            status: CollisionStatus::Started,
            player: EntityId(1),
            enemy: EntityId(2)
        })
    );
    let e = classify_collision(&raw(CollisionStatus::Stopped, 2, enemy_layers(), 1, player_layers()));
    assert_eq!(
        e,
        Some(GameCollisionEvent::PlayerAndEnemy {
            status: CollisionStatus::Stopped,
            player: EntityId(1),
            enemy: EntityId(2)
        })
    );
}

#[test]
fn other_pairs() {
    let e = classify_collision(&raw(CollisionStatus::Started, 5, enemy_layers(), 6, ally_layers()));
    assert_eq!(
        e,
        Some(GameCollisionEvent::AllyAndEnemy {
            status: CollisionStatus::Started,
            ally: EntityId(6),
            enemy: EntityId(5)
        })
    );
    let e = classify_collision(&raw(CollisionStatus::Started, 5, enemy_layers(), 6, enemy_layers()));
    assert_eq!(e, Some(GameCollisionEvent::EnemyAndEnemy(CollisionStatus::Started, EntityId(5), EntityId(6))));
    let e = classify_collision(&raw(CollisionStatus::Stopped, 7, enemy_layers(), 3, charming_area_layers()));
    assert_eq!(
        e,
        Some(GameCollisionEvent::ConvertingWeaponAndEnemy {
            status: CollisionStatus::Stopped,
            converting_weapon: EntityId(3),
            enemy: EntityId(7)
        })
    );
    assert_eq!(classify_collision(&raw(CollisionStatus::Started, 1, player_layers(), 6, ally_layers())), None);
    assert_eq!(classify_collision(&raw(CollisionStatus::Started, 3, charming_area_layers(), 6, ally_layers())), None);
}

#[test]
fn player_rule_wins_over_the_others() {
    let both = CollisionLayers { groups: 1 | 4, masks: 0 };
    let e = classify_collision(&raw(CollisionStatus::Started, 1, both, 2, enemy_layers()));
    assert_eq!(
        e,
        Some(GameCollisionEvent::PlayerAndEnemy {
            status: CollisionStatus::Started,
            player: EntityId(1),
            enemy: EntityId(2)
        })
    );
}

#[test]
fn frame_of_contacts_keeps_order_and_drops_unknown_pairs() {
    let input = vec![
        raw(CollisionStatus::Started, 1, player_layers(), 2, enemy_layers()),
        raw(CollisionStatus::Started, 1, player_layers(), 9, ally_layers()),
        raw(CollisionStatus::Stopped, 3, enemy_layers(), 4, enemy_layers()),
    ];
    let out = produce_game_collision_events(&input);
    assert_eq!(
        out,
        vec![
            GameCollisionEvent::PlayerAndEnemy {
                status: CollisionStatus::Started,
                player: EntityId(1),
                enemy: EntityId(2)
            },
            GameCollisionEvent::EnemyAndEnemy(CollisionStatus::Stopped, EntityId(3), EntityId(4)),
        ]
    );
    assert!(produce_game_collision_events(&Vec::new()).is_empty());
}
