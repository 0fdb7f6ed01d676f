use charm_survivors::charm::{
    apply_convertions, charm_convertions, mark_charmed_eligibles, roll_charm_convertions,
    tick_charmed, tick_charming_areas, AllyEnemyConvertionEvent, Charmed, CharmingArea,
    ConvertionOutcome, Fighter, Side, CHARMED_DURATION, CHARMING_AREA_COOLDOWN,
};
use charm_survivors::collision::{
    ally_layers, enemy_layers, CollisionStatus, EntityId, GameCollisionEvent,
};
use charm_survivors::sprites::PinkSelector;
use charm_survivors::timer::NANOS_PER_SEC;

fn eligible_enemy(id: u64) -> Fighter {
    let mut f = Fighter::enemy(EntityId(id));
    f.eligible.is_eligible = true;
    f
}

fn area_contact(status: CollisionStatus, enemy: u64) -> GameCollisionEvent {
    GameCollisionEvent::ConvertingWeaponAndEnemy {
        status,
        converting_weapon: EntityId(100),
        enemy: EntityId(enemy),
    }
}

#[test]
fn a_new_enemy_is_not_charmed() {
    let f = Fighter::enemy(EntityId(4));
    assert_eq!(f.side, Side::Enemy);
    assert_eq!(f.layers, enemy_layers());
    assert!(f.charmed.is_none());
    assert!(!f.eligible.is_eligible);
}

#[test]
fn charm_then_uncharm() {
    let mut f = Fighter::enemy(EntityId(4));
    assert_eq!(
        f.apply_convertion(&AllyEnemyConvertionEvent::EnemyIntoAlly(EntityId(5))),
        ConvertionOutcome::Unchanged
    );
    assert_eq!(f.side, Side::Enemy);
    assert_eq!(
        f.apply_convertion(&AllyEnemyConvertionEvent::AllyIntoEnemy(EntityId(4))),
        ConvertionOutcome::Unchanged
    );
    assert_eq!(
        f.apply_convertion(&AllyEnemyConvertionEvent::EnemyIntoAlly(EntityId(4))),
        ConvertionOutcome::Charmed
    );
    assert_eq!(f.side, Side::Ally);
    assert_eq!(f.layers, ally_layers());
    assert_eq!(f.charmed, Some(Charmed::new()));
    assert_eq!(
        f.apply_convertion(&AllyEnemyConvertionEvent::AllyIntoEnemy(EntityId(4))),
        ConvertionOutcome::Uncharmed
    );
    assert_eq!(f, Fighter::enemy(EntityId(4)));
}

#[test]
fn refreshing_restarts_the_charm() {
    let mut f = Fighter::enemy(EntityId(4));
    f.apply_convertion(&AllyEnemyConvertionEvent::EnemyIntoAlly(EntityId(4)));
    let mut fighters = vec![f];
    tick_charmed(&mut fighters, 10 * NANOS_PER_SEC);
    assert_eq!(fighters[0].charmed.unwrap().active_until.elapsed, 10 * NANOS_PER_SEC);
    let outcome =
        fighters[0].apply_convertion(&AllyEnemyConvertionEvent::AllyResetCharming(EntityId(4)));
    assert_eq!(outcome, ConvertionOutcome::Refreshed);
    assert_eq!(fighters[0].charmed, Some(Charmed::new()));
    let mut enemy = Fighter::enemy(EntityId(4));
    assert_eq!(
        enemy.apply_convertion(&AllyEnemyConvertionEvent::AllyResetCharming(EntityId(4))),
        ConvertionOutcome::Unchanged
    );
}

#[test]
fn charms_run_out_after_their_duration() {
    let mut charmed = Fighter::enemy(EntityId(1));
    charmed.apply_convertion(&AllyEnemyConvertionEvent::EnemyIntoAlly(EntityId(1)));
    let mut fighters = vec![charmed, Fighter::enemy(EntityId(2))];
    let out = tick_charmed(&mut fighters, CHARMED_DURATION - 1);
    assert!(out.is_empty());
    let out = tick_charmed(&mut fighters, 1);
    assert_eq!(out, vec![AllyEnemyConvertionEvent::AllyIntoEnemy(EntityId(1))]);
    assert!(fighters[1].charmed.is_none());
    apply_convertions(&mut fighters, &out);
    assert_eq!(fighters[0], Fighter::enemy(EntityId(1)));
}

#[test]
fn events_apply_to_the_units_they_name_in_order() {
    let mut fighters = vec![Fighter::enemy(EntityId(1)), Fighter::enemy(EntityId(2))];
    let events = vec![
        AllyEnemyConvertionEvent::EnemyIntoAlly(EntityId(2)),
        AllyEnemyConvertionEvent::AllyIntoEnemy(EntityId(1)),
        AllyEnemyConvertionEvent::AllyResetCharming(EntityId(2)),
    ];
    apply_convertions(&mut fighters, &events);
    assert_eq!(fighters[0], Fighter::enemy(EntityId(1)));
    assert_eq!(fighters[1].side, Side::Ally);
    assert_eq!(fighters[1].charmed, Some(Charmed::new()));
}

#[test]
fn the_last_area_contact_decides_eligibility() {
    let mut fighters = vec![Fighter::enemy(EntityId(1)), eligible_enemy(2), Fighter::enemy(EntityId(3))];
    let events = vec![
        area_contact(CollisionStatus::Started, 1),
        area_contact(CollisionStatus::Stopped, 2),
        area_contact(CollisionStatus::Started, 3),
        area_contact(CollisionStatus::Stopped, 3),
        GameCollisionEvent::EnemyAndEnemy(CollisionStatus::Started, EntityId(1), EntityId(3)),
    ];
    mark_charmed_eligibles(&mut fighters, &events);
    assert!(fighters[0].eligible.is_eligible);
    assert!(!fighters[1].eligible.is_eligible);
    assert!(!fighters[2].eligible.is_eligible);
}

#[test]
fn lucky_eligible_units_are_converted() {
    let mut ally = eligible_enemy(3);
    ally.apply_convertion(&AllyEnemyConvertionEvent::EnemyIntoAlly(EntityId(3)));
    let fighters = vec![eligible_enemy(1), Fighter::enemy(EntityId(2)), ally, eligible_enemy(4)];
    let out = charm_convertions(&fighters, &vec![true, true, true, false]);
    assert_eq!(
        out,
        vec![
            AllyEnemyConvertionEvent::EnemyIntoAlly(EntityId(1)),
            AllyEnemyConvertionEvent::AllyResetCharming(EntityId(3)),
        ]
    );
}

#[test]
fn units_outside_the_area_are_never_rolled() {
    let fighters = vec![Fighter::enemy(EntityId(1)), Fighter::enemy(EntityId(2))];
    assert!(roll_charm_convertions(&fighters).is_empty());
}

#[test]
fn rolled_events_only_name_eligible_units() {
    let fighters: Vec<Fighter> = (0..200).map(|i| if i % 2 == 0 { eligible_enemy(i) } else { Fighter::enemy(EntityId(i)) }).collect();
    let out = roll_charm_convertions(&fighters);
    for e in &out {
        match e {
            AllyEnemyConvertionEvent::EnemyIntoAlly(EntityId(id)) => assert_eq!(id % 2, 0),
            other => panic!("unexpected {:?}", other),
        }
    }
    assert!(out.len() < 100);
}

#[test]
fn the_area_pulses_on_its_cooldown() {
    let mut area = CharmingArea::new();
    let fighters = vec![Fighter::enemy(EntityId(1))];
    assert!(tick_charming_areas(&mut area, CHARMING_AREA_COOLDOWN - 1, &fighters).is_none());
    let pulse = tick_charming_areas(&mut area, 1, &fighters);
    assert_eq!(pulse, Some(Vec::new()));
    assert_eq!(area, CharmingArea::new());
}

#[test]
fn gauge_follows_the_charm() {
    let mut c = Charmed::new();
    assert_eq!(PinkSelector::for_charm(&c), PinkSelector::Full);
    c.active_until.tick(CHARMED_DURATION / 4);
    assert_eq!(PinkSelector::for_charm(&c), PinkSelector::TwoThird);
    c.active_until.tick(CHARMED_DURATION / 4);
    assert_eq!(PinkSelector::for_charm(&c), PinkSelector::OneThird);
    c.active_until.tick(CHARMED_DURATION / 4);
    assert_eq!(PinkSelector::for_charm(&c), PinkSelector::Empty);
    c.active_until.tick(1);
    assert_eq!(PinkSelector::for_charm(&c), PinkSelector::Empty);
}
