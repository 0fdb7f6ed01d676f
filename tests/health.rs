use charm_survivors::collision::{CollisionStatus, EntityId, GameCollisionEvent};
use charm_survivors::health::{
    applying_player_damage, mark_player_as_taking_damage, move_direction, Health, Invulnerable,
    TakingDamage, Tint, INVULNERABLE_DURATION,
};

fn contact(status: CollisionStatus, enemy: u64) -> GameCollisionEvent {
    GameCollisionEvent::PlayerAndEnemy { status, player: EntityId(1), enemy: EntityId(enemy) }
}

#[test]
fn damage_steps_down_to_empty() {
    assert_eq!(Health::Full.take_damage(), Health::TwoThird);
    assert_eq!(Health::TwoThird.take_damage(), Health::OneThird);
    assert_eq!(Health::OneThird.take_damage(), Health::Empty);
    assert_eq!(Health::Empty.take_damage(), Health::Empty);
    assert!(Health::Empty.is_empty());
    assert!(!Health::OneThird.is_empty());
}

#[test]
fn contacts_are_counted() {
    let mut taking = TakingDamage::new();
    let events = vec![
        contact(CollisionStatus::Started, 2),
        contact(CollisionStatus::Started, 3),
        GameCollisionEvent::EnemyAndEnemy(CollisionStatus::Started, EntityId(2), EntityId(3)),
        contact(CollisionStatus::Stopped, 2),
    ];
    mark_player_as_taking_damage(&mut taking, &events);
    assert_eq!(taking.count, 1);
}

#[test]
fn contact_count_never_goes_below_zero_or_wraps() {
    let mut taking = TakingDamage::new();
    mark_player_as_taking_damage(&mut taking, &vec![contact(CollisionStatus::Stopped, 2)]);
    assert_eq!(taking.count, 0);
    let mut full = TakingDamage { count: usize::MAX };
    mark_player_as_taking_damage(&mut full, &vec![contact(CollisionStatus::Started, 2)]);
    assert_eq!(full.count, usize::MAX);
}

#[test]
fn the_player_starts_hurtable() {
    let inv = Invulnerable::expired();
    assert!(!inv.is_active());
    assert_eq!(inv.tint(), Tint::Plain);
    assert_eq!(inv.active_until.elapsed, INVULNERABLE_DURATION);
}

#[test]
fn each_contact_hits_once_and_opens_the_window() {
    let taking = TakingDamage { count: 2 };
    let mut inv = Invulnerable::expired();
    let mut health = Health::Full;
    applying_player_damage(&taking, &mut inv, &mut health);
    assert_eq!(health, Health::OneThird);
    assert!(inv.is_active());
    assert_eq!(inv.tint(), Tint::Red);
    assert_eq!(inv.active_until.elapsed, 0);

    applying_player_damage(&taking, &mut inv, &mut health);
    assert_eq!(health, Health::OneThird);

    inv.tick(INVULNERABLE_DURATION);
    assert!(!inv.is_active());
    applying_player_damage(&taking, &mut inv, &mut health);
    assert_eq!(health, Health::Empty);
}

#[test]
fn no_contact_no_damage() {
    let mut inv = Invulnerable::expired();
    let mut health = Health::Full;
    applying_player_damage(&TakingDamage::new(), &mut inv, &mut health);
    assert_eq!(health, Health::Full);
    assert!(!inv.is_active());
}

#[test]
fn many_contacts_empty_the_gauge() {
    let mut inv = Invulnerable::expired();
    let mut health = Health::Full;
    applying_player_damage(&TakingDamage { count: 7 }, &mut inv, &mut health);
    assert_eq!(health, Health::Empty);
    assert!(inv.is_active());
}

#[test]
fn keys_give_a_direction() {
    assert_eq!(move_direction(Health::Full, true, false, false, false), Some((0, 1)));
    assert_eq!(move_direction(Health::Full, true, true, true, true), Some((1, 1)));
    assert_eq!(move_direction(Health::OneThird, false, true, false, true), Some((-1, -1)));
    assert_eq!(move_direction(Health::Full, false, false, false, false), Some((0, 0)));
    assert_eq!(move_direction(Health::Empty, true, false, false, false), None);
}

#[test]
fn started_then_stopped_contact_balances() {
    for start in [0usize, 1, 41, usize::MAX - 1] {
        let mut taking = TakingDamage { count: start };
        let events = vec![contact(CollisionStatus::Started, 5), contact(CollisionStatus::Stopped, 5)];
        mark_player_as_taking_damage(&mut taking, &events);
        assert_eq!(taking.count, start);
    }
}

#[test]
fn hits_add_up() {
    let once = Health::Full.take_damage();
    let twice = once.take_damage();
    let mut inv = Invulnerable::expired();
    let mut health = Health::Full;
    applying_player_damage(&TakingDamage { count: 2 }, &mut inv, &mut health);
    assert_eq!(health, twice);
    assert_eq!(twice, Health::OneThird);
}
