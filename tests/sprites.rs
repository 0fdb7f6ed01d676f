use charm_survivors::health::Health;
use charm_survivors::sprites::{
    charming_area_animation, flip_from_motion, motion_animation, Castle, Character,
    CharacterAnimation, CharacterSheet, Elemental, Inferno, Necromancer, PinkSelector, RedSelector,
    SpriteAnimation,
};

fn looping(first: usize, last: usize, fps: u32) -> SpriteAnimation {
    SpriteAnimation { first, last, frames_per_second: fps, once: false }
}

#[test]
fn elemental_rows() {
    assert_eq!(Elemental::Air.head_sprite_index(), 25);
    assert_eq!(Elemental::Air.idle_animation(), looping(26, 29, 6));
    assert_eq!(Elemental::Fire.walk_animation(), looping(105, 108, 6));
    assert_eq!(Elemental::Psychic.special_animation(), looping(246, 249, 6));
    assert_eq!(Elemental::Magma.attack_animation(), looping(134, 137, 6));
    assert_eq!(Elemental::Water.hit_animation(), looping(163, 166, 6));
    assert_eq!(Elemental::Ice.death_animation(), looping(192, 195, 6));
}

#[test]
fn elemental_rolls() {
    assert_eq!(Elemental::from_rng(0).discriminant(), 1);
    assert_eq!(Elemental::from_rng(7).discriminant(), 8);
    assert_eq!(Elemental::from_rng(8).discriminant(), 9);
    assert_eq!(Elemental::from_rng(1000).discriminant(), 9);
}

#[test]
fn family_rolls_skip_the_empty_row() {
    assert_eq!(Necromancer::from_rng(6).discriminant(), 7);
    assert_eq!(Necromancer::from_rng(7).discriminant(), 9);
    assert_eq!(Necromancer::from_rng(13).discriminant(), 15);
    assert_eq!(Inferno::from_rng(0).discriminant(), 1);
    assert_eq!(Inferno::from_rng(12).discriminant(), 14);
    assert_eq!(Castle::from_rng(4).discriminant(), 5);
    assert_eq!(Castle::from_rng(11).discriminant(), 13);
}

#[test]
fn family_rows() {
    assert_eq!(Necromancer::MaleSkeleton.idle_animation(), looping(24, 27, 6));
    assert_eq!(Necromancer::FemaleLich.death_animation(), looping(352, 355, 6));
    assert_eq!(Necromancer::MaleZombie.hit_animation(), looping(60, 63, 6));
    assert_eq!(Inferno::FemaleImp.walk_animation(), looping(184, 187, 6));
    assert_eq!(Inferno::MaleDevil.attack_animation(), looping(148, 151, 6));
    assert_eq!(Castle::SimpleMonk.idle_animation(), looping(100, 103, 6));
    assert_eq!(Castle::SuperMonk.hit_animation(), looping(272, 275, 6));
}

#[test]
fn only_vampires_and_liches_have_a_special() {
    assert_eq!(Necromancer::MaleVampire.special_animation(), Some(looping(140, 143, 6)));
    assert_eq!(Necromancer::FemaleLich.special_animation(), Some(looping(356, 359, 6)));
    assert_eq!(Necromancer::MaleGhost.special_animation(), None);
    assert_eq!(Necromancer::FemaleSkeleton.special_animation(), None);
}

#[test]
fn gauges() {
    assert_eq!(PinkSelector::Full.animation(), looping(0, 7, 12));
    assert_eq!(PinkSelector::Empty.animation(), looping(24, 31, 12));
    assert_eq!(RedSelector::TwoThird.animation(), looping(8, 15, 12));
    assert_eq!(RedSelector::for_health(Health::Full), RedSelector::Full);
    assert_eq!(RedSelector::for_health(Health::TwoThird), RedSelector::TwoThird);
    assert_eq!(RedSelector::for_health(Health::OneThird), RedSelector::OneThird);
    assert_eq!(RedSelector::for_health(Health::Empty), RedSelector::Empty);
}

#[test]
fn charming_area_smoke_plays_once() {
    assert_eq!(
        charming_area_animation(),
        SpriteAnimation { first: 0, last: 15, frames_per_second: 18, once: true }
    );
}

#[test]
fn a_character_set_of_moves() {
    let set = Character::Castle(Castle::SimpleMonk).animations();
    assert_eq!(set.idle, looping(100, 103, 6));
    assert_eq!(set.walk, looping(104, 107, 6));
    assert_eq!(set.attack, looping(108, 111, 6));
    assert_eq!(set.death, SpriteAnimation { first: 116, last: 119, frames_per_second: 6, once: true });
    assert_eq!(set.animation(CharacterAnimation::Walk), set.walk);
    assert_eq!(Character::Elemental(Elemental::Air).animations().idle, looping(26, 29, 6));
    assert_eq!(Character::Castle(Castle::SimpleMonk).sheet(), CharacterSheet::Castle);
    assert_eq!(Character::Inferno(Inferno::MaleImp).sheet(), CharacterSheet::Infernos);
}

#[test]
fn enemy_picks() {
    assert_eq!(Character::pick_enemy(true, true, 2), Character::Elemental(Elemental::Earth));
    assert_eq!(Character::pick_enemy(false, true, 7), Character::Inferno(Inferno::FemaleImp));
    assert_eq!(Character::pick_enemy(false, false, 4), Character::Necromancer(Necromancer::MaleVampire));
}

#[test]
fn random_draws_stay_in_their_families() {
    for _ in 0..200 {
        assert!(!matches!(Character::random_enemy(), Character::Castle(_)));
        let e = Elemental::random().discriminant();
        assert!((1..=9).contains(&e));
        let n = Necromancer::random().discriminant();
        assert!((1..=15).contains(&n) && n != 8);
        let c = Castle::random().discriminant();
        assert!((1..=15).contains(&c) && c != 8);
        let i = Inferno::random().discriminant();
        assert!((1..=15).contains(&i) && i != 8);
    }
}

#[test]
fn random_draws_reach_the_last_character() {
    let mut seen_last = false;
    for _ in 0..2000 {
        if Elemental::random().discriminant() == 9 {
            seen_last = true;
        }
    }
    assert!(seen_last);
}

#[test]
fn motion_picks_the_move() {
    assert_eq!(motion_animation(Some(Health::Empty), true), CharacterAnimation::Death);
    assert_eq!(motion_animation(Some(Health::Full), true), CharacterAnimation::Walk);
    assert_eq!(motion_animation(None, false), CharacterAnimation::Idle);
    assert!(!flip_from_motion(1, true));
    assert!(flip_from_motion(-1, false));
    assert!(flip_from_motion(0, true));
    assert!(!flip_from_motion(0, false));
}

#[test]
fn random_draws_cover_the_range() {
    let mut codes = std::collections::BTreeSet::new();
    let mut families = [false; 3];
    for _ in 0..3000 {
        codes.insert(Necromancer::random().discriminant());
        match Character::random_enemy() {
            Character::Elemental(_) => families[0] = true,
            Character::Inferno(_) => families[1] = true,
            Character::Necromancer(_) => families[2] = true,
            Character::Castle(_) => panic!("the player's family is never drawn"),
        }
    }
    assert_eq!(codes.len(), 14);
    assert!(codes.contains(&1) && codes.contains(&15));
    assert_eq!(families, [true, true, true]);
}
