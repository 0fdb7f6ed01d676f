//! Sprite sheet layouts: which frames of which sheet play for each character
//! and gauge, and at what rate.
use vstd::prelude::*;

use crate::chance::{draw_below, flip_coin};
use crate::charm::Charmed;
use crate::health::Health;

verus! {

/// Frames `first..=last` of a sprite sheet, played at `frames_per_second`,
/// looping unless `once` is set.
#[derive(Debug, Clone, Copy, PartialEq, Eq, Structural)]
pub struct SpriteAnimation {
    pub first: usize,
    pub last: usize,
    pub frames_per_second: u32,
    pub once: bool,
}

impl SpriteAnimation {
    pub open spec fn looping(first: int, last: int, frames_per_second: u32) -> SpriteAnimation {
        SpriteAnimation {
            first: first as usize,
            last: last as usize,
            frames_per_second,
            once: false,
        }
    }

    /// Four frames from `first` at six frames per second: one move of a
    /// character sheet.
    pub open spec fn move_of(first: int) -> SpriteAnimation {
        SpriteAnimation::looping(first, first + 3, CHARACTER_FPS)
    }

    pub fn from_range(first: usize, last: usize, frames_per_second: u32) -> (r: SpriteAnimation)
        ensures
            r == SpriteAnimation::looping(first as int, last as int, frames_per_second),
    {
        SpriteAnimation { first, last, frames_per_second, once: false }
    }

    /// The same frames, played a single time.
    pub fn once(self) -> (r: SpriteAnimation)
        ensures
            r == (SpriteAnimation { once: true, ..self }),
    {
        SpriteAnimation { once: true, ..self }
    }
}

/// Frame rate of the character sheets.
pub const CHARACTER_FPS: u32 = 6;

/// Frame rate of the gauges drawn above units.
pub const SELECTOR_FPS: u32 = 12;

/// Frame rate of the charming area's smoke.
pub const CHARMING_AREA_FPS: u32 = 18;

fn character_move(first: usize) -> (r: SpriteAnimation)
    requires
        first + 3 <= usize::MAX,
    ensures
        r == SpriteAnimation::move_of(first as int),
{
    SpriteAnimation::from_range(first, first + 3, CHARACTER_FPS)
}

/// The smoke of the charming area: sixteen frames, played once per pulse.
pub fn charming_area_animation() -> (r: SpriteAnimation)
    ensures
        r == (SpriteAnimation { first: 0, last: 15, frames_per_second: CHARMING_AREA_FPS, once: true }),
{
    SpriteAnimation::from_range(0, 15, CHARMING_AREA_FPS).once()
}

/// The magic elementals; each owns the row of 25 frames of its code: its
/// head, then four frames for each move.
#[derive(Debug, Clone, Copy, PartialEq, Eq, Structural)]
pub enum Elemental {
    Air,
    Storm,
    Earth,
    Fire,
    Magma,
    Water,
    Ice,
    Magic,
    Psychic,
}

impl Elemental {
    /// The row of the character on its sheet.
    pub open spec fn code(self) -> int {
        match self {
            Elemental::Air => 1,
            Elemental::Storm => 2,
            Elemental::Earth => 3,
            Elemental::Fire => 4,
            Elemental::Magma => 5,
            Elemental::Water => 6,
            Elemental::Ice => 7,
            Elemental::Magic => 8,
            Elemental::Psychic => 9,
        }
    }

    pub fn discriminant(&self) -> (r: usize)
        ensures
            r == self.code(),
    {
        match self {
            Elemental::Air => 1,
            Elemental::Storm => 2,
            Elemental::Earth => 3,
            Elemental::Fire => 4,
            Elemental::Magma => 5,
            Elemental::Water => 6,
            Elemental::Ice => 7,
            Elemental::Magic => 8,
            Elemental::Psychic => 9,
        }
    }

    /// The code a draw of `roll` in `0..9` selects.
    pub open spec fn code_for_roll(roll: u32) -> int {
        if roll < 8 { roll + 1 } else { 9 }
    }

    /// The character a draw of `roll` in `0..9` selects, in declaration
    /// order; larger rolls select the last one.
    pub fn from_rng(roll: u32) -> (r: Elemental)
        ensures
            r.code() == Elemental::code_for_roll(roll),
    {
        match roll {
            0 => Elemental::Air,
            1 => Elemental::Storm,
            2 => Elemental::Earth,
            3 => Elemental::Fire,
            4 => Elemental::Magma,
            5 => Elemental::Water,
            6 => Elemental::Ice,
            7 => Elemental::Magic,
            _ => Elemental::Psychic,
        }
    }

    /// A character drawn uniformly at random.
    pub fn random() -> (r: Elemental)
        ensures
            exists|roll: u32| roll < 9 && r.code() == Elemental::code_for_roll(roll),
    {
        Elemental::from_rng(draw_below(9))
    }

    /// The frame of the character's head, first of its row.
    pub fn head_sprite_index(&self) -> (r: usize)
        ensures
            r == self.code() * 25,
    {
        self.discriminant() * 25
    }

    pub fn idle_animation(&self) -> (r: SpriteAnimation)
        ensures
            r == SpriteAnimation::move_of(self.code() * 25 + 1),
    {
        character_move(self.discriminant() * 25 + 1)
    }

    pub fn walk_animation(&self) -> (r: SpriteAnimation)
        ensures
            r == SpriteAnimation::move_of(self.code() * 25 + 5),
    {
        character_move(self.discriminant() * 25 + 5)
    }

    pub fn attack_animation(&self) -> (r: SpriteAnimation)
        ensures
            r == SpriteAnimation::move_of(self.code() * 25 + 9),
    {
        character_move(self.discriminant() * 25 + 9)
    }

    pub fn hit_animation(&self) -> (r: SpriteAnimation)
        ensures
            r == SpriteAnimation::move_of(self.code() * 25 + 13),
    {
        character_move(self.discriminant() * 25 + 13)
    }

    pub fn death_animation(&self) -> (r: SpriteAnimation)
        ensures
            r == SpriteAnimation::move_of(self.code() * 25 + 17),
    {
        character_move(self.discriminant() * 25 + 17)
    }

    pub fn special_animation(&self) -> (r: SpriteAnimation)
        ensures
            r == SpriteAnimation::move_of(self.code() * 25 + 21),
    {
        character_move(self.discriminant() * 25 + 21)
    }

}

/// The undead; each owns a row of 24 frames. Rows 0 and 8 hold no character.
#[derive(Debug, Clone, Copy, PartialEq, Eq, Structural)]
pub enum Necromancer {
    MaleSkeleton,
    MaleZombie,
    MaleSpider,
    MaleGhost,
    MaleVampire,
    MaleLich,
    MaleDeathKnight,
    FemaleSkeleton,
    FemaleZombie,
    FemaleSpider,
    FemaleGhost,
    FemaleVampire,
    FemaleLich,
    FemaleDeathKnight,
}

impl Necromancer {
    /// The row of the character on its sheet.
    pub open spec fn code(self) -> int {
        match self {
            Necromancer::MaleSkeleton => 1,
            Necromancer::MaleZombie => 2,
            Necromancer::MaleSpider => 3,
            Necromancer::MaleGhost => 4,
            Necromancer::MaleVampire => 5,
            Necromancer::MaleLich => 6,
            Necromancer::MaleDeathKnight => 7,
            Necromancer::FemaleSkeleton => 9,
            Necromancer::FemaleZombie => 10,
            Necromancer::FemaleSpider => 11,
            Necromancer::FemaleGhost => 12,
            Necromancer::FemaleVampire => 13,
            Necromancer::FemaleLich => 14,
            Necromancer::FemaleDeathKnight => 15,
        }
    }

    pub fn discriminant(&self) -> (r: usize)
        ensures
            r == self.code(),
    {
        match self {
            Necromancer::MaleSkeleton => 1,
            Necromancer::MaleZombie => 2,
            Necromancer::MaleSpider => 3,
            Necromancer::MaleGhost => 4,
            Necromancer::MaleVampire => 5,
            Necromancer::MaleLich => 6,
            Necromancer::MaleDeathKnight => 7,
            Necromancer::FemaleSkeleton => 9,
            Necromancer::FemaleZombie => 10,
            Necromancer::FemaleSpider => 11,
            Necromancer::FemaleGhost => 12,
            Necromancer::FemaleVampire => 13,
            Necromancer::FemaleLich => 14,
            Necromancer::FemaleDeathKnight => 15,
        }
    }

    /// The code a draw of `roll` in `0..14` selects.
    pub open spec fn code_for_roll(roll: u32) -> int {
        if roll < 7 { roll + 1 } else if roll < 14 { roll + 2 } else { 15 }
    }

    /// The character a draw of `roll` in `0..14` selects, in declaration
    /// order; larger rolls select the last one.
    pub fn from_rng(roll: u32) -> (r: Necromancer)
        ensures
            r.code() == Necromancer::code_for_roll(roll),
    {
        match roll {
            0 => Necromancer::MaleSkeleton,
            1 => Necromancer::MaleZombie,
            2 => Necromancer::MaleSpider,
            3 => Necromancer::MaleGhost,
            4 => Necromancer::MaleVampire,
            5 => Necromancer::MaleLich,
            6 => Necromancer::MaleDeathKnight,
            7 => Necromancer::FemaleSkeleton,
            8 => Necromancer::FemaleZombie,
            9 => Necromancer::FemaleSpider,
            10 => Necromancer::FemaleGhost,
            11 => Necromancer::FemaleVampire,
            12 => Necromancer::FemaleLich,
            _ => Necromancer::FemaleDeathKnight,
        }
    }

    /// A character drawn uniformly at random.
    pub fn random() -> (r: Necromancer)
        ensures
            exists|roll: u32| roll < 14 && r.code() == Necromancer::code_for_roll(roll),
    {
        Necromancer::from_rng(draw_below(14))
    }

    pub fn idle_animation(&self) -> (r: SpriteAnimation)
        ensures
            r == SpriteAnimation::move_of(self.code() * 24 + 0),
    {
        character_move(self.discriminant() * 24 + 0)
    }

    pub fn walk_animation(&self) -> (r: SpriteAnimation)
        ensures
            r == SpriteAnimation::move_of(self.code() * 24 + 4),
    {
        character_move(self.discriminant() * 24 + 4)
    }

    pub fn attack_animation(&self) -> (r: SpriteAnimation)
        ensures
            r == SpriteAnimation::move_of(self.code() * 24 + 8),
    {
        character_move(self.discriminant() * 24 + 8)
    }

    pub fn hit_animation(&self) -> (r: SpriteAnimation)
        ensures
            r == SpriteAnimation::move_of(self.code() * 24 + 12),
    {
        character_move(self.discriminant() * 24 + 12)
    }

    pub fn death_animation(&self) -> (r: SpriteAnimation)
        ensures
            r == SpriteAnimation::move_of(self.code() * 24 + 16),
    {
        character_move(self.discriminant() * 24 + 16)
    }

    /// Only vampires and liches have a special move, after their death.
    pub open spec fn has_special(self) -> bool {
        match self {
            Necromancer::MaleVampire | Necromancer::MaleLich | Necromancer::FemaleVampire
            | Necromancer::FemaleLich => true,
            _ => false,
        }
    }

    pub fn special_animation(&self) -> (r: Option<SpriteAnimation>)
        ensures
            self.has_special() ==> r == Some(SpriteAnimation::move_of(self.code() * 24 + 20)),
            !self.has_special() ==> r.is_none(),
    {
        match self {
            Necromancer::MaleVampire | Necromancer::MaleLich | Necromancer::FemaleVampire
            | Necromancer::FemaleLich => Some(character_move(self.discriminant() * 24 + 20)),
            _ => None,
        }
    }

}

/// The demons; each owns a row of 20 frames. Rows 0 and 8 hold no character.
#[derive(Debug, Clone, Copy, PartialEq, Eq, Structural)]
pub enum Inferno {
    MaleImp,
    MaleGog,
    MaleHellHound,
    MaleDemon,
    MalePitField,
    MaleEfreet,
    MaleDevil,
    FemaleImp,
    FemaleGog,
    FemaleHellHound,
    FemaleDemon,
    FemalePitField,
    FemaleEfreet,
    FemaleDevil,
}

impl Inferno {
    /// The row of the character on its sheet.
    pub open spec fn code(self) -> int {
        match self {
            Inferno::MaleImp => 1,
            Inferno::MaleGog => 2,
            Inferno::MaleHellHound => 3,
            Inferno::MaleDemon => 4,
            Inferno::MalePitField => 5,
            Inferno::MaleEfreet => 6,
            Inferno::MaleDevil => 7,
            Inferno::FemaleImp => 9,
            Inferno::FemaleGog => 10,
            Inferno::FemaleHellHound => 11,
            Inferno::FemaleDemon => 12,
            Inferno::FemalePitField => 13,
            Inferno::FemaleEfreet => 14,
            Inferno::FemaleDevil => 15,
        }
    }

    pub fn discriminant(&self) -> (r: usize)
        ensures
            r == self.code(),
    {
        match self {
            Inferno::MaleImp => 1,
            Inferno::MaleGog => 2,
            Inferno::MaleHellHound => 3,
            Inferno::MaleDemon => 4,
            Inferno::MalePitField => 5,
            Inferno::MaleEfreet => 6,
            Inferno::MaleDevil => 7,
            Inferno::FemaleImp => 9,
            Inferno::FemaleGog => 10,
            Inferno::FemaleHellHound => 11,
            Inferno::FemaleDemon => 12,
            Inferno::FemalePitField => 13,
            Inferno::FemaleEfreet => 14,
            Inferno::FemaleDevil => 15,
        }
    }

    /// The code a draw of `roll` in `0..14` selects.
    pub open spec fn code_for_roll(roll: u32) -> int {
        if roll < 7 { roll + 1 } else if roll < 14 { roll + 2 } else { 15 }
    }

    /// The character a draw of `roll` in `0..14` selects, in declaration
    /// order; larger rolls select the last one.
    pub fn from_rng(roll: u32) -> (r: Inferno)
        ensures
            r.code() == Inferno::code_for_roll(roll),
    {
        match roll {
            0 => Inferno::MaleImp,
            1 => Inferno::MaleGog,
            2 => Inferno::MaleHellHound,
            3 => Inferno::MaleDemon,
            4 => Inferno::MalePitField,
            5 => Inferno::MaleEfreet,
            6 => Inferno::MaleDevil,
            7 => Inferno::FemaleImp,
            8 => Inferno::FemaleGog,
            9 => Inferno::FemaleHellHound,
            10 => Inferno::FemaleDemon,
            11 => Inferno::FemalePitField,
            12 => Inferno::FemaleEfreet,
            _ => Inferno::FemaleDevil,
        }
    }

    /// A character drawn uniformly at random.
    pub fn random() -> (r: Inferno)
        ensures
            exists|roll: u32| roll < 14 && r.code() == Inferno::code_for_roll(roll),
    {
        Inferno::from_rng(draw_below(14))
    }

    pub fn idle_animation(&self) -> (r: SpriteAnimation)
        ensures
            r == SpriteAnimation::move_of(self.code() * 20 + 0),
    {
        character_move(self.discriminant() * 20 + 0)
    }

    pub fn walk_animation(&self) -> (r: SpriteAnimation)
        ensures
            r == SpriteAnimation::move_of(self.code() * 20 + 4),
    {
        character_move(self.discriminant() * 20 + 4)
    }

    pub fn attack_animation(&self) -> (r: SpriteAnimation)
        ensures
            r == SpriteAnimation::move_of(self.code() * 20 + 8),
    {
        character_move(self.discriminant() * 20 + 8)
    }

    pub fn hit_animation(&self) -> (r: SpriteAnimation)
        ensures
            r == SpriteAnimation::move_of(self.code() * 20 + 12),
    {
        character_move(self.discriminant() * 20 + 12)
    }

    pub fn death_animation(&self) -> (r: SpriteAnimation)
        ensures
            r == SpriteAnimation::move_of(self.code() * 20 + 16),
    {
        character_move(self.discriminant() * 20 + 16)
    }

}

/// The humans; each owns a row of 20 frames. Rows 0 and 8 hold no character.
#[derive(Debug, Clone, Copy, PartialEq, Eq, Structural)]
pub enum Castle {
    MalePikeman,
    MaleArcher,
    MaleGriffin,
    MaleSwordsman,
    SimpleMonk,
    MaleCavalier,
    MalePaladin,
    FemalePikeman,
    FemaleArcher,
    FemaleGriffin,
    FemaleSwordsman,
    SuperMonk,
    FemaleCavalier,
    FemalePaladin,
}

impl Castle {
    /// The row of the character on its sheet.
    pub open spec fn code(self) -> int {
        match self {
            Castle::MalePikeman => 1,
            Castle::MaleArcher => 2,
            Castle::MaleGriffin => 3,
            Castle::MaleSwordsman => 4,
            Castle::SimpleMonk => 5,
            Castle::MaleCavalier => 6,
            Castle::MalePaladin => 7,
            Castle::FemalePikeman => 9,
            Castle::FemaleArcher => 10,
            Castle::FemaleGriffin => 11,
            Castle::FemaleSwordsman => 12,
            Castle::SuperMonk => 13,
            Castle::FemaleCavalier => 14,
            Castle::FemalePaladin => 15,
        }
    }

    pub fn discriminant(&self) -> (r: usize)
        ensures
            r == self.code(),
    {
        match self {
            Castle::MalePikeman => 1,
            Castle::MaleArcher => 2,
            Castle::MaleGriffin => 3,
            Castle::MaleSwordsman => 4,
            Castle::SimpleMonk => 5,
            Castle::MaleCavalier => 6,
            Castle::MalePaladin => 7,
            Castle::FemalePikeman => 9,
            Castle::FemaleArcher => 10,
            Castle::FemaleGriffin => 11,
            Castle::FemaleSwordsman => 12,
            Castle::SuperMonk => 13,
            Castle::FemaleCavalier => 14,
            Castle::FemalePaladin => 15,
        }
    }

    /// The code a draw of `roll` in `0..14` selects.
    pub open spec fn code_for_roll(roll: u32) -> int {
        if roll < 7 { roll + 1 } else if roll < 14 { roll + 2 } else { 15 }
    }

    /// The character a draw of `roll` in `0..14` selects, in declaration
    /// order; larger rolls select the last one.
    pub fn from_rng(roll: u32) -> (r: Castle)
        ensures
            r.code() == Castle::code_for_roll(roll),
    {
        match roll {
            0 => Castle::MalePikeman,
            1 => Castle::MaleArcher,
            2 => Castle::MaleGriffin,
            3 => Castle::MaleSwordsman,
            4 => Castle::SimpleMonk,
            5 => Castle::MaleCavalier,
            6 => Castle::MalePaladin,
            7 => Castle::FemalePikeman,
            8 => Castle::FemaleArcher,
            9 => Castle::FemaleGriffin,
            10 => Castle::FemaleSwordsman,
            11 => Castle::SuperMonk,
            12 => Castle::FemaleCavalier,
            _ => Castle::FemalePaladin,
        }
    }

    /// A character drawn uniformly at random.
    pub fn random() -> (r: Castle)
        ensures
            exists|roll: u32| roll < 14 && r.code() == Castle::code_for_roll(roll),
    {
        Castle::from_rng(draw_below(14))
    }

    pub fn idle_animation(&self) -> (r: SpriteAnimation)
        ensures
            r == SpriteAnimation::move_of(self.code() * 20 + 0),
    {
        character_move(self.discriminant() * 20 + 0)
    }

    pub fn walk_animation(&self) -> (r: SpriteAnimation)
        ensures
            r == SpriteAnimation::move_of(self.code() * 20 + 4),
    {
        character_move(self.discriminant() * 20 + 4)
    }

    pub fn attack_animation(&self) -> (r: SpriteAnimation)
        ensures
            r == SpriteAnimation::move_of(self.code() * 20 + 8),
    {
        character_move(self.discriminant() * 20 + 8)
    }

    pub fn hit_animation(&self) -> (r: SpriteAnimation)
        ensures
            r == SpriteAnimation::move_of(self.code() * 20 + 12),
    {
        character_move(self.discriminant() * 20 + 12)
    }

    pub fn death_animation(&self) -> (r: SpriteAnimation)
        ensures
            r == SpriteAnimation::move_of(self.code() * 20 + 16),
    {
        character_move(self.discriminant() * 20 + 16)
    }

}

/// The heart gauge above a charmed ally; each state owns a row of 8 frames.
#[derive(Debug, Clone, Copy, PartialEq, Eq, Structural)]
pub enum PinkSelector {
    Full,
    TwoThird,
    OneThird,
    Empty,
}

impl PinkSelector {
    /// The row of the character on its sheet.
    pub open spec fn code(self) -> int {
        match self {
            PinkSelector::Full => 0,
            PinkSelector::TwoThird => 1,
            PinkSelector::OneThird => 2,
            PinkSelector::Empty => 3,
        }
    }

    pub fn discriminant(&self) -> (r: usize)
        ensures
            r == self.code(),
    {
        match self {
            PinkSelector::Full => 0,
            PinkSelector::TwoThird => 1,
            PinkSelector::OneThird => 2,
            PinkSelector::Empty => 3,
        }
    }

    pub fn animation(&self) -> (r: SpriteAnimation)
        ensures
            r == SpriteAnimation::looping(self.code() * 8, self.code() * 8 + 7, SELECTOR_FPS),
    {
        let index = self.discriminant() * 8;
        SpriteAnimation::from_range(index, index + 7, SELECTOR_FPS)
    }

    /// The gauge for the time a charm has left: full above three quarters,
    /// then two thirds above half, one third above a quarter, else empty.
    pub fn for_charm(charmed: &Charmed) -> (r: PinkSelector)
        ensures
            r == (if charmed.active_until.left_above_quarters(3) {
                PinkSelector::Full
            } else if charmed.active_until.left_above_quarters(2) {
                PinkSelector::TwoThird
            } else if charmed.active_until.left_above_quarters(1) {
                PinkSelector::OneThird
            } else {
                PinkSelector::Empty
            }),
    {
        if charmed.active_until.left_above(3) {
            PinkSelector::Full
        } else if charmed.active_until.left_above(2) {
            PinkSelector::TwoThird
        } else if charmed.active_until.left_above(1) {
            PinkSelector::OneThird
        } else {
            PinkSelector::Empty
        }
    }

}

/// The life gauge above the player; each state owns a row of 8 frames.
#[derive(Debug, Clone, Copy, PartialEq, Eq, Structural)]
pub enum RedSelector {
    Full,
    TwoThird,
    OneThird,
    Empty,
}

impl RedSelector {
    /// The row of the character on its sheet.
    pub open spec fn code(self) -> int {
        match self {
            RedSelector::Full => 0,
            RedSelector::TwoThird => 1,
            RedSelector::OneThird => 2,
            RedSelector::Empty => 3,
        }
    }

    pub fn discriminant(&self) -> (r: usize)
        ensures
            r == self.code(),
    {
        match self {
            RedSelector::Full => 0,
            RedSelector::TwoThird => 1,
            RedSelector::OneThird => 2,
            RedSelector::Empty => 3,
        }
    }

    pub fn animation(&self) -> (r: SpriteAnimation)
        ensures
            r == SpriteAnimation::looping(self.code() * 8, self.code() * 8 + 7, SELECTOR_FPS),
    {
        let index = self.discriminant() * 8;
        SpriteAnimation::from_range(index, index + 7, SELECTOR_FPS)
    }

    /// The gauge that shows a given health.
    pub fn for_health(health: Health) -> (r: RedSelector)
        ensures
            r.code() == 3 - health.thirds(),
    {
        match health {
            Health::Full => RedSelector::Full,
            Health::TwoThird => RedSelector::TwoThird,
            Health::OneThird => RedSelector::OneThird,
            Health::Empty => RedSelector::Empty,
        }
    }

}

/// The sprite sheets characters are cut from.
#[derive(Debug, Clone, Copy, PartialEq, Eq, Structural)]
pub enum CharacterSheet {
    MagicElementals,
    Necromancers,
    Infernos,
    Castle,
}

#[derive(Debug, Clone, Copy, PartialEq, Eq, Structural)]
pub enum Character {
    Elemental(Elemental),
    Necromancer(Necromancer),
    Inferno(Inferno),
    Castle(Castle),
}

/// The moves a character plays as it stands, walks, attacks and dies.
#[derive(Debug, Clone, Copy, PartialEq, Eq, Structural)]
pub struct CharactersAnimationsSet {
    pub idle: SpriteAnimation,
    pub walk: SpriteAnimation,
    pub attack: SpriteAnimation,
    pub death: SpriteAnimation,
}

/// Which of its moves a character plays.
#[derive(Debug, Clone, Copy, PartialEq, Eq, Structural)]
pub enum CharacterAnimation {
    Idle,
    Walk,
    Attack,
    Death,
}

impl CharactersAnimationsSet {
    pub open spec fn get(self, which: CharacterAnimation) -> SpriteAnimation {
        match which {
            CharacterAnimation::Idle => self.idle,
            CharacterAnimation::Walk => self.walk,
            CharacterAnimation::Attack => self.attack,
            CharacterAnimation::Death => self.death,
        }
    }

    pub fn animation(&self, which: CharacterAnimation) -> (r: SpriteAnimation)
        ensures
            r == self.get(which),
    {
        match which {
            CharacterAnimation::Idle => self.idle,
            CharacterAnimation::Walk => self.walk,
            CharacterAnimation::Attack => self.attack,
            CharacterAnimation::Death => self.death,
        }
    }
}

impl Character {
    pub open spec fn sheet_of(self) -> CharacterSheet {
        match self {
            Character::Elemental(_) => CharacterSheet::MagicElementals,
            Character::Necromancer(_) => CharacterSheet::Necromancers,
            Character::Inferno(_) => CharacterSheet::Infernos,
            Character::Castle(_) => CharacterSheet::Castle,
        }
    }

    /// The first frame of the character's idle move, from which its other
    /// moves follow four frames apart.
    pub open spec fn first_frame(self) -> int {
        match self {
            Character::Elemental(e) => e.code() * 25 + 1,
            Character::Necromancer(n) => n.code() * 24,
            Character::Inferno(i) => i.code() * 20,
            Character::Castle(c) => c.code() * 20,
        }
    }

    pub fn sheet(&self) -> (r: CharacterSheet)
        ensures
            r == self.sheet_of(),
    {
        match self {
            Character::Elemental(_) => CharacterSheet::MagicElementals,
            Character::Necromancer(_) => CharacterSheet::Necromancers,
            Character::Inferno(_) => CharacterSheet::Infernos,
            Character::Castle(_) => CharacterSheet::Castle,
        }
    }

    /// Idle, walk and attack loop; the death plays once.
    pub fn animations(&self) -> (r: CharactersAnimationsSet)
        ensures
            r.idle == SpriteAnimation::move_of(self.first_frame()),
            r.walk == SpriteAnimation::move_of(self.first_frame() + 4),
            r.attack == SpriteAnimation::move_of(self.first_frame() + 8),
            r.death == (SpriteAnimation {
                once: true,
                ..SpriteAnimation::move_of(self.first_frame() + 16)
            }),
    {
        match self {
            Character::Elemental(e) => CharactersAnimationsSet {
                idle: e.idle_animation(),
                walk: e.walk_animation(),
                attack: e.attack_animation(),
                death: e.death_animation().once(),
            },
            Character::Necromancer(n) => CharactersAnimationsSet {
                idle: n.idle_animation(),
                walk: n.walk_animation(),
                attack: n.attack_animation(),
                death: n.death_animation().once(),
            },
            Character::Inferno(i) => CharactersAnimationsSet {
                idle: i.idle_animation(),
                walk: i.walk_animation(),
                attack: i.attack_animation(),
                death: i.death_animation().once(),
            },
            Character::Castle(c) => CharactersAnimationsSet {
                idle: c.idle_animation(),
                walk: c.walk_animation(),
                attack: c.attack_animation(),
                death: c.death_animation().once(),
            },
        }
    }

    /// Whether this is the enemy a spawn picks: an elemental on a first
    /// heads, else a demon on a second heads, else an undead; `roll` then
    /// selects the character within its family.
    pub open spec fn is_enemy_for(self, first_heads: bool, second_heads: bool, roll: u32) -> bool {
        match self {
            Character::Elemental(e) => first_heads && e.code() == Elemental::code_for_roll(roll),
            Character::Inferno(i) => !first_heads && second_heads && i.code()
                == Inferno::code_for_roll(roll),
            Character::Necromancer(n) => !first_heads && !second_heads && n.code()
                == Necromancer::code_for_roll(roll),
            Character::Castle(_) => false,
        }
    }

    pub fn pick_enemy(first_heads: bool, second_heads: bool, roll: u32) -> (r: Character)
        ensures
            r.is_enemy_for(first_heads, second_heads, roll),
    {
        if first_heads {
            Character::Elemental(Elemental::from_rng(roll))
        } else if second_heads {
            Character::Inferno(Inferno::from_rng(roll))
        } else {
            Character::Necromancer(Necromancer::from_rng(roll))
        }
    }

    /// An enemy drawn at random: the coins and the roll come from the
    /// thread's generator, the roll below the size of the chosen family.
    pub fn random_enemy() -> (r: Character)
        ensures
            exists|first_heads: bool, second_heads: bool, roll: u32|
                roll < (if first_heads { 9u32 } else { 14u32 })
                && r.is_enemy_for(first_heads, second_heads, roll),
    {
        let first_heads = flip_coin();
        if first_heads {
            let roll = draw_below(9);
            Character::pick_enemy(first_heads, false, roll)
        } else {
            let second_heads = flip_coin();
            let roll = draw_below(14);
            Character::pick_enemy(first_heads, second_heads, roll)
        }
    }
}

/// The move a character plays: its death once its health is gone, else a
/// walk when it moves and idling when it does not.
pub fn motion_animation(health: Option<Health>, moving: bool) -> (r: CharacterAnimation)
    ensures
        r == (if health.is_some() && health.unwrap().thirds() == 0 {
            CharacterAnimation::Death
        } else if moving {
            CharacterAnimation::Walk
        } else {
            CharacterAnimation::Idle
        }),
{
    let dead = match health {
        Some(h) => h.is_empty(),
        None => false,
    };
    if dead {
        CharacterAnimation::Death
    } else if moving {
        CharacterAnimation::Walk
    } else {
        CharacterAnimation::Idle
    }
}

/// Whether a sprite is mirrored after its unit moved with the given sign of
/// horizontal speed: facing right when moving right, left when moving left,
/// unchanged when not moving sideways.
pub fn flip_from_motion(horizontal: i8, flip_x: bool) -> (r: bool)
    ensures
        r == (if horizontal > 0 {
            false
        } else if horizontal < 0 {
            true
        } else {
            flip_x
        }),
{
    if horizontal > 0 {
        false
    } else if horizontal < 0 {
        true
    } else {
        flip_x
    }
}

} // verus!
