//! Enemy waves: what each kind of enemy looks like, when a wave spawns, where
//! the first horde stands, and the path of a formation that sweeps down the
//! screen like space invaders.
use vstd::prelude::*;

use crate::timer::Timer;

verus! {

/// Half the side of the square in which a wave's groups appear around the
/// player, before they are pushed out of the dead zone.
pub const WAVE_ORIGIN_RANGE: u32 = 10;

/// Distance by which a group's origin is pushed away from the player.
pub const WAVE_DEADZONE: u32 = 10;

/// The first horde stands on the cells with `x` in this range...
pub const HORDE_MIN_X: i32 = -15;

pub const HORDE_MAX_X: i32 = -5;

/// ... and `y` in this one.
pub const HORDE_MIN_Y: i32 = -5;

pub const HORDE_MAX_Y: i32 = 5;

/// Time a formation takes to cross the screen sideways, in milliseconds.
pub const INVADER_SWEEP_MILLIS: u64 = 4_000;

/// Time a formation takes to step down one row, in milliseconds.
pub const INVADER_DROP_MILLIS: u64 = 50;

#[derive(Debug, Clone, Copy, PartialEq, Eq, Structural)]
pub enum EnemyKind {
    BlueFish,
    BigRedFish,
    Pumpkin,
    SkeletonHead,
    Knife,
}

/// The icon sheets enemies are cut from.
#[derive(Debug, Clone, Copy, PartialEq, Eq, Structural)]
pub enum Iconset {
    Fantasy,
    Halloween,
}

/// The turn that makes an icon face right: slanted icons are drawn along a
/// diagonal, upright ones standing.
#[derive(Debug, Clone, Copy, PartialEq, Eq, Structural)]
pub enum BaseRotation {
    Slanted,
    Upright,
}

#[derive(Debug, Clone, Copy, PartialEq, Eq, Structural)]
pub struct EnemyAppearance {
    pub iconset: Iconset,
    pub sprite_index: usize,
    /// Large enemies are drawn and collide at twice the usual size.
    pub large: bool,
    pub base_rotation: BaseRotation,
    pub base_flip_x: bool,
}

impl EnemyKind {
    pub open spec fn looks(self) -> EnemyAppearance {
        match self {
            EnemyKind::BlueFish => EnemyAppearance {
                iconset: Iconset::Fantasy,
                sprite_index: 162,
                large: false,
                base_rotation: BaseRotation::Slanted,
                base_flip_x: false,
            },
            EnemyKind::BigRedFish => EnemyAppearance {
                iconset: Iconset::Fantasy,
                sprite_index: 165,
                large: true,
                base_rotation: BaseRotation::Slanted,
                base_flip_x: false,
            },
            EnemyKind::Pumpkin => EnemyAppearance {
                iconset: Iconset::Halloween,
                sprite_index: 0,
                large: false,
                base_rotation: BaseRotation::Upright,
                base_flip_x: false,
            },
            EnemyKind::SkeletonHead => EnemyAppearance {
                iconset: Iconset::Halloween,
                sprite_index: 1,
                large: false,
                base_rotation: BaseRotation::Upright,
                base_flip_x: true,
            },
            EnemyKind::Knife => EnemyAppearance {
                iconset: Iconset::Halloween,
                sprite_index: 26,
                large: false,
                base_rotation: BaseRotation::Slanted,
                base_flip_x: false,
            },
        }
    }

    pub fn appearance(&self) -> (r: EnemyAppearance)
        ensures
            r == self.looks(),
    {
        match self {
            EnemyKind::BlueFish => EnemyAppearance {
                iconset: Iconset::Fantasy,
                sprite_index: 162,
                large: false,
                base_rotation: BaseRotation::Slanted,
                base_flip_x: false,
            },
            EnemyKind::BigRedFish => EnemyAppearance {
                iconset: Iconset::Fantasy,
                sprite_index: 165,
                large: true,
                base_rotation: BaseRotation::Slanted,
                base_flip_x: false,
            },
            EnemyKind::Pumpkin => EnemyAppearance {
                iconset: Iconset::Halloween,
                sprite_index: 0,
                large: false,
                base_rotation: BaseRotation::Upright,
                base_flip_x: false,
            },
            EnemyKind::SkeletonHead => EnemyAppearance {
                iconset: Iconset::Halloween,
                sprite_index: 1,
                large: false,
                base_rotation: BaseRotation::Upright,
                base_flip_x: true,
            },
            EnemyKind::Knife => EnemyAppearance {
                iconset: Iconset::Halloween,
                sprite_index: 26,
                large: false,
                base_rotation: BaseRotation::Slanted,
                base_flip_x: false,
            },
        }
    }
}

/// How the enemies of a wave move once spawned.
#[derive(Debug, Clone, Copy, PartialEq, Eq, Structural)]
pub enum MovementKind {
    /// Follows the player closely.
    Tracking,
    /// Spawns far and walks slowly towards the player.
    SlowWalking,
    /// Spawns far as a group and runs to where the player was.
    RunningGroup,
}

impl MovementKind {
    /// Radius of the disc around its group's origin where an enemy appears.
    pub open spec fn radius(self) -> u32 {
        match self {
            MovementKind::Tracking => 3,
            _ => 10,
        }
    }

    /// Distance by which an enemy is then pushed away from the origin.
    pub open spec fn deadzone(self) -> u32 {
        match self {
            MovementKind::SlowWalking => 3,
            _ => 0,
        }
    }

    pub fn spawn_radius(&self) -> (r: u32)
        ensures
            r == self.radius(),
    {
        match self {
            MovementKind::Tracking => 3,
            _ => 10,
        }
    }

    pub fn spawn_deadzone(&self) -> (r: u32)
        ensures
            r == self.deadzone(),
    {
        match self {
            MovementKind::SlowWalking => 3,
            _ => 0,
        }
    }
}

/// Number of enemies in each group of a wave.
#[derive(Debug, Clone, Copy, PartialEq, Eq, Structural)]
pub struct EnemyWaveSize(pub usize);

/// Number of groups a wave spawns each time its timer ends.
#[derive(Debug, Clone, Copy, PartialEq, Eq, Structural)]
pub struct EnemyWavesCount(pub usize);

/// A source of enemies that spawns groups each time its timer ends.
#[derive(Debug, Clone, Copy, PartialEq, Eq, Structural)]
pub struct EnemyWaveBundle {
    pub kind: EnemyKind,
    pub timer: Timer,
    pub size: EnemyWaveSize,
    pub count: EnemyWavesCount,
    pub movement_kind: MovementKind,
}

impl EnemyWaveBundle {
    /// Advances the wave's timer by `delta` nanoseconds and returns how many
    /// groups spawn now: all of them in a frame where the timer ended, none
    /// otherwise.
    pub fn tick(&mut self, delta: u64) -> (groups: usize)
        requires
            old(self).timer.repeating ==> old(self).timer.duration > 0,
        ensures
            *final(self) == (EnemyWaveBundle { timer: old(self).timer.ticked(delta), ..*old(self) }),
            groups == (if final(self).timer.times_finished > 0 {
                old(self).count.0
            } else {
                0
            }),
    {
        self.timer.tick(delta);
        if self.timer.just_finished() {
            self.count.0
        } else {
            0
        }
    }
}

/// How an enemy that moves towards the player is drawn.
#[derive(Debug, Clone, Copy, PartialEq, Eq, Structural)]
pub struct Facing {
    pub flip_x: bool,
    /// Whether the icon is turned half a turn, against its base rotation.
    pub turned_around: bool,
}

/// An enemy to the right of the player looks left: its icon is mirrored
/// against its base and turned around; otherwise it keeps its base.
pub fn sprite_facing(right_of_player: bool, base_flip_x: bool) -> (r: Facing)
    ensures
        r.turned_around == right_of_player,
        r.flip_x == (base_flip_x != right_of_player),
{
    if right_of_player {
        Facing { flip_x: !base_flip_x, turned_around: true }
    } else {
        Facing { flip_x: base_flip_x, turned_around: false }
    }
}

/// The cell of the first horde at position `i`, column by column.
pub open spec fn horde_cell(i: int) -> (i32, i32) {
    ((HORDE_MIN_X + i / 11) as i32, (HORDE_MIN_Y + i % 11) as i32)
}

/// The cells on which the first horde of enemies stands: every cell of the
/// rectangle, column by column from the left, each column from the bottom.
pub fn enemy_spawn_cells() -> (r: Vec<(i32, i32)>)
    ensures
        r@.len() == 121,
        forall|i: int| 0 <= i < r@.len() ==> #[trigger] r@[i] == horde_cell(i),
{
    let mut cells: Vec<(i32, i32)> = Vec::new();
    let mut x: i32 = HORDE_MIN_X;
    while x <= HORDE_MAX_X
        invariant
            HORDE_MIN_X <= x <= HORDE_MAX_X + 1,
            cells@.len() == (x - HORDE_MIN_X) * 11,
            forall|i: int| 0 <= i < cells@.len() ==> #[trigger] cells@[i] == horde_cell(i),
        decreases HORDE_MAX_X + 1 - x,
    {
        let mut y: i32 = HORDE_MIN_Y;
        while y <= HORDE_MAX_Y
            invariant
                HORDE_MIN_X <= x <= HORDE_MAX_X,
                HORDE_MIN_Y <= y <= HORDE_MAX_Y + 1,
                cells@.len() == (x - HORDE_MIN_X) * 11 + (y - HORDE_MIN_Y),
                forall|i: int| 0 <= i < cells@.len() ==> #[trigger] cells@[i] == horde_cell(i),
            decreases HORDE_MAX_Y + 1 - y,
        {
            let ghost n = cells@.len() as int;
            assert(n / 11 == x - HORDE_MIN_X && n % 11 == y - HORDE_MIN_Y);
            cells.push((x, y));
            y += 1;
        }
        x += 1;
    }
    cells
}

/// The axis a move of the formation slides along.
#[derive(Debug, Clone, Copy, PartialEq, Eq, Structural)]
pub enum Axis {
    X,
    Y,
}

/// A point of the formation's path, in widths to the right and heights up
/// from where it starts.
#[derive(Debug, Clone, Copy, PartialEq, Eq, Structural)]
pub struct GridOffset {
    pub widths: i64,
    pub heights: i64,
}

#[derive(Debug, Clone, Copy, PartialEq, Eq, Structural)]
pub struct InvaderMove {
    pub slide_on: Axis,
    pub start: GridOffset,
    pub end: GridOffset,
    pub duration_millis: u64,
}

pub open spec fn offset(widths: int, heights: int) -> GridOffset {
    GridOffset { widths: widths as i64, heights: heights as i64 }
}

/// Move `i` of the formation's path. Each step has four moves: a sweep to
/// the right, a drop of one height, a sweep back to the left and another
/// drop; the next step starts two heights below the last.
pub open spec fn invader_move(i: int) -> InvaderMove {
    let top = -2 * (i / 4);
    let phase = i % 4;
    if phase == 0 {
        InvaderMove {
            slide_on: Axis::X,
            start: offset(0, top),
            end: offset(1, top),
            duration_millis: INVADER_SWEEP_MILLIS,
        }
    } else if phase == 1 {
        InvaderMove {
            slide_on: Axis::Y,
            start: offset(1, top),
            end: offset(1, top - 1),
            duration_millis: INVADER_DROP_MILLIS,
        }
    } else if phase == 2 {
        InvaderMove {
            slide_on: Axis::X,
            start: offset(1, top - 1),
            end: offset(0, top - 1),
            duration_millis: INVADER_SWEEP_MILLIS,
        }
    } else {
        InvaderMove {
            slide_on: Axis::Y,
            start: offset(0, top - 1),
            end: offset(0, top - 2),
            duration_millis: INVADER_DROP_MILLIS,
        }
    }
}

/// The path of a formation that sweeps the screen `steps` times.
pub fn space_invader_moves(steps: usize) -> (r: Vec<InvaderMove>)
    requires
        4 * steps <= usize::MAX,
        2 * steps <= i64::MAX,
    ensures
        r@.len() == 4 * steps,
        forall|i: int| 0 <= i < r@.len() ==> #[trigger] r@[i] == invader_move(i),
{
    let mut moves: Vec<InvaderMove> = Vec::with_capacity(steps * 4);
    let mut step: usize = 0;
    let mut top: i64 = 0;
    while step < steps
        invariant
            step <= steps,
            2 * steps <= i64::MAX,
            top == -2 * step,
            moves@.len() == 4 * step,
            forall|i: int| 0 <= i < moves@.len() ==> #[trigger] moves@[i] == invader_move(i),
        decreases steps - step,
    {
        let ghost n = 4 * step as int;
        assert(n / 4 == step && n % 4 == 0);
        assert((n + 1) / 4 == step && (n + 1) % 4 == 1);
        assert((n + 2) / 4 == step && (n + 2) % 4 == 2);
        assert((n + 3) / 4 == step && (n + 3) % 4 == 3);
        moves.push(
            InvaderMove {
                slide_on: Axis::X,
                start: GridOffset { widths: 0, heights: top },
                end: GridOffset { widths: 1, heights: top },
                duration_millis: INVADER_SWEEP_MILLIS,
            },
        );
        moves.push(
            InvaderMove {
                slide_on: Axis::Y,
                start: GridOffset { widths: 1, heights: top },
                end: GridOffset { widths: 1, heights: top - 1 },
                duration_millis: INVADER_DROP_MILLIS,
            },
        );
        moves.push(
            InvaderMove {
                slide_on: Axis::X,
                start: GridOffset { widths: 1, heights: top - 1 },
                end: GridOffset { widths: 0, heights: top - 1 },
                duration_millis: INVADER_SWEEP_MILLIS,
            },
        );
        moves.push(
            InvaderMove {
                slide_on: Axis::Y,
                start: GridOffset { widths: 0, heights: top - 1 },
                end: GridOffset { widths: 0, heights: top - 2 },
                duration_millis: INVADER_DROP_MILLIS,
            },
        );
        top -= 2;
        step += 1;
    }
    moves
}

} // verus!
