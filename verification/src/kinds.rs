//! The closed set of entity kinds and the per-kind rules that every consumer
//! (collision handling, damage, scoring, event export) switches on.

use vstd::prelude::*;

verus! {

/// Current phase of gameplay.
#[derive(Debug, Clone, Copy, PartialEq, Eq, Structural)]
pub enum GamePhase {
    /// Ball attached to paddle, waiting for launch input
    Serve,
    /// Active gameplay
    Playing,
    /// Between-wave rest period
    Breather,
    /// Game is paused
    Paused,
    /// Run ended
    GameOver,
}

/// Block types. Each variant alters damageability, collision response,
/// neighbour interaction or ball physics; consumers match exhaustively so
/// that adding a kind is a compile-time-checked, localized change.
#[derive(Debug, Clone, Copy, PartialEq, Eq, Structural)]
pub enum BlockKind {
    Glass,
    Armored,
    Explosive,
    /// Cannot be destroyed; does not count for wave clear.
    Invincible,
    /// Redirects the ball into a sliding traversal instead of reflecting.
    Portal { pair_id: u32 },
    /// Wobbly block that ripples when hit.
    Jello,
    /// Shatters with extra sparkle particles.
    Crystal,
    /// Grants a speed boost and charge to balls that touch it.
    Electric,
    /// Pulls or pushes balls near an unconnected chain endpoint.
    Magnet,
    /// Intermittently non-solid, based on a visibility oscillation.
    Phantom,
}

/// Power-up types.
#[derive(Debug, Clone, Copy, PartialEq, Eq, Structural)]
pub enum PickupKind {
    MultiBall,
    Slow,
    Piercing,
    WidenPaddle,
    Shield,
}

/// Discrete semantic events produced by one tick, exported for the audio
/// collaborator and other observers.
#[derive(Debug, Clone, Copy, PartialEq, Eq, Structural)]
pub enum GameEvent {
    PaddleHit,
    WallHit,
    BlockHit,
    BlockBreak(BlockKind),
    PickupCollect,
    BallLost,
    WaveClear,
    Launch,
    GameOver,
}

/// Sound effect identifiers that the audio collaborator maps to synthesis.
#[derive(Debug, Clone, Copy, PartialEq, Eq, Structural)]
pub enum SoundEffect {
    PaddleHit,
    WallHit,
    BlockHit,
    BlockBreakGlass,
    BlockBreakArmored,
    BlockBreakExplosive,
    BlockBreakJello,
    BlockBreakCrystal,
    BlockBreakElectric,
    BlockBreakPortal,
    PickupCollect,
    BlackHoleConsume,
    WaveClear,
    Launch,
    GameOver,
    HighScore,
}

impl BlockKind {
    /// True if this block must be destroyed to clear the wave.
    pub open spec fn spec_counts_for_clear(self) -> bool {
        self != BlockKind::Invincible
    }

    /// True if this block must be destroyed to clear the wave.
    pub fn counts_for_clear(&self) -> (r: bool)
        ensures
            r == self.spec_counts_for_clear(),
    {
        *self != BlockKind::Invincible
    }

    /// Points awarded when a ball destroys a block of this kind directly
    /// (before the combo multiplier).
    pub open spec fn spec_base_score(self) -> u64 {
        match self {
            BlockKind::Glass => 10,
            BlockKind::Armored => 25,
            BlockKind::Explosive => 50,
            BlockKind::Jello => 20,
            BlockKind::Invincible => 0,
            _ => 15,
        }
    }

    /// Points awarded when a ball destroys a block of this kind directly
    /// (before the combo multiplier).
    pub fn base_score(&self) -> (r: u64)
        ensures
            r == self.spec_base_score(),
    {
        match self {
            BlockKind::Glass => 10,
            BlockKind::Armored => 25,
            BlockKind::Explosive => 50,
            BlockKind::Jello => 20,
            BlockKind::Invincible => 0,
            _ => 15,
        }
    }

    /// Points awarded for a block killed by an explosion chain (flat, no
    /// combo multiplier, and no extra reward for a chained explosive).
    pub open spec fn spec_explosion_score(self) -> u64 {
        match self {
            BlockKind::Glass => 10,
            BlockKind::Armored => 25,
            BlockKind::Jello => 20,
            _ => 15,
        }
    }

    /// Points awarded for a block killed by an explosion chain.
    pub fn explosion_score(&self) -> (r: u64)
        ensures
            r == self.spec_explosion_score(),
    {
        match self {
            BlockKind::Glass => 10,
            BlockKind::Armored => 25,
            BlockKind::Jello => 20,
            _ => 15,
        }
    }

    /// Colour lookup index used by the particle system.
    pub open spec fn spec_color_index(self) -> u32 {
        match self {
            BlockKind::Glass => 0,
            BlockKind::Armored => 1,
            BlockKind::Explosive => 2,
            BlockKind::Invincible => 3,
            BlockKind::Portal { .. } => 4,
            BlockKind::Jello => 5,
            BlockKind::Crystal => 6,
            BlockKind::Electric => 7,
            BlockKind::Magnet => 8,
            BlockKind::Phantom => 9,
        }
    }

    /// Colour lookup index used by the particle system.
    pub fn color_index(&self) -> (r: u32)
        ensures
            r == self.spec_color_index(),
    {
        match self {
            BlockKind::Glass => 0,
            BlockKind::Armored => 1,
            BlockKind::Explosive => 2,
            BlockKind::Invincible => 3,
            BlockKind::Portal { .. } => 4,
            BlockKind::Jello => 5,
            BlockKind::Crystal => 6,
            BlockKind::Electric => 7,
            BlockKind::Magnet => 8,
            BlockKind::Phantom => 9,
        }
    }

    /// Hit points a freshly generated block of this kind starts with.
    /// Armored blocks get tougher with the wave; the wave contribution is
    /// taken modulo 256 as a plain low-byte truncation.
    pub open spec fn spec_initial_hp(self, wave: u32) -> u8 {
        match self {
            BlockKind::Armored => vstd::wrapping::u8_specs::wrapping_add(
                2u8,
                ((wave / 5) % 256) as u8,
            ),
            BlockKind::Explosive => 1,
            BlockKind::Invincible => 255,
            BlockKind::Portal { .. } => 3,
            BlockKind::Jello => 2,
            _ => 1,
        }
    }

    /// Hit points a freshly generated block of this kind starts with.
    pub fn initial_hp(&self, wave: u32) -> (r: u8)
        ensures
            r == self.spec_initial_hp(wave),
    {
        match self {
            BlockKind::Armored => {
                let grade: u8 = ((wave / 5) % 256) as u8;
                2u8.wrapping_add(grade)
            },
            BlockKind::Explosive => 1,
            BlockKind::Invincible => 255,
            BlockKind::Portal { .. } => 3,
            BlockKind::Jello => 2,
            _ => 1,
        }
    }
}

/// The sound effect played for a tick event; a break of an invincible block
/// maps to no sound at all.
pub open spec fn spec_sound_for_event(e: GameEvent) -> Option<SoundEffect> {
    match e {
        GameEvent::PaddleHit => Some(SoundEffect::PaddleHit),
        GameEvent::WallHit => Some(SoundEffect::WallHit),
        GameEvent::BlockHit => Some(SoundEffect::BlockHit),
        GameEvent::BlockBreak(kind) => match kind {
            BlockKind::Glass => Some(SoundEffect::BlockBreakGlass),
            BlockKind::Armored => Some(SoundEffect::BlockBreakArmored),
            BlockKind::Explosive => Some(SoundEffect::BlockBreakExplosive),
            BlockKind::Jello => Some(SoundEffect::BlockBreakJello),
            BlockKind::Crystal => Some(SoundEffect::BlockBreakCrystal),
            BlockKind::Electric => Some(SoundEffect::BlockBreakElectric),
            BlockKind::Portal { .. } => Some(SoundEffect::BlockBreakPortal),
            BlockKind::Invincible => None,
            BlockKind::Magnet => Some(SoundEffect::BlockBreakArmored),
            BlockKind::Phantom => Some(SoundEffect::BlockBreakGlass),
        },
        GameEvent::PickupCollect => Some(SoundEffect::PickupCollect),
        GameEvent::BallLost => Some(SoundEffect::BlackHoleConsume),
        GameEvent::WaveClear => Some(SoundEffect::WaveClear),
        GameEvent::Launch => Some(SoundEffect::Launch),
        GameEvent::GameOver => Some(SoundEffect::GameOver),
    }
}

/// The sound effect played for a tick event.
pub fn sound_for_event(e: GameEvent) -> (r: Option<SoundEffect>)
    ensures
        r == spec_sound_for_event(e),
{
    match e {
        GameEvent::PaddleHit => Some(SoundEffect::PaddleHit),
        GameEvent::WallHit => Some(SoundEffect::WallHit),
        GameEvent::BlockHit => Some(SoundEffect::BlockHit),
        GameEvent::BlockBreak(kind) => match kind {
            BlockKind::Glass => Some(SoundEffect::BlockBreakGlass),
            BlockKind::Armored => Some(SoundEffect::BlockBreakArmored),
            BlockKind::Explosive => Some(SoundEffect::BlockBreakExplosive),
            BlockKind::Jello => Some(SoundEffect::BlockBreakJello),
            BlockKind::Crystal => Some(SoundEffect::BlockBreakCrystal),
            BlockKind::Electric => Some(SoundEffect::BlockBreakElectric),
            BlockKind::Portal { .. } => Some(SoundEffect::BlockBreakPortal),
            BlockKind::Invincible => None,
            BlockKind::Magnet => Some(SoundEffect::BlockBreakArmored),
            BlockKind::Phantom => Some(SoundEffect::BlockBreakGlass),
        },
        GameEvent::PickupCollect => Some(SoundEffect::PickupCollect),
        GameEvent::BallLost => Some(SoundEffect::BlackHoleConsume),
        GameEvent::WaveClear => Some(SoundEffect::WaveClear),
        GameEvent::Launch => Some(SoundEffect::Launch),
        GameEvent::GameOver => Some(SoundEffect::GameOver),
    }
}

} // verus!
