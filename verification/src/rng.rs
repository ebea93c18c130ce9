//! Deterministic randomness: the serializable RNG state carried by a run,
//! and the integer hash rolls that in-tick chance decisions are drawn from.
//! Every roll is a pure function of run state, so replaying a run replays
//! every decision.

use vstd::prelude::*;
use crate::kinds::PickupKind;

verus! {

/// RNG state wrapper for serialization: the stream is reconstructed from
/// these two words, never stored as an opaque generator.
#[derive(Debug, Clone, Copy, PartialEq, Eq, Structural)]
pub struct RngState {
    pub seed: u64,
    pub stream: u64,
}

impl RngState {
    /// A fresh stream for the given run seed.
    pub fn new(seed: u64) -> (r: Self)
        ensures
            r.seed == seed,
            r.stream == 0,
    {
        RngState { seed, stream: 0 }
    }
}

/// The pickup kind a destroyed block drops for a given hash roll.
pub open spec fn spec_pickup_for_roll(roll: u32) -> PickupKind {
    if roll % 5 == 0 {
        PickupKind::MultiBall
    } else if roll % 5 == 1 {
        PickupKind::Slow
    } else if roll % 5 == 2 {
        PickupKind::Piercing
    } else if roll % 5 == 3 {
        PickupKind::WidenPaddle
    } else {
        PickupKind::Shield
    }
}

/// The drop hash for the block at `block_index` destroyed on the tick whose
/// low 32 bits are `tick_low`.
pub open spec fn spec_drop_hash(tick_low: u32, block_index: u32) -> u32 {
    vstd::wrapping::u32_specs::wrapping_add(
        vstd::wrapping::u32_specs::wrapping_mul(tick_low, 31337u32),
        block_index,
    )
}

/// Which pickup, if any, a destroyed block drops. Thick power-up blocks
/// always drop; every other block drops on a one-in-twelve hash roll. The
/// dropped kind cycles through the five kinds by the roll.
pub open spec fn spec_pickup_drop(tick_low: u32, block_index: u32, thick_block: bool) -> Option<
    PickupKind,
> {
    let h = spec_drop_hash(tick_low, block_index);
    if thick_block || h % 12 == 0 {
        Some(spec_pickup_for_roll((h / 10) as u32))
    } else {
        None
    }
}

/// Decide the pickup drop for a destroyed block: `tick_low` is the low half
/// of the tick counter, `block_index` the block's position in the block
/// list, `thick_block` whether the block was generated extra thick.
pub fn pickup_drop(tick_low: u32, block_index: u32, thick_block: bool) -> (r: Option<PickupKind>)
    ensures
        r == spec_pickup_drop(tick_low, block_index, thick_block),
{
    let h = tick_low.wrapping_mul(31337).wrapping_add(block_index);
    if thick_block || h % 12 == 0 {
        let roll = h / 10;
        let kind = match roll % 5 {
            0 => PickupKind::MultiBall,
            1 => PickupKind::Slow,
            2 => PickupKind::Piercing,
            3 => PickupKind::WidenPaddle,
            _ => PickupKind::Shield,
        };
        Some(kind)
    } else {
        None
    }
}

/// The per-mille roll that fixes how far a ball slides through a portal
/// before being forced out, drawn from the ball id and the entry tick.
pub open spec fn spec_portal_travel_roll(ball_id: u32, tick_low: u32) -> u32 {
    (vstd::wrapping::u32_specs::wrapping_mul(
        vstd::wrapping::u32_specs::wrapping_add(
            vstd::wrapping::u32_specs::wrapping_mul(ball_id, 31337u32),
            tick_low,
        ),
        7919u32,
    ) % 1000) as u32
}

/// Roll the portal slide distance in per-mille of the full span.
pub fn portal_travel_roll(ball_id: u32, tick_low: u32) -> (r: u32)
    ensures
        r == spec_portal_travel_roll(ball_id, tick_low),
        r < 1000,
{
    ball_id.wrapping_mul(31337).wrapping_add(tick_low).wrapping_mul(7919) % 1000
}

} // verus!
