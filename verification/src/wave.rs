//! Deterministic procedural wave generator.
//!
//! A wave layout is a pure function of the wave index and the run seed:
//! the arena radius follows a capped linear growth schedule, concentric
//! layers fill the band between the wall margin and the inner margin, and
//! every per-slot decision (gap, width, block kind, hit points, power-up
//! carrier, phase offset) is drawn from integer hashes of
//! `(wave, run seed, layer, slot)`. Running per-wave caps keep the rarer
//! block kinds from dominating a layout.
//!
//! The generator emits an integer plan; the host turns slots and per-mille
//! widths into arc geometry.

use vstd::prelude::*;
use crate::kinds::BlockKind;

verus! {

/// Arena radius of the first waves.
pub const BASE_ARENA_RADIUS: u32 = 400;

/// Largest arena radius the growth schedule reaches.
pub const MAX_ARENA_RADIUS: u32 = 550;

/// Arena radius gained per wave once growth starts.
pub const ARENA_GROWTH_PER_WAVE: u32 = 15;

/// First wave at which the arena starts growing.
pub const ARENA_GROWTH_START_WAVE: u32 = 2;

/// Gap kept between the outermost layer and the arena wall.
pub const WALL_MARGIN: u32 = 25;

/// Gap kept between the innermost layer and the arena centre.
pub const INNER_MARGIN: u32 = 120;

/// Radial distance between adjacent layers.
pub const LAYER_SPACING: u32 = 40;

/// One planned block: where it sits and everything the per-kind rules
/// decided for it. Widths are in per-mille of one slot's angular span.
#[derive(Debug, Clone, Copy, PartialEq, Eq, Structural)]
pub struct BlockPlan {
    /// Layer (ring) index, 0 = outermost.
    pub layer: u32,
    /// Slot index around the ring.
    pub slot: u32,
    /// Block kind.
    pub kind: BlockKind,
    /// Starting hit points.
    pub hp: u8,
    /// Block width in per-mille of the slot span.
    pub width_permille: u32,
    /// Whether the block is extra thick and carries a power-up.
    pub has_powerup: bool,
    /// Visibility phase offset in per-mille of a full cycle (phantom
    /// blocks only, zero otherwise).
    pub phase_permille: u32,
}

/// Per-layer layout decisions.
#[derive(Debug, Clone, Copy, PartialEq, Eq, Structural)]
pub struct LayerInfo {
    /// Centreline radius of the ring.
    pub radius: u32,
    /// Number of slots around the ring.
    pub num_slots: u32,
    /// Packed rings fill almost the whole slot; spaced rings leave gaps.
    pub packed: bool,
    /// Whether the ring slowly rotates.
    pub rotates: bool,
    /// Rotation sense, meaningful only when the ring rotates.
    pub rotation_positive: bool,
}

/// Running per-wave counts of the capped special kinds.
#[derive(Debug, Clone, Copy, PartialEq, Eq, Structural)]
pub struct CapCounts {
    pub electric: u32,
    pub crystal: u32,
    pub magnet: u32,
    pub phantom: u32,
    pub portal: u32,
}

impl CapCounts {
    /// No special block generated yet.
    pub open spec fn zero() -> CapCounts {
        CapCounts { electric: 0, crystal: 0, magnet: 0, phantom: 0, portal: 0 }
    }
}

/// The complete integer layout of one wave.
#[derive(Debug, Clone, PartialEq, Eq)]
pub struct WavePlan {
    /// Arena radius for this wave.
    pub arena_radius: u32,
    /// Layer metadata, outermost first; the index is the ring id.
    pub layers: Vec<LayerInfo>,
    /// The planned blocks, in (layer, slot) order.
    pub blocks: Vec<BlockPlan>,
}

/// Hash seed of one wave, derived from the wave index and the run seed.
pub open spec fn spec_wave_seed(wave: u32, run_seed: u64) -> u32 {
    (vstd::wrapping::u64_specs::wrapping_add(
        vstd::wrapping::u64_specs::wrapping_mul(wave as u64, 2654435761u64),
        run_seed,
    ) % 0x1_0000_0000) as u32
}

/// Derive the 32-bit wave seed from the wave index and the run seed.
pub fn wave_seed(wave: u32, run_seed: u64) -> (r: u32)
    ensures
        r == spec_wave_seed(wave, run_seed),
{
    let w = (wave as u64).wrapping_mul(2654435761).wrapping_add(run_seed);
    (w % 0x1_0000_0000) as u32
}

/// Arena radius for a wave: constant at first, then linear growth up to
/// the cap.
pub open spec fn spec_arena_radius(wave: u32) -> u32 {
    if wave < ARENA_GROWTH_START_WAVE {
        BASE_ARENA_RADIUS
    } else if BASE_ARENA_RADIUS + (wave - ARENA_GROWTH_START_WAVE) * ARENA_GROWTH_PER_WAVE
        <= MAX_ARENA_RADIUS {
        (BASE_ARENA_RADIUS + (wave - ARENA_GROWTH_START_WAVE) * ARENA_GROWTH_PER_WAVE) as u32
    } else {
        MAX_ARENA_RADIUS
    }
}

/// Calculate the arena radius for a given wave.
pub fn arena_radius_for_wave(wave: u32) -> (r: u32)
    ensures
        r == spec_arena_radius(wave),
        BASE_ARENA_RADIUS <= r <= MAX_ARENA_RADIUS,
{
    if wave < ARENA_GROWTH_START_WAVE {
        BASE_ARENA_RADIUS
    } else {
        let growth_waves = wave - ARENA_GROWTH_START_WAVE;
        if growth_waves >= (MAX_ARENA_RADIUS - BASE_ARENA_RADIUS) / ARENA_GROWTH_PER_WAVE {
            MAX_ARENA_RADIUS
        } else {
            BASE_ARENA_RADIUS + growth_waves * ARENA_GROWTH_PER_WAVE
        }
    }
}

/// How many layers a wave lays out: one more per two waves, bounded by how
/// many spacing-separated rings fit between the margins.
pub open spec fn spec_num_layers(wave: u32) -> u32 {
    let available: int = spec_arena_radius(wave) - WALL_MARGIN - INNER_MARGIN;
    let max_possible: int = available / (LAYER_SPACING as int);
    let desired: int = 1 + if wave / 2 <= max_possible { (wave / 2) as int } else { max_possible };
    let n: int = if desired <= max_possible { desired } else { max_possible };
    if n >= 1 { n as u32 } else { 1u32 }
}

/// Number of layers laid out for a wave.
pub fn num_layers_for_wave(wave: u32) -> (r: u32)
    ensures
        r == spec_num_layers(wave),
        1 <= r <= 10,
{
    let arena = arena_radius_for_wave(wave);
    let available = arena - WALL_MARGIN - INNER_MARGIN;
    let max_possible = available / LAYER_SPACING;
    let half = wave / 2;
    let desired = 1 + if half <= max_possible { half } else { max_possible };
    let n = if desired <= max_possible { desired } else { max_possible };
    if n >= 1 { n } else { 1 }
}

/// Whether a wave is an all-jello special wave.
pub open spec fn spec_jello_madness(wave: u32) -> bool {
    wave >= 10 && wave % 10 == 0
}

/// Hash seed of one layer within a wave.
pub open spec fn spec_layer_seed(wave: u32, run_seed: u64, layer: u32) -> u32 {
    vstd::wrapping::u32_specs::wrapping_add(
        spec_wave_seed(wave, run_seed),
        vstd::wrapping::u32_specs::wrapping_mul(layer, 1000u32),
    )
}

/// Hash seed of one slot within a layer.
pub open spec fn spec_block_seed(wave: u32, run_seed: u64, layer: u32, slot: u32) -> u32 {
    vstd::wrapping::u32_specs::wrapping_add(
        spec_layer_seed(wave, run_seed, layer),
        vstd::wrapping::u32_specs::wrapping_mul(slot, 100u32),
    )
}

/// Slots around a ring: outer layers are denser, and density grows with
/// the wave up to a fixed bound.
pub open spec fn spec_num_slots(wave: u32, layer: u32) -> u32 {
    let base: int = if layer == 0 {
        12 + 2 * wave
    } else if layer == 1 {
        10 + wave
    } else if layer == 2 {
        8 + wave / 2
    } else {
        6 + wave / 3
    };
    if base <= 28 { base as u32 } else { 28u32 }
}

/// Whether a layer is packed (blocks fill their slots) rather than spaced.
pub open spec fn spec_packed(wave: u32, run_seed: u64, layer: u32) -> bool {
    spec_layer_seed(wave, run_seed, layer) % 3 != 0
}

/// The decorrelated hash that decides layer rotation.
pub open spec fn spec_rotation_hash(wave: u32, run_seed: u64, layer: u32) -> u32 {
    vstd::wrapping::u32_specs::wrapping_add(
        vstd::wrapping::u32_specs::wrapping_mul(
            spec_layer_seed(wave, run_seed, layer),
            2654435761u32,
        ),
        vstd::wrapping::u32_specs::wrapping_mul(layer, 7919u32),
    )
}

/// Layer metadata: ring radius, slot count, packing, rotation.
pub open spec fn spec_layer_info(wave: u32, run_seed: u64, layer: u32) -> LayerInfo {
    let rotation_hash = spec_rotation_hash(wave, run_seed, layer);
    LayerInfo {
        radius: (spec_arena_radius(wave) - WALL_MARGIN - layer * LAYER_SPACING) as u32,
        num_slots: spec_num_slots(wave, layer),
        packed: spec_packed(wave, run_seed, layer),
        rotates: wave >= 2 && rotation_hash % 100 < 20,
        rotation_positive: (rotation_hash / 100) % 2 == 0,
    }
}

/// Block kind chosen for a slot, given the wave, the position, the slot
/// hash, and which wave-wide caps are already exhausted. Probability bands
/// are gated by wave and layer; the first waves are all glass.
pub open spec fn spec_block_kind(
    wave: u32,
    layer: u32,
    index: u32,
    seed: u32,
    layer_block_count: usize,
    invincible_in_layer: u32,
    electric_capped: bool,
    crystal_capped: bool,
    magnet_capped: bool,
    ghost_capped: bool,
    portal_capped: bool,
) -> BlockKind {
    if wave <= 1 {
        BlockKind::Glass
    } else {
        let roll = seed % 100;
        let max_invincible: int = if (layer_block_count as int) / 7 >= 1 {
            (layer_block_count as int) / 7
        } else {
            1
        };
        let inv_limit: int = if max_invincible <= 2 { max_invincible } else { 2 };
        let can_place_invincible = wave >= 5 && invincible_in_layer < inv_limit && index % 4 == 0;
        if can_place_invincible && roll < 8 {
            BlockKind::Invincible
        } else if wave >= 3 && layer == 0 && roll < 12 {
            BlockKind::Explosive
        } else if wave >= 4 && layer < 3 && !portal_capped && 12 <= roll < 20 {
            BlockKind::Portal { pair_id: seed }
        } else if wave >= 3 && layer >= 1 && 20 <= roll < 30 {
            BlockKind::Jello
        } else if wave >= 4 && layer <= 1 && !crystal_capped && 30 <= roll < 36 {
            BlockKind::Crystal
        } else if wave >= 5 && !electric_capped && 36 <= roll < 42 {
            BlockKind::Electric
        } else if wave >= 6 && 1 <= layer <= 2 && !magnet_capped && 42 <= roll < 47 {
            BlockKind::Magnet
        } else if wave >= 7 && !ghost_capped && 47 <= roll < 53 {
            BlockKind::Phantom
        } else {
            let armored_base: int = if wave == 2 { 25 } else if wave == 3 { 35 } else { 40 };
            if roll < armored_base + 8 * layer {
                BlockKind::Armored
            } else {
                BlockKind::Glass
            }
        }
    }
}

/// Determine the block type for one slot from the wave progression; caps
/// prevent any one special type from dominating.
pub fn determine_block_kind(
    wave: u32,
    layer: u32,
    index: u32,
    seed: u32,
    layer_block_count: usize,
    invincible_in_layer: u32,
    electric_capped: bool,
    crystal_capped: bool,
    magnet_capped: bool,
    ghost_capped: bool,
    portal_capped: bool,
) -> (r: BlockKind)
    ensures
        r == spec_block_kind(
            wave,
            layer,
            index,
            seed,
            layer_block_count,
            invincible_in_layer,
            electric_capped,
            crystal_capped,
            magnet_capped,
            ghost_capped,
            portal_capped,
        ),
{
    if wave <= 1 {
        return BlockKind::Glass;
    }

    let roll = seed % 100;

    let max_invincible = if layer_block_count / 7 >= 1 { layer_block_count / 7 } else { 1 };
    let inv_limit = if max_invincible <= 2 { max_invincible } else { 2 };
    let can_place_invincible = wave >= 5 && (invincible_in_layer as usize) < inv_limit && index % 4
        == 0;

    if can_place_invincible && roll < 8 {
        return BlockKind::Invincible;
    }
    if wave >= 3 && layer == 0 && roll < 12 {
        return BlockKind::Explosive;
    }
    if wave >= 4 && layer < 3 && !portal_capped && 12 <= roll && roll < 20 {
        return BlockKind::Portal { pair_id: seed };
    }
    if wave >= 3 && layer >= 1 && 20 <= roll && roll < 30 {
        return BlockKind::Jello;
    }
    if wave >= 4 && layer <= 1 && !crystal_capped && 30 <= roll && roll < 36 {
        return BlockKind::Crystal;
    }
    if wave >= 5 && !electric_capped && 36 <= roll && roll < 42 {
        return BlockKind::Electric;
    }
    if wave >= 6 && 1 <= layer && layer <= 2 && !magnet_capped && 42 <= roll && roll < 47 {
        return BlockKind::Magnet;
    }
    if wave >= 7 && !ghost_capped && 47 <= roll && roll < 53 {
        return BlockKind::Phantom;
    }

    let armored_base: u64 = if wave == 2 { 25 } else if wave == 3 { 35 } else { 40 };
    if (roll as u64) < armored_base + 8 * (layer as u64) {
        BlockKind::Armored
    } else {
        BlockKind::Glass
    }
}

/// Whether a slot is skipped (left as a gap): a hash roll, more frequent in
/// spaced layers, active from the third wave on.
pub open spec fn spec_slot_skipped(wave: u32, run_seed: u64, layer: u32, slot: u32) -> bool {
    let seed = spec_block_seed(wave, run_seed, layer, slot);
    let skip_chance: u32 = if spec_packed(wave, run_seed, layer) { 12u32 } else { 6u32 };
    seed % skip_chance == 0 && wave > 1
}

/// Block width in per-mille of the slot span: packed layers fill almost
/// everything, spaced layers draw one of three widths from the slot hash.
pub open spec fn spec_width_permille(wave: u32, run_seed: u64, layer: u32, slot: u32) -> u32 {
    let seed = spec_block_seed(wave, run_seed, layer, slot);
    if spec_packed(wave, run_seed, layer) {
        950u32
    } else if seed % 5 == 0 {
        750u32
    } else if seed % 3 == 0 {
        650u32
    } else {
        550u32
    }
}

/// Whether the block is generated extra thick and carries a power-up:
/// a one-in-ten hash roll from the third wave on, never on invincible or
/// portal blocks.
pub open spec fn spec_has_powerup(wave: u32, seed: u32, kind: BlockKind) -> bool {
    &&& kind != BlockKind::Invincible
    &&& !(kind is Portal)
    &&& wave > 1
    &&& vstd::wrapping::u32_specs::wrapping_mul(seed, 2654435761u32) % 100 < 10
}

/// The capped-kind counters after a block of `kind` is planned.
pub open spec fn spec_caps_after(caps: CapCounts, kind: BlockKind) -> CapCounts {
    match kind {
        BlockKind::Electric => CapCounts { electric: (caps.electric + 1) as u32, ..caps },
        BlockKind::Crystal => CapCounts { crystal: (caps.crystal + 1) as u32, ..caps },
        BlockKind::Magnet => CapCounts { magnet: (caps.magnet + 1) as u32, ..caps },
        BlockKind::Phantom => CapCounts { phantom: (caps.phantom + 1) as u32, ..caps },
        BlockKind::Portal { .. } => CapCounts { portal: (caps.portal + 1) as u32, ..caps },
        _ => caps,
    }
}

/// The block kind planned at a slot, given the running cap counters.
pub open spec fn spec_slot_kind(
    wave: u32,
    run_seed: u64,
    layer: u32,
    slot: u32,
    invincible_in_layer: u32,
    caps: CapCounts,
) -> BlockKind {
    let nlayers = spec_num_layers(wave);
    if spec_jello_madness(wave) {
        BlockKind::Jello
    } else {
        spec_block_kind(
            wave,
            layer,
            slot,
            spec_block_seed(wave, run_seed, layer, slot),
            spec_num_slots(wave, layer) as usize,
            invincible_in_layer,
            caps.electric >= 4 + nlayers,
            caps.crystal >= 3 + nlayers,
            caps.magnet >= 3 + nlayers / 2,
            caps.phantom >= 4 + nlayers,
            caps.portal >= 4 + nlayers,
        )
    }
}

/// The block planned at a slot, or nothing when the slot is skipped.
pub open spec fn spec_slot_plan(
    wave: u32,
    run_seed: u64,
    layer: u32,
    slot: u32,
    invincible_in_layer: u32,
    caps: CapCounts,
) -> Option<BlockPlan> {
    if spec_slot_skipped(wave, run_seed, layer, slot) {
        None
    } else {
        let seed = spec_block_seed(wave, run_seed, layer, slot);
        let kind = spec_slot_kind(wave, run_seed, layer, slot, invincible_in_layer, caps);
        Some(
            BlockPlan {
                layer,
                slot,
                kind,
                hp: kind.spec_initial_hp(wave),
                width_permille: spec_width_permille(wave, run_seed, layer, slot),
                has_powerup: spec_has_powerup(wave, seed, kind),
                phase_permille: if kind == BlockKind::Phantom { (seed % 1000) as u32 } else { 0u32 },
            },
        )
    }
}

/// All blocks planned from `(layer, slot)` on, threading the invincible
/// per-layer count and the wave-wide cap counters.
pub open spec fn spec_blocks_from(
    wave: u32,
    run_seed: u64,
    layer: u32,
    slot: u32,
    invincible_in_layer: u32,
    caps: CapCounts,
) -> Seq<BlockPlan>
    decreases spec_num_layers(wave) - layer, spec_num_slots(wave, layer) - slot,
{
    if layer >= spec_num_layers(wave) {
        Seq::empty()
    } else if slot >= spec_num_slots(wave, layer) {
        spec_blocks_from(wave, run_seed, (layer + 1) as u32, 0, 0, caps)
    } else {
        match spec_slot_plan(wave, run_seed, layer, slot, invincible_in_layer, caps) {
            None => spec_blocks_from(
                wave,
                run_seed,
                layer,
                (slot + 1) as u32,
                invincible_in_layer,
                caps,
            ),
            Some(b) => seq![b] + spec_blocks_from(
                wave,
                run_seed,
                layer,
                (slot + 1) as u32,
                if b.kind == BlockKind::Invincible {
                    (invincible_in_layer + 1) as u32
                } else {
                    invincible_in_layer
                },
                spec_caps_after(caps, b.kind),
            ),
        }
    }
}

/// The complete block list of a wave.
pub open spec fn spec_wave_blocks(wave: u32, run_seed: u64) -> Seq<BlockPlan> {
    spec_blocks_from(wave, run_seed, 0, 0, 0, CapCounts::zero())
}

/// The kind gates a planned block must respect: tutorial waves are all
/// glass, jello special waves are all jello.
pub open spec fn gated_kind_ok(wave: u32, b: BlockPlan) -> bool {
    &&& (wave <= 1 ==> b.kind == BlockKind::Glass)
    &&& (spec_jello_madness(wave) ==> b.kind == BlockKind::Jello)
}

/// A planned block carries the hit points its kind and wave prescribe.
pub open spec fn hp_consistent(wave: u32, b: BlockPlan) -> bool {
    b.hp == b.kind.spec_initial_hp(wave)
}

/// Kind gating, by induction over the generator: the first two waves plan
/// nothing but glass, and an all-jello special wave plans nothing but
/// jello.
proof fn lemma_blocks_from_gated_kinds(
    wave: u32,
    run_seed: u64,
    layer: u32,
    slot: u32,
    invincible_in_layer: u32,
    caps: CapCounts,
)
    ensures
        forall|i: int|
            0 <= i < spec_blocks_from(wave, run_seed, layer, slot, invincible_in_layer, caps).len()
                ==> gated_kind_ok(
                wave,
                #[trigger] spec_blocks_from(wave, run_seed, layer, slot, invincible_in_layer, caps)[i],
            ),
    decreases spec_num_layers(wave) - layer, spec_num_slots(wave, layer) - slot,
{
    let s = spec_blocks_from(wave, run_seed, layer, slot, invincible_in_layer, caps);
    if layer >= spec_num_layers(wave) {
    } else if slot >= spec_num_slots(wave, layer) {
        lemma_blocks_from_gated_kinds(wave, run_seed, (layer + 1) as u32, 0, 0, caps);
        let t = spec_blocks_from(wave, run_seed, (layer + 1) as u32, 0, 0, caps);
        assert forall|i: int| 0 <= i < s.len() implies gated_kind_ok(wave, s[i]) by {
            assert(s[i] == t[i]);
            assert(gated_kind_ok(wave, t[i]));
        }
    } else {
        match spec_slot_plan(wave, run_seed, layer, slot, invincible_in_layer, caps) {
            None => {
                lemma_blocks_from_gated_kinds(
                    wave,
                    run_seed,
                    layer,
                    (slot + 1) as u32,
                    invincible_in_layer,
                    caps,
                );
                let t = spec_blocks_from(
                    wave,
                    run_seed,
                    layer,
                    (slot + 1) as u32,
                    invincible_in_layer,
                    caps,
                );
                assert forall|i: int| 0 <= i < s.len() implies gated_kind_ok(wave, s[i]) by {
                    assert(s[i] == t[i]);
                    assert(gated_kind_ok(wave, t[i]));
                }
            },
            Some(b) => {
                let inv2 = if b.kind == BlockKind::Invincible {
                    (invincible_in_layer + 1) as u32
                } else {
                    invincible_in_layer
                };
                let caps2 = spec_caps_after(caps, b.kind);
                let rest = spec_blocks_from(wave, run_seed, layer, (slot + 1) as u32, inv2, caps2);
                lemma_blocks_from_gated_kinds(
                    wave,
                    run_seed,
                    layer,
                    (slot + 1) as u32,
                    inv2,
                    caps2,
                );
                assert forall|i: int| 0 <= i < s.len() implies gated_kind_ok(wave, s[i]) by {
                    if i > 0 {
                        assert(s[i] == rest[i - 1]);
                        assert(gated_kind_ok(wave, rest[i - 1]));
                    } else {
                        assert(s[0] == b);
                    }
                }
            },
        }
    }
}

/// One planned block sits on a real slot of a real layer of its wave.
pub open spec fn plan_position_ok(wave: u32, b: BlockPlan) -> bool {
    &&& b.layer < spec_num_layers(wave)
    &&& b.slot < spec_num_slots(wave, b.layer)
}

/// Strict (layer, slot) order between two planned blocks.
pub open spec fn plan_lex_lt(a: BlockPlan, b: BlockPlan) -> bool {
    ||| a.layer < b.layer
    ||| (a.layer == b.layer && a.slot < b.slot)
}

/// A planned block at or after the generator position `(layer, slot)`.
pub open spec fn plan_at_or_after(b: BlockPlan, layer: u32, slot: u32) -> bool {
    ||| b.layer > layer
    ||| (b.layer == layer && b.slot >= slot)
}

/// Blocks produced from a generator position stay at or after it, sit on
/// real slots, and come in strictly increasing (layer, slot) order.
proof fn lemma_blocks_from_ordered(
    wave: u32,
    run_seed: u64,
    layer: u32,
    slot: u32,
    invincible_in_layer: u32,
    caps: CapCounts,
)
    ensures
        forall|i: int|
            0 <= i < spec_blocks_from(wave, run_seed, layer, slot, invincible_in_layer, caps).len()
                ==> plan_position_ok(
                wave,
                #[trigger] spec_blocks_from(wave, run_seed, layer, slot, invincible_in_layer, caps)[i],
            ) && plan_at_or_after(
                spec_blocks_from(wave, run_seed, layer, slot, invincible_in_layer, caps)[i],
                layer,
                slot,
            ),
        forall|i: int, j: int|
            0 <= i < j < spec_blocks_from(
                wave,
                run_seed,
                layer,
                slot,
                invincible_in_layer,
                caps,
            ).len() ==> plan_lex_lt(
                #[trigger] spec_blocks_from(wave, run_seed, layer, slot, invincible_in_layer, caps)[i],
                #[trigger] spec_blocks_from(wave, run_seed, layer, slot, invincible_in_layer, caps)[j],
            ),
    decreases spec_num_layers(wave) - layer, spec_num_slots(wave, layer) - slot,
{
    let s = spec_blocks_from(wave, run_seed, layer, slot, invincible_in_layer, caps);
    if layer >= spec_num_layers(wave) {
    } else if slot >= spec_num_slots(wave, layer) {
        lemma_blocks_from_ordered(wave, run_seed, (layer + 1) as u32, 0, 0, caps);
        let t = spec_blocks_from(wave, run_seed, (layer + 1) as u32, 0, 0, caps);
        assert forall|i: int|
            0 <= i < s.len() implies plan_position_ok(wave, s[i]) && plan_at_or_after(
            s[i],
            layer,
            slot,
        ) by {
            assert(s[i] == t[i]);
            assert(plan_at_or_after(t[i], (layer + 1) as u32, 0));
        }
        assert forall|i: int, j: int|
            0 <= i < j < s.len() implies plan_lex_lt(s[i], s[j]) by {
            assert(s[i] == t[i] && s[j] == t[j]);
            assert(plan_lex_lt(t[i], t[j]));
        }
    } else {
        match spec_slot_plan(wave, run_seed, layer, slot, invincible_in_layer, caps) {
            None => {
                lemma_blocks_from_ordered(
                    wave,
                    run_seed,
                    layer,
                    (slot + 1) as u32,
                    invincible_in_layer,
                    caps,
                );
                let t = spec_blocks_from(
                    wave,
                    run_seed,
                    layer,
                    (slot + 1) as u32,
                    invincible_in_layer,
                    caps,
                );
                assert forall|i: int|
                    0 <= i < s.len() implies plan_position_ok(wave, s[i]) && plan_at_or_after(
                    s[i],
                    layer,
                    slot,
                ) by {
                    assert(s[i] == t[i]);
                    assert(plan_at_or_after(t[i], layer, (slot + 1) as u32));
                }
                assert forall|i: int, j: int|
                    0 <= i < j < s.len() implies plan_lex_lt(s[i], s[j]) by {
                    assert(s[i] == t[i] && s[j] == t[j]);
                    assert(plan_lex_lt(t[i], t[j]));
                }
            },
            Some(b) => {
                let inv2 = if b.kind == BlockKind::Invincible {
                    (invincible_in_layer + 1) as u32
                } else {
                    invincible_in_layer
                };
                let caps2 = spec_caps_after(caps, b.kind);
                let rest = spec_blocks_from(wave, run_seed, layer, (slot + 1) as u32, inv2, caps2);
                lemma_blocks_from_ordered(wave, run_seed, layer, (slot + 1) as u32, inv2, caps2);
                assert(b.layer == layer && b.slot == slot);
                assert forall|i: int|
                    0 <= i < s.len() implies plan_position_ok(wave, s[i]) && plan_at_or_after(
                    s[i],
                    layer,
                    slot,
                ) by {
                    if i == 0 {
                        assert(s[0] == b);
                    } else {
                        assert(s[i] == rest[i - 1]);
                        assert(plan_position_ok(wave, rest[i - 1]));
                        assert(plan_at_or_after(rest[i - 1], layer, (slot + 1) as u32));
                    }
                }
                assert forall|i: int, j: int|
                    0 <= i < j < s.len() implies plan_lex_lt(s[i], s[j]) by {
                    assert(s[j] == rest[j - 1]);
                    assert(plan_at_or_after(rest[j - 1], layer, (slot + 1) as u32));
                    if i == 0 {
                        assert(s[0] == b);
                    } else {
                        assert(s[i] == rest[i - 1]);
                        assert(plan_lex_lt(rest[i - 1], rest[j - 1]));
                    }
                }
            },
        }
    }
}

/// The planned block list visits slots in strictly increasing
/// (layer, slot) order, and never names a slot outside its layer; a host
/// walking the slots in order with one cursor therefore places every
/// planned block exactly once.
pub proof fn lemma_wave_blocks_ordered(wave: u32, run_seed: u64)
    ensures
        forall|i: int|
            0 <= i < spec_wave_blocks(wave, run_seed).len() ==> plan_position_ok(
                wave,
                #[trigger] spec_wave_blocks(wave, run_seed)[i],
            ),
        forall|i: int, j: int|
            0 <= i < j < spec_wave_blocks(wave, run_seed).len() ==> plan_lex_lt(
                #[trigger] spec_wave_blocks(wave, run_seed)[i],
                #[trigger] spec_wave_blocks(wave, run_seed)[j],
            ),
{
    lemma_blocks_from_ordered(wave, run_seed, 0, 0, 0, CapCounts::zero());
}

/// The first two waves are tutorial waves: every planned block is glass
/// with one hit point.
pub proof fn lemma_tutorial_waves_all_glass(wave: u32, run_seed: u64)
    requires
        wave <= 1,
    ensures
        forall|i: int|
            0 <= i < spec_wave_blocks(wave, run_seed).len() ==> (#[trigger] spec_wave_blocks(
                wave,
                run_seed,
            )[i]).kind == BlockKind::Glass && spec_wave_blocks(wave, run_seed)[i].hp == 1,
{
    lemma_blocks_from_gated_kinds(wave, run_seed, 0, 0, 0, CapCounts::zero());
    lemma_blocks_hp_consistent(wave, run_seed, 0, 0, 0, CapCounts::zero());
    assert forall|i: int|
        0 <= i < spec_wave_blocks(wave, run_seed).len() implies (#[trigger] spec_wave_blocks(
        wave,
        run_seed,
    )[i]).kind == BlockKind::Glass && spec_wave_blocks(wave, run_seed)[i].hp == 1 by {
        let b = spec_wave_blocks(wave, run_seed)[i];
        assert(gated_kind_ok(wave, b));
        assert(b.hp == b.kind.spec_initial_hp(wave));
    }
}

/// Every tenth wave from the tenth on is an all-jello special wave.
pub proof fn lemma_jello_madness_all_jello(wave: u32, run_seed: u64)
    requires
        spec_jello_madness(wave),
    ensures
        forall|i: int|
            0 <= i < spec_wave_blocks(wave, run_seed).len() ==> (#[trigger] spec_wave_blocks(
                wave,
                run_seed,
            )[i]).kind == BlockKind::Jello,
{
    lemma_blocks_from_gated_kinds(wave, run_seed, 0, 0, 0, CapCounts::zero());
    assert forall|i: int|
        0 <= i < spec_wave_blocks(wave, run_seed).len() implies (#[trigger] spec_wave_blocks(
        wave,
        run_seed,
    )[i]).kind == BlockKind::Jello by {
        assert(gated_kind_ok(wave, spec_wave_blocks(wave, run_seed)[i]));
    }
}

/// Every planned block starts with the hit points its kind and wave
/// prescribe, by induction over the generator.
proof fn lemma_blocks_hp_consistent(
    wave: u32,
    run_seed: u64,
    layer: u32,
    slot: u32,
    invincible_in_layer: u32,
    caps: CapCounts,
)
    ensures
        forall|i: int|
            0 <= i < spec_blocks_from(wave, run_seed, layer, slot, invincible_in_layer, caps).len()
                ==> hp_consistent(
                wave,
                #[trigger] spec_blocks_from(wave, run_seed, layer, slot, invincible_in_layer, caps)[i],
            ),
    decreases spec_num_layers(wave) - layer, spec_num_slots(wave, layer) - slot,
{
    let s = spec_blocks_from(wave, run_seed, layer, slot, invincible_in_layer, caps);
    if layer >= spec_num_layers(wave) {
    } else if slot >= spec_num_slots(wave, layer) {
        lemma_blocks_hp_consistent(wave, run_seed, (layer + 1) as u32, 0, 0, caps);
        let t = spec_blocks_from(wave, run_seed, (layer + 1) as u32, 0, 0, caps);
        assert forall|i: int| 0 <= i < s.len() implies hp_consistent(wave, s[i]) by {
            assert(s[i] == t[i]);
            assert(hp_consistent(wave, t[i]));
        }
    } else {
        match spec_slot_plan(wave, run_seed, layer, slot, invincible_in_layer, caps) {
            None => {
                lemma_blocks_hp_consistent(
                    wave,
                    run_seed,
                    layer,
                    (slot + 1) as u32,
                    invincible_in_layer,
                    caps,
                );
                let t = spec_blocks_from(
                    wave,
                    run_seed,
                    layer,
                    (slot + 1) as u32,
                    invincible_in_layer,
                    caps,
                );
                assert forall|i: int| 0 <= i < s.len() implies hp_consistent(wave, s[i]) by {
                    assert(s[i] == t[i]);
                    assert(hp_consistent(wave, t[i]));
                }
            },
            Some(b) => {
                let inv2 = if b.kind == BlockKind::Invincible {
                    (invincible_in_layer + 1) as u32
                } else {
                    invincible_in_layer
                };
                let caps2 = spec_caps_after(caps, b.kind);
                let rest = spec_blocks_from(wave, run_seed, layer, (slot + 1) as u32, inv2, caps2);
                lemma_blocks_hp_consistent(wave, run_seed, layer, (slot + 1) as u32, inv2, caps2);
                assert forall|i: int| 0 <= i < s.len() implies hp_consistent(wave, s[i]) by {
                    if i > 0 {
                        assert(s[i] == rest[i - 1]);
                        assert(hp_consistent(wave, rest[i - 1]));
                    } else {
                        assert(s[0] == b);
                    }
                }
            },
        }
    }
}

/// Layer metadata for one ring of a wave.
pub fn layer_info_for(wave: u32, run_seed: u64, layer: u32) -> (r: LayerInfo)
    requires
        layer < spec_num_layers(wave),
    ensures
        r == spec_layer_info(wave, run_seed, layer),
{
    let arena = arena_radius_for_wave(wave);
    let nlayers = num_layers_for_wave(wave);
    let wseed = wave_seed(wave, run_seed);
    let layer_seed = wseed.wrapping_add(layer * 1000);
    proof {
        lemma_small_mul_mod(layer as int, 1000, 0x1_0000_0000);
    }
    let rotation_hash = layer_seed.wrapping_mul(2654435761).wrapping_add(layer * 7919);
    proof {
        lemma_small_mul_mod(layer as int, 7919, 0x1_0000_0000);
    }
    let num_slots = num_slots_for(wave, layer);
    LayerInfo {
        radius: arena - WALL_MARGIN - layer * LAYER_SPACING,
        num_slots,
        packed: layer_seed % 3 != 0,
        rotates: wave >= 2 && rotation_hash % 100 < 20,
        rotation_positive: (rotation_hash / 100) % 2 == 0,
    }
}

/// A product of small factors is unchanged by the 32-bit wrap.
proof fn lemma_small_mul_mod(x: int, k: int, m: int)
    requires
        0 <= x <= 30,
        0 < k <= 8000,
        m == 0x1_0000_0000,
    ensures
        (x * k) % m == x * k,
{
    assert(x * k <= 30 * k) by (nonlinear_arith)
        requires 0 <= x <= 30 && k > 0;
    assert(x * k >= 0) by (nonlinear_arith)
        requires 0 <= x && k > 0;
    assert((x * k) % m == x * k) by {
        vstd::arithmetic::div_mod::lemma_small_mod((x * k) as nat, m as nat);
    }
}

/// Slots around one ring of a wave.
pub fn num_slots_for(wave: u32, layer: u32) -> (r: u32)
    ensures
        r == spec_num_slots(wave, layer),
        1 <= r <= 28,
{
    if layer == 0 {
        if wave >= 8 { 28 } else { 12 + 2 * wave }
    } else if layer == 1 {
        if wave >= 18 { 28 } else { 10 + wave }
    } else if layer == 2 {
        if wave >= 40 { 28 } else { 8 + wave / 2 }
    } else {
        if wave >= 66 { 28 } else { 6 + wave / 3 }
    }
}

/// Plan one slot of one layer, given the running counters.
fn plan_slot(
    wave: u32,
    run_seed: u64,
    layer: u32,
    slot: u32,
    nlayers: u32,
    num_slots: u32,
    invincible_in_layer: u32,
    caps: CapCounts,
) -> (r: Option<BlockPlan>)
    requires
        nlayers == spec_num_layers(wave),
        nlayers <= 10,
        layer < nlayers,
        num_slots == spec_num_slots(wave, layer),
        num_slots <= 28,
        slot < num_slots,
    ensures
        r == spec_slot_plan(wave, run_seed, layer, slot, invincible_in_layer, caps),
{
    let wseed = wave_seed(wave, run_seed);
    let layer_seed = wseed.wrapping_add(layer * 1000);
    proof {
        lemma_small_mul_mod(layer as int, 1000, 0x1_0000_0000);
    }
    let block_seed = layer_seed.wrapping_add(slot * 100);
    proof {
        lemma_small_mul_mod(slot as int, 100, 0x1_0000_0000);
        assert(block_seed == spec_block_seed(wave, run_seed, layer, slot));
    }
    let packed = layer_seed % 3 != 0;
    let skip_chance: u32 = if packed { 12 } else { 6 };

    if block_seed % skip_chance == 0 && wave > 1 {
        return None;
    }

    let jello = wave >= 10 && wave % 10 == 0;
    let kind = if jello {
        BlockKind::Jello
    } else {
        determine_block_kind(
            wave,
            layer,
            slot,
            block_seed,
            num_slots as usize,
            invincible_in_layer,
            caps.electric >= 4 + nlayers,
            caps.crystal >= 3 + nlayers,
            caps.magnet >= 3 + nlayers / 2,
            caps.phantom >= 4 + nlayers,
            caps.portal >= 4 + nlayers,
        )
    };
    let width_permille: u32 = if packed {
        950
    } else if block_seed % 5 == 0 {
        750
    } else if block_seed % 3 == 0 {
        650
    } else {
        550
    };
    let can_have_powerup = kind.counts_for_clear() && !matches!(kind, BlockKind::Portal { .. })
        && wave > 1;
    let powerup_roll = block_seed.wrapping_mul(2654435761) % 100;
    let has_powerup = can_have_powerup && powerup_roll < 10;
    let phase_permille: u32 = if matches!(kind, BlockKind::Phantom) {
        block_seed % 1000
    } else {
        0
    };
    Some(
        BlockPlan {
            layer,
            slot,
            kind,
            hp: kind.initial_hp(wave),
            width_permille,
            has_powerup,
            phase_permille,
        },
    )
}

/// What it means for a plan to be the layout of `(wave, run_seed)`: the
/// scheduled arena radius, the layer metadata of every ring, and exactly
/// the block sequence that the seeded decisions produce.
pub open spec fn is_plan_for(plan: WavePlan, wave: u32, run_seed: u64) -> bool {
    &&& plan.arena_radius == spec_arena_radius(wave)
    &&& plan.layers@.len() == spec_num_layers(wave)
    &&& forall|l: int|
        0 <= l < plan.layers@.len() ==> plan.layers@[l] == spec_layer_info(
            wave,
            run_seed,
            l as u32,
        )
    &&& plan.blocks@ == spec_wave_blocks(wave, run_seed)
}

/// Wave layouts are deterministic: any two plans for the same wave index
/// and run seed agree on the arena radius, every layer, and every block.
pub proof fn lemma_wave_plan_unique(wave: u32, run_seed: u64, a: WavePlan, b: WavePlan)
    requires
        is_plan_for(a, wave, run_seed),
        is_plan_for(b, wave, run_seed),
    ensures
        a.arena_radius == b.arena_radius,
        a.layers@ == b.layers@,
        a.blocks@ == b.blocks@,
{
    assert(a.layers@ =~= b.layers@);
}

/// Generate the full integer layout of a wave from the wave index and the
/// run seed. The same arguments always produce the same plan.
pub fn generate_wave_plan(wave: u32, run_seed: u64) -> (plan: WavePlan)
    ensures
        is_plan_for(plan, wave, run_seed),
{
    let arena_radius = arena_radius_for_wave(wave);
    let nlayers = num_layers_for_wave(wave);

    let mut layers: Vec<LayerInfo> = Vec::new();
    let mut l: u32 = 0;
    while l < nlayers
        invariant
            l <= nlayers,
            nlayers == spec_num_layers(wave),
            layers@.len() == l,
            forall|k: int|
                0 <= k < l ==> layers@[k] == spec_layer_info(wave, run_seed, k as u32),
        decreases nlayers - l,
    {
        let info = layer_info_for(wave, run_seed, l);
        layers.push(info);
        l += 1;
    }

    let mut blocks: Vec<BlockPlan> = Vec::new();
    let mut caps = CapCounts { electric: 0, crystal: 0, magnet: 0, phantom: 0, portal: 0 };
    let mut layer: u32 = 0;
    while layer < nlayers
        invariant
            layer <= nlayers,
            nlayers == spec_num_layers(wave),
            nlayers <= 10,
            caps_bounded(caps, blocks@.len() as int),
            blocks@.len() <= 28 * layer,
            spec_wave_blocks(wave, run_seed) == blocks@ + spec_blocks_from(
                wave,
                run_seed,
                layer,
                0,
                0,
                caps,
            ),
        decreases nlayers - layer,
    {
        let num_slots = num_slots_for(wave, layer);
        let mut invincible_in_layer: u32 = 0;
        let mut slot: u32 = 0;
        while slot < num_slots
            invariant
                slot <= num_slots,
                layer < nlayers,
                nlayers == spec_num_layers(wave),
                nlayers <= 10,
                num_slots == spec_num_slots(wave, layer),
                num_slots <= 28,
                invincible_in_layer <= slot,
                caps_bounded(caps, blocks@.len() as int),
                blocks@.len() <= 28 * layer + slot,
                spec_wave_blocks(wave, run_seed) == blocks@ + spec_blocks_from(
                    wave,
                    run_seed,
                    layer,
                    slot,
                    invincible_in_layer,
                    caps,
                ),
            decreases num_slots - slot,
        {
            let ghost pre_blocks = blocks@;
            let ghost pre_inv = invincible_in_layer;
            let ghost pre_caps = caps;

            let planned = plan_slot(wave, run_seed, layer, slot, nlayers, num_slots,
                invincible_in_layer, caps);

            if let Some(b) = planned {
                let kind = b.kind;
                blocks.push(b);
                if matches!(kind, BlockKind::Invincible) {
                    invincible_in_layer += 1;
                }
                match kind {
                    BlockKind::Electric => { caps.electric += 1; },
                    BlockKind::Crystal => { caps.crystal += 1; },
                    BlockKind::Magnet => { caps.magnet += 1; },
                    BlockKind::Phantom => { caps.phantom += 1; },
                    BlockKind::Portal { .. } => { caps.portal += 1; },
                    _ => {},
                }
                proof {
                    assert(invincible_in_layer == if b.kind == BlockKind::Invincible {
                        (pre_inv + 1) as u32
                    } else {
                        pre_inv
                    });
                    assert(caps == spec_caps_after(pre_caps, b.kind));
                    assert(spec_blocks_from(wave, run_seed, layer, slot, pre_inv, pre_caps)
                        == seq![b] + spec_blocks_from(
                        wave,
                        run_seed,
                        layer,
                        (slot + 1) as u32,
                        invincible_in_layer,
                        caps,
                    ));
                    assert(blocks@ == pre_blocks + seq![b]);
                    assert(pre_blocks + (seq![b] + spec_blocks_from(
                        wave,
                        run_seed,
                        layer,
                        (slot + 1) as u32,
                        invincible_in_layer,
                        caps,
                    )) =~= (pre_blocks + seq![b]) + spec_blocks_from(
                        wave,
                        run_seed,
                        layer,
                        (slot + 1) as u32,
                        invincible_in_layer,
                        caps,
                    ));
                }
            } else {
                proof {
                    assert(spec_slot_plan(
                        wave,
                        run_seed,
                        layer,
                        slot,
                        invincible_in_layer,
                        caps,
                    ) is None);
                }
            }
            slot += 1;
        }
        proof {
            assert(spec_blocks_from(wave, run_seed, layer, slot, invincible_in_layer, caps)
                == spec_blocks_from(wave, run_seed, (layer + 1) as u32, 0, 0, caps));
        }
        layer += 1;
    }
    proof {
        assert(spec_blocks_from(wave, run_seed, layer, 0, 0, caps) =~= Seq::<BlockPlan>::empty());
        assert(blocks@ + Seq::<BlockPlan>::empty() =~= blocks@);
    }

    WavePlan { arena_radius, layers, blocks }
}

/// All cap counters stay below the number of blocks planned so far.
pub open spec fn caps_bounded(caps: CapCounts, n: int) -> bool {
    &&& caps.electric <= n
    &&& caps.crystal <= n
    &&& caps.magnet <= n
    &&& caps.phantom <= n
    &&& caps.portal <= n
}

} // verus!
