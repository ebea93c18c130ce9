use roto_pong::kinds::BlockKind;
use roto_pong::wave::{
    arena_radius_for_wave, determine_block_kind, generate_wave_plan, num_layers_for_wave,
    num_slots_for, wave_seed, BASE_ARENA_RADIUS, MAX_ARENA_RADIUS, WavePlan,
};

#[test]
fn test_wave_seed_is_deterministic() {
    assert_eq!(wave_seed(3, 99999), wave_seed(3, 99999));
    assert_ne!(wave_seed(3, 99999), wave_seed(4, 99999));
    assert_eq!(
        wave_seed(3, 99999),
        ((3u64.wrapping_mul(2654435761).wrapping_add(99999)) % (1u64 << 32)) as u32
    );
}

#[test]
fn test_arena_radius_schedule() {
    assert_eq!(arena_radius_for_wave(0), BASE_ARENA_RADIUS);
    assert_eq!(arena_radius_for_wave(1), BASE_ARENA_RADIUS);
    assert_eq!(arena_radius_for_wave(2), BASE_ARENA_RADIUS);
    assert_eq!(arena_radius_for_wave(3), 415);
    assert_eq!(arena_radius_for_wave(7), 475);
    assert_eq!(arena_radius_for_wave(12), MAX_ARENA_RADIUS);
    assert_eq!(arena_radius_for_wave(1000), MAX_ARENA_RADIUS);
}

#[test]
fn test_layer_counts_grow_with_wave() {
    assert_eq!(num_layers_for_wave(0), 1);
    assert_eq!(num_layers_for_wave(1), 1);
    assert_eq!(num_layers_for_wave(2), 2);
    assert_eq!(num_layers_for_wave(6), 4);
    // Bounded by how many spaced rings fit inside the largest arena.
    assert_eq!(num_layers_for_wave(1000), (550 - 25 - 120) / 40);
}

#[test]
fn test_slot_counts() {
    assert_eq!(num_slots_for(0, 0), 12);
    assert_eq!(num_slots_for(4, 0), 20);
    assert_eq!(num_slots_for(20, 0), 28);
    assert_eq!(num_slots_for(4, 1), 14);
    assert_eq!(num_slots_for(4, 2), 10);
    assert_eq!(num_slots_for(4, 3), 7);
}

#[test]
fn test_determine_block_kind_tutorial_waves_are_glass() {
    for seed in 0..200u32 {
        assert_eq!(
            determine_block_kind(0, 0, 0, seed, 20, 0, false, false, false, false, false),
            BlockKind::Glass
        );
        assert_eq!(
            determine_block_kind(1, 2, 5, seed, 20, 0, false, false, false, false, false),
            BlockKind::Glass
        );
    }
}

#[test]
fn test_determine_block_kind_bands() {
    // Wave 3, outer layer, roll 7 -> explosive.
    assert_eq!(
        determine_block_kind(3, 0, 1, 7, 20, 0, false, false, false, false, false),
        BlockKind::Explosive
    );
    // Same roll on an inner layer falls through to armored (roll 7 < 35).
    assert_eq!(
        determine_block_kind(3, 1, 1, 107, 20, 0, false, false, false, false, false),
        BlockKind::Armored
    );
    // Portal band, uncapped vs capped.
    assert_eq!(
        determine_block_kind(4, 0, 1, 15, 20, 0, false, false, false, false, false),
        BlockKind::Portal { pair_id: 15 }
    );
    // With the portal cap exhausted the same roll falls through to armored.
    assert_eq!(
        determine_block_kind(4, 0, 1, 15, 20, 0, false, false, false, false, true),
        BlockKind::Armored
    );
}

#[test]
fn test_wave_plan_is_deterministic() {
    let a: WavePlan = generate_wave_plan(5, 20260101);
    let b: WavePlan = generate_wave_plan(5, 20260101);
    assert_eq!(a, b);
    let c = generate_wave_plan(5, 20260102);
    assert!(a != c || a.blocks.is_empty());
}

#[test]
fn test_wave_plan_structure() {
    let plan = generate_wave_plan(6, 424242);
    assert_eq!(plan.arena_radius, arena_radius_for_wave(6));
    assert_eq!(plan.layers.len() as u32, num_layers_for_wave(6));
    for (l, info) in plan.layers.iter().enumerate() {
        assert_eq!(info.radius, plan.arena_radius - 25 - (l as u32) * 40);
        assert_eq!(info.num_slots, num_slots_for(6, l as u32));
    }
    for b in &plan.blocks {
        assert!((b.layer as usize) < plan.layers.len());
        assert!(b.slot < plan.layers[b.layer as usize].num_slots);
        assert_eq!(b.hp, b.kind.initial_hp(6));
        let expected_widths: &[u32] = if plan.layers[b.layer as usize].packed {
            &[950]
        } else {
            &[750, 650, 550]
        };
        assert!(expected_widths.contains(&b.width_permille));
        if b.kind != BlockKind::Phantom {
            assert_eq!(b.phase_permille, 0);
        }
        if b.kind == BlockKind::Invincible || matches!(b.kind, BlockKind::Portal { .. }) {
            assert!(!b.has_powerup);
        }
    }
    // Blocks come in (layer, slot) order.
    for w in plan.blocks.windows(2) {
        assert!((w[0].layer, w[0].slot) < (w[1].layer, w[1].slot));
    }
}

#[test]
fn test_wave_plan_caps_special_kinds() {
    for seed in [1u64, 77, 4096, 987654321] {
        for wave in [5u32, 7, 9, 13] {
            let plan = generate_wave_plan(wave, seed);
            let n = plan.layers.len() as u32;
            let count = |k: fn(&BlockKind) -> bool| {
                plan.blocks.iter().filter(|b| k(&b.kind)).count() as u32
            };
            assert!(count(|k| *k == BlockKind::Electric) <= 4 + n);
            assert!(count(|k| *k == BlockKind::Crystal) <= 3 + n);
            assert!(count(|k| *k == BlockKind::Magnet) <= 3 + n / 2);
            assert!(count(|k| *k == BlockKind::Phantom) <= 4 + n);
            assert!(count(|k| matches!(k, BlockKind::Portal { .. })) <= 4 + n);
        }
    }
}

#[test]
fn test_jello_madness_wave() {
    let plan = generate_wave_plan(10, 555);
    assert!(!plan.blocks.is_empty());
    for b in &plan.blocks {
        assert_eq!(b.kind, BlockKind::Jello);
        assert_eq!(b.hp, 2);
    }
}

#[test]
fn test_tutorial_wave_blocks_are_all_glass() {
    for seed in [3u64, 12345] {
        for wave in [0u32, 1] {
            let plan = generate_wave_plan(wave, seed);
            assert!(!plan.blocks.is_empty());
            for b in &plan.blocks {
                assert_eq!(b.kind, BlockKind::Glass);
                assert_eq!(b.hp, 1);
            }
        }
    }
}
