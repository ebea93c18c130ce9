use roto_pong::kinds::{sound_for_event, BlockKind, GameEvent, PickupKind, SoundEffect};
use roto_pong::rng::{pickup_drop, portal_travel_roll, RngState};

#[test]
fn test_counts_for_clear() {
    assert!(BlockKind::Glass.counts_for_clear());
    assert!(BlockKind::Portal { pair_id: 1 }.counts_for_clear());
    assert!(!BlockKind::Invincible.counts_for_clear());
}

#[test]
fn test_color_indices_are_distinct() {
    let kinds = [
        BlockKind::Glass,
        BlockKind::Armored,
        BlockKind::Explosive,
        BlockKind::Invincible,
        BlockKind::Portal { pair_id: 0 },
        BlockKind::Jello,
        BlockKind::Crystal,
        BlockKind::Electric,
        BlockKind::Magnet,
        BlockKind::Phantom,
    ];
    let mut seen = vec![];
    for k in kinds {
        let c = k.color_index();
        assert!(c <= 9);
        assert!(!seen.contains(&c));
        seen.push(c);
    }
}

#[test]
fn test_initial_hp() {
    assert_eq!(BlockKind::Glass.initial_hp(3), 1);
    assert_eq!(BlockKind::Armored.initial_hp(0), 2);
    assert_eq!(BlockKind::Armored.initial_hp(7), 3);
    assert_eq!(BlockKind::Armored.initial_hp(25), 7);
    assert_eq!(BlockKind::Explosive.initial_hp(9), 1);
    assert_eq!(BlockKind::Invincible.initial_hp(9), 255);
    assert_eq!(BlockKind::Portal { pair_id: 3 }.initial_hp(9), 3);
    assert_eq!(BlockKind::Jello.initial_hp(9), 2);
}

#[test]
fn test_sound_for_event_mapping() {
    assert_eq!(sound_for_event(GameEvent::PaddleHit), Some(SoundEffect::PaddleHit));
    assert_eq!(sound_for_event(GameEvent::WallHit), Some(SoundEffect::WallHit));
    assert_eq!(
        sound_for_event(GameEvent::BlockBreak(BlockKind::Glass)),
        Some(SoundEffect::BlockBreakGlass)
    );
    assert_eq!(
        sound_for_event(GameEvent::BlockBreak(BlockKind::Magnet)),
        Some(SoundEffect::BlockBreakArmored)
    );
    assert_eq!(
        sound_for_event(GameEvent::BlockBreak(BlockKind::Phantom)),
        Some(SoundEffect::BlockBreakGlass)
    );
    // Breaking an invincible block never happens, so it maps to no sound.
    assert_eq!(sound_for_event(GameEvent::BlockBreak(BlockKind::Invincible)), None);
    assert_eq!(sound_for_event(GameEvent::BallLost), Some(SoundEffect::BlackHoleConsume));
    assert_eq!(sound_for_event(GameEvent::GameOver), Some(SoundEffect::GameOver));
}

#[test]
fn test_rng_state_new() {
    let r = RngState::new(987654321);
    assert_eq!(r.seed, 987654321);
    assert_eq!(r.stream, 0);
}

#[test]
fn test_pickup_drop_matches_hash_rule() {
    // Thick blocks always drop something.
    assert!(pickup_drop(1, 2, true).is_some());
    // Thin blocks drop exactly when the hash roll hits one in twelve.
    let h = 40u32.wrapping_mul(31337).wrapping_add(3);
    assert_eq!(pickup_drop(40, 3, false).is_some(), h % 12 == 0);
    // The kind cycles through the five pickups by the roll.
    let kind = pickup_drop(1, 2, true).unwrap();
    let h = 1u32.wrapping_mul(31337).wrapping_add(2);
    let expected = match (h / 10) % 5 {
        0 => PickupKind::MultiBall,
        1 => PickupKind::Slow,
        2 => PickupKind::Piercing,
        3 => PickupKind::WidenPaddle,
        _ => PickupKind::Shield,
    };
    assert_eq!(kind, expected);
    // Deterministic.
    assert_eq!(pickup_drop(7, 9, false), pickup_drop(7, 9, false));
}

#[test]
fn test_portal_travel_roll() {
    let r = portal_travel_roll(12, 3400);
    assert!(r < 1000);
    assert_eq!(r, portal_travel_roll(12, 3400));
    assert_eq!(r, 12u32.wrapping_mul(31337).wrapping_add(3400).wrapping_mul(7919) % 1000);
}
