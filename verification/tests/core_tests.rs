use roto_pong::kinds::{BlockKind, GameEvent, GamePhase, PickupKind};
use roto_pong::state::GameCore;
use roto_pong::BREATHER_DURATION_TICKS;

#[test]
fn test_new_core_state() {
    let core = GameCore::new(12345);
    assert_eq!(core.seed, 12345);
    assert_eq!(core.rng_state.seed, 12345);
    assert_eq!(core.rng_state.stream, 0);
    assert_eq!(core.wave_index, 0);
    assert_eq!(core.lives, 3);
    assert_eq!(core.score, 0);
    assert_eq!(core.combo, 0);
    assert_eq!(core.time_ticks, 0);
    assert_eq!(core.phase, GamePhase::Serve);
    assert_eq!(core.next_id, 1);
    assert!(core.events.is_empty());
}

#[test]
fn test_launch_transitions_serve_to_playing() {
    let mut core = GameCore::new(12345);
    assert_eq!(core.phase, GamePhase::Serve);

    // A tick without launch leaves the phase alone.
    let proceed = core.begin_tick(false, true);
    assert!(proceed);
    assert_eq!(core.phase, GamePhase::Serve);

    core.on_launch();
    assert_eq!(core.phase, GamePhase::Playing);
    assert_eq!(core.events, vec![GameEvent::Launch]);
}

#[test]
fn test_pause_toggle() {
    let mut core = GameCore::new(12345);
    core.on_launch();
    assert_eq!(core.phase, GamePhase::Playing);

    // Pause in Playing stops the tick.
    let proceed = core.begin_tick(true, false);
    assert!(!proceed);
    assert_eq!(core.phase, GamePhase::Paused);

    // Pause again resumes, and the tick continues in the same call.
    let proceed = core.begin_tick(true, false);
    assert!(proceed);
    assert_eq!(core.phase, GamePhase::Playing);

    // Resuming with a ball on the paddle goes back to Serve instead.
    let proceed = core.begin_tick(true, false);
    assert!(!proceed);
    let proceed = core.begin_tick(true, true);
    assert!(proceed);
    assert_eq!(core.phase, GamePhase::Serve);
}

#[test]
fn test_ball_depletion_decrements_lives_and_respawns() {
    let mut core = GameCore::new(7);
    core.on_launch();

    let respawn = core.resolve_ball_depletion();
    assert!(respawn);
    assert_eq!(core.lives, 2);
    assert_eq!(core.phase, GamePhase::Serve);

    core.on_launch();
    let respawn = core.resolve_ball_depletion();
    assert!(respawn);
    assert_eq!(core.lives, 1);
    assert_eq!(core.phase, GamePhase::Serve);
}

#[test]
fn test_last_life_ends_the_run_and_game_over_is_terminal() {
    let mut core = GameCore::new(7);
    core.lives = 1;
    core.on_launch();
    core.clear_events();

    let respawn = core.resolve_ball_depletion();
    assert!(!respawn);
    assert_eq!(core.lives, 0);
    assert_eq!(core.phase, GamePhase::GameOver);
    assert_eq!(core.events, vec![GameEvent::GameOver]);

    // No further input moves the core out of GameOver.
    for pause in [false, true] {
        let proceed = core.begin_tick(pause, true);
        assert!(!proceed);
        assert_eq!(core.phase, GamePhase::GameOver);
        assert_eq!(core.lives, 0);
    }
}

#[test]
fn test_wave_clear_increments_wave_and_starts_breather() {
    let mut core = GameCore::new(42);
    core.on_launch();
    core.clear_events();
    let wave_before = core.wave_index;

    core.resolve_wave_clear();
    assert_eq!(core.wave_index, wave_before + 1);
    assert_eq!(core.breather_ticks, BREATHER_DURATION_TICKS);
    assert_eq!(core.phase, GamePhase::Breather);
    assert_eq!(core.events, vec![GameEvent::WaveClear]);
}

#[test]
fn test_breather_counts_down_to_serve() {
    let mut core = GameCore::new(42);
    core.on_launch();
    core.resolve_wave_clear();

    let mut steps = 0u32;
    loop {
        let start_serve = core.breather_step();
        steps += 1;
        if start_serve {
            break;
        }
        assert_eq!(core.phase, GamePhase::Breather);
    }
    assert_eq!(steps, BREATHER_DURATION_TICKS);
    assert_eq!(core.phase, GamePhase::Serve);
    assert_eq!(core.breather_ticks, 0);
}

#[test]
fn test_skip_wave() {
    let mut core = GameCore::new(1);
    core.on_launch();
    core.resolve_wave_clear();
    assert_eq!(core.wave_index, 1);

    core.skip_wave();
    assert_eq!(core.wave_index, 2);
    assert_eq!(core.breather_ticks, 0);
    assert_eq!(core.phase, GamePhase::Serve);
}

#[test]
fn test_combo_and_scoring_flow() {
    let mut core = GameCore::new(9);
    core.on_launch();
    core.clear_events();

    core.on_block_damaged();
    assert_eq!(core.combo, 1);
    let p1 = core.award_block_destroyed(BlockKind::Glass);
    assert_eq!(p1, 10);
    assert_eq!(core.score, 10);

    core.on_block_damaged();
    assert_eq!(core.combo, 2);
    let p2 = core.award_block_destroyed(BlockKind::Armored);
    assert_eq!(p2, 27); // 25 * 1.1 truncated
    assert_eq!(core.score, 37);

    let p3 = core.award_explosion_destroyed(BlockKind::Explosive);
    assert_eq!(p3, 15); // chained explosives score flat
    assert_eq!(core.score, 52);

    core.on_ball_lost();
    assert_eq!(core.combo, 0);

    assert_eq!(
        core.events,
        vec![
            GameEvent::BlockHit,
            GameEvent::BlockBreak(BlockKind::Glass),
            GameEvent::BlockHit,
            GameEvent::BlockBreak(BlockKind::Armored),
            GameEvent::BlockBreak(BlockKind::Explosive),
            GameEvent::BallLost,
        ]
    );
}

#[test]
fn test_portal_destroy_gives_combo_but_no_score() {
    let mut core = GameCore::new(9);
    core.on_launch();
    core.on_portal_block_destroyed();
    assert_eq!(core.combo, 1);
    assert_eq!(core.score, 0);
}

#[test]
fn test_pickup_collection_logs_event_and_sets_effect() {
    let mut core = GameCore::new(5);
    core.on_launch();
    core.clear_events();
    core.collect_pickup(PickupKind::Shield);
    assert!(core.effects.shield_active);
    assert_eq!(core.events, vec![GameEvent::PickupCollect]);
}

#[test]
fn test_next_entity_id_is_monotonic() {
    let mut core = GameCore::new(5);
    let a = core.next_entity_id();
    let b = core.next_entity_id();
    let c = core.next_entity_id();
    assert_eq!((a, b, c), (1, 2, 3));
    assert_eq!(core.next_id, 4);
}

#[test]
fn test_determinism() {
    // Two cores with the same seed fed the same inputs stay identical.
    let mut c1 = GameCore::new(99999);
    let mut c2 = GameCore::new(99999);

    let script = [
        (false, true, false),
        (false, true, true), // launch
        (true, false, false), // pause
        (true, false, false), // resume
        (false, false, false),
    ];
    for &(pause, attached, launch) in &script {
        for core in [&mut c1, &mut c2] {
            core.clear_events();
            let proceed = core.begin_tick(pause, attached);
            if proceed {
                core.advance_time();
                if launch && core.phase == GamePhase::Serve {
                    core.on_launch();
                }
                if core.phase == GamePhase::Playing {
                    core.on_block_damaged();
                    core.award_block_destroyed(BlockKind::Glass);
                }
                core.effects.decay();
            }
        }
        assert_eq!(c1.time_ticks, c2.time_ticks);
        assert_eq!(c1.phase, c2.phase);
        assert_eq!(c1.score, c2.score);
        assert_eq!(c1.combo, c2.combo);
        assert_eq!(c1.events, c2.events);
    }
}
