//! The discrete core of a run: seed, wave index, lives, score, combo,
//! tick counter, phase state machine, breather countdown, active effects,
//! entity id allocation, and the per-tick event log.
//!
//! The host owns the floating-point entity layer (balls, blocks, paddle,
//! pickups, particles) and calls into this core for every rule decision,
//! so a whole run's discrete outcome is a function of the seed and the
//! input sequence alone.

use vstd::prelude::*;
use crate::kinds::GameEvent;
use crate::kinds::GamePhase;
use crate::kinds::BlockKind;
use crate::kinds::PickupKind;
use crate::effects::ActiveEffects;
use crate::rng::RngState;
use crate::score::spec_score_for_break;
use crate::score::score_for_break;
use crate::BREATHER_DURATION_TICKS;
use crate::INITIAL_LIVES;

verus! {

/// The discrete state of one run.
#[derive(Debug, Clone)]
pub struct GameCore {
    /// Run seed for reproducibility.
    pub seed: u64,
    /// Serializable RNG state.
    pub rng_state: RngState,
    /// Current wave index (0-based).
    pub wave_index: u32,
    /// Player lives.
    pub lives: u8,
    /// Score.
    pub score: u64,
    /// Combo counter: damaging hits in the current streak.
    pub combo: u32,
    /// Simulation tick counter.
    pub time_ticks: u64,
    /// Current phase.
    pub phase: GamePhase,
    /// Breather ticks remaining.
    pub breather_ticks: u32,
    /// Active pickup effects.
    pub effects: ActiveEffects,
    /// Next entity id to hand out.
    pub next_id: u32,
    /// Events of the current tick, for the audio and UI collaborators.
    pub events: Vec<GameEvent>,
}

/// The phase after the pause input is handled: pausing in Serve or Playing
/// pauses; pausing while paused resumes to Serve when a ball hangs on the
/// paddle, else to Playing; Breather and GameOver ignore the key.
pub open spec fn spec_pause_phase(phase: GamePhase, pause: bool, any_attached: bool) -> GamePhase {
    if pause {
        match phase {
            GamePhase::Playing => GamePhase::Paused,
            GamePhase::Serve => GamePhase::Paused,
            GamePhase::Paused => if any_attached {
                GamePhase::Serve
            } else {
                GamePhase::Playing
            },
            _ => phase,
        }
    } else {
        phase
    }
}

impl GameCore {
    /// Every field except the phase equals `other`'s.
    pub open spec fn same_but_phase(self, other: GameCore) -> bool {
        &&& self.seed == other.seed
        &&& self.rng_state == other.rng_state
        &&& self.wave_index == other.wave_index
        &&& self.lives == other.lives
        &&& self.score == other.score
        &&& self.combo == other.combo
        &&& self.time_ticks == other.time_ticks
        &&& self.breather_ticks == other.breather_ticks
        &&& self.effects == other.effects
        &&& self.next_id == other.next_id
        &&& self.events == other.events
    }

    /// A fresh core for the given run seed: three lives, wave zero, serve
    /// phase, first entity id one, no events yet.
    pub fn new(seed: u64) -> (r: GameCore)
        ensures
            r.seed == seed,
            r.rng_state == (RngState { seed, stream: 0 }),
            r.wave_index == 0,
            r.lives == INITIAL_LIVES,
            r.score == 0,
            r.combo == 0,
            r.time_ticks == 0,
            r.phase == GamePhase::Serve,
            r.breather_ticks == 0,
            r.effects == ActiveEffects::none(),
            r.next_id == 1,
            r.events@ == Seq::<GameEvent>::empty(),
    {
        let r = GameCore {
            seed,
            rng_state: RngState::new(seed),
            wave_index: 0,
            lives: INITIAL_LIVES,
            score: 0,
            combo: 0,
            time_ticks: 0,
            phase: GamePhase::Serve,
            breather_ticks: 0,
            effects: ActiveEffects {
                slow_ticks: 0,
                piercing_ticks: 0,
                widen_ticks: 0,
                widen_stacks: 0,
                shield_active: false,
            },
            next_id: 1,
            events: Vec::new(),
        };
        proof {
            assert(r.events@ =~= Seq::<GameEvent>::empty());
        }
        r
    }

    /// Allocate a new entity id.
    pub fn next_entity_id(&mut self) -> (id: u32)
        requires
            old(self).next_id < u32::MAX,
        ensures
            id == old(self).next_id,
            *final(self) == (GameCore { next_id: (old(self).next_id + 1) as u32, ..*old(self) }),
    {
        let id = self.next_id;
        self.next_id = self.next_id + 1;
        id
    }

    /// Drop the previous tick's events.
    pub fn clear_events(&mut self)
        ensures
            *final(self) == (GameCore { events: final (self).events, ..*old(self) }),
            final(self).events@ == Seq::<GameEvent>::empty(),
    {
        self.events.clear();
        proof {
            assert(self.events@ =~= Seq::<GameEvent>::empty());
        }
    }

    /// Record one event of the current tick.
    pub fn push_event(&mut self, e: GameEvent)
        ensures
            *final(self) == (GameCore { events: final (self).events, ..*old(self) }),
            final(self).events@ == old(self).events@.push(e),
    {
        self.events.push(e);
    }

    /// Handle the pause input and decide whether this tick proceeds: a tick
    /// runs only outside Paused and GameOver. Once the run is over, no
    /// input changes the core again.
    pub fn begin_tick(&mut self, pause: bool, any_attached: bool) -> (proceed: bool)
        ensures
            final(self).phase == spec_pause_phase(old(self).phase, pause, any_attached),
            final(self).same_but_phase(*old(self)),
            proceed == !(final(self).phase == GamePhase::Paused || final(self).phase
                == GamePhase::GameOver),
            old(self).phase == GamePhase::GameOver ==> *final(self) == *old(self) && !proceed,
    {
        if pause {
            match self.phase {
                GamePhase::Playing | GamePhase::Serve => {
                    self.phase = GamePhase::Paused;
                    return false;
                },
                GamePhase::Paused => {
                    self.phase = if any_attached { GamePhase::Serve } else { GamePhase::Playing };
                },
                _ => {},
            }
        }
        match self.phase {
            GamePhase::Paused | GamePhase::GameOver => false,
            _ => true,
        }
    }

    /// Count this tick.
    pub fn advance_time(&mut self)
        ensures
            *final(self) == (GameCore {
                time_ticks: old(self).time_ticks.saturating_add(1),
                ..*old(self)
            }),
    {
        self.time_ticks = self.time_ticks.saturating_add(1);
    }

    /// Launch the serve: the host converts every attached ball to a free
    /// ball; the core enters Playing and logs the launch.
    pub fn on_launch(&mut self)
        requires
            old(self).phase == GamePhase::Serve,
        ensures
            final(self).phase == GamePhase::Playing,
            final(self).events@ == old(self).events@.push(GameEvent::Launch),
            final(self).same_but_phase(GameCore { events: final (self).events, ..*old(self) }),
    {
        self.phase = GamePhase::Playing;
        self.events.push(GameEvent::Launch);
    }

    /// The debug skip command: jump straight to the next wave's serve. The
    /// host clears blocks and balls and regenerates the layout.
    pub fn skip_wave(&mut self)
        ensures
            *final(self) == (GameCore {
                wave_index: old(self).wave_index.saturating_add(1),
                breather_ticks: 0,
                phase: GamePhase::Serve,
                ..*old(self)
            }),
    {
        self.wave_index = self.wave_index.saturating_add(1);
        self.breather_ticks = 0;
        self.phase = GamePhase::Serve;
    }

    /// A ball damaged a block: the combo streak grows and the hit is
    /// logged.
    pub fn on_block_damaged(&mut self)
        ensures
            *final(self) == (GameCore {
                combo: old(self).combo.saturating_add(1),
                events: final (self).events,
                ..*old(self)
            }),
            final(self).events@ == old(self).events@.push(GameEvent::BlockHit),
    {
        self.combo = self.combo.saturating_add(1);
        self.events.push(GameEvent::BlockHit);
    }

    /// A ball finished sliding through a portal block and wore it out: the
    /// combo grows, but portal traversal awards no points.
    pub fn on_portal_block_destroyed(&mut self)
        ensures
            *final(self) == (GameCore {
                combo: old(self).combo.saturating_add(1),
                ..*old(self)
            }),
    {
        self.combo = self.combo.saturating_add(1);
    }

    /// A ball destroyed a block directly: award its base score times the
    /// combo multiplier and log the break. Returns the points awarded.
    pub fn award_block_destroyed(&mut self, kind: BlockKind) -> (points: u64)
        ensures
            points == spec_score_for_break(kind, old(self).combo),
            *final(self) == (GameCore {
                score: old(self).score.saturating_add(points),
                events: final (self).events,
                ..*old(self)
            }),
            final(self).events@ == old(self).events@.push(GameEvent::BlockBreak(kind)),
    {
        let points = score_for_break(kind, self.combo);
        self.score = self.score.saturating_add(points);
        self.events.push(GameEvent::BlockBreak(kind));
        points
    }

    /// An explosion chain destroyed a neighbouring block: award the flat
    /// per-kind score (no combo multiplier) and log the break.
    pub fn award_explosion_destroyed(&mut self, kind: BlockKind) -> (points: u64)
        ensures
            points == kind.spec_explosion_score(),
            *final(self) == (GameCore {
                score: old(self).score.saturating_add(points),
                events: final (self).events,
                ..*old(self)
            }),
            final(self).events@ == old(self).events@.push(GameEvent::BlockBreak(kind)),
    {
        let points = kind.explosion_score();
        self.score = self.score.saturating_add(points);
        self.events.push(GameEvent::BlockBreak(kind));
        points
    }

    /// A ball crossed the event horizon unshielded: the streak resets and
    /// the loss is logged. The host starts the dying animation.
    pub fn on_ball_lost(&mut self)
        ensures
            *final(self) == (GameCore { combo: 0, events: final (self).events, ..*old(self) }),
            final(self).events@ == old(self).events@.push(GameEvent::BallLost),
    {
        self.combo = 0;
        self.events.push(GameEvent::BallLost);
    }

    /// The paddle collected a pickup: its effect starts (or stacks) and
    /// the collection is logged. Multi-ball is handled by the host, which
    /// spawns the extra balls.
    pub fn collect_pickup(&mut self, kind: PickupKind)
        ensures
            *final(self) == (GameCore {
                effects: old(self).effects.spec_collect(kind),
                events: final (self).events,
                ..*old(self)
            }),
            final(self).events@ == old(self).events@.push(GameEvent::PickupCollect),
    {
        self.effects.collect(kind);
        self.events.push(GameEvent::PickupCollect);
    }

    /// Every ball is gone during Playing: one life is lost. With lives
    /// left the run returns to Serve and the host respawns an attached
    /// ball (the method returns true); at zero lives the run is over and
    /// stays over.
    pub fn resolve_ball_depletion(&mut self) -> (respawn: bool)
        ensures
            final(self).lives == old(self).lives.saturating_sub(1),
            final(self).phase == if final(self).lives == 0 {
                GamePhase::GameOver
            } else {
                GamePhase::Serve
            },
            respawn == (final(self).lives > 0),
            final(self).events@ == if final(self).lives == 0 {
                old(self).events@.push(GameEvent::GameOver)
            } else {
                old(self).events@
            },
            *final(self) == (GameCore {
                lives: final (self).lives,
                phase: final (self).phase,
                events: final (self).events,
                ..*old(self)
            }),
    {
        self.lives = self.lives.saturating_sub(1);
        if self.lives == 0 {
            self.phase = GamePhase::GameOver;
            self.events.push(GameEvent::GameOver);
            false
        } else {
            self.phase = GamePhase::Serve;
            true
        }
    }

    /// No clearable block is left during Playing: the wave is won. The
    /// wave index grows by exactly one, the breather countdown starts, and
    /// the clear is logged; the host clears all blocks and balls and grows
    /// the arena.
    pub fn resolve_wave_clear(&mut self)
        ensures
            *final(self) == (GameCore {
                wave_index: old(self).wave_index.saturating_add(1),
                breather_ticks: BREATHER_DURATION_TICKS,
                phase: GamePhase::Breather,
                events: final (self).events,
                ..*old(self)
            }),
            final(self).events@ == old(self).events@.push(GameEvent::WaveClear),
    {
        self.wave_index = self.wave_index.saturating_add(1);
        self.breather_ticks = BREATHER_DURATION_TICKS;
        self.phase = GamePhase::Breather;
        self.events.push(GameEvent::WaveClear);
    }

    /// One tick of the breather rest: count down; on expiry the run
    /// returns to Serve and the host generates the next wave and spawns an
    /// attached ball (the method returns true).
    pub fn breather_step(&mut self) -> (start_serve: bool)
        ensures
            final(self).breather_ticks == old(self).breather_ticks.saturating_sub(1),
            start_serve == (final(self).breather_ticks == 0),
            final(self).phase == if start_serve {
                GamePhase::Serve
            } else {
                old(self).phase
            },
            *final(self) == (GameCore {
                breather_ticks: final (self).breather_ticks,
                phase: final (self).phase,
                ..*old(self)
            }),
    {
        self.breather_ticks = self.breather_ticks.saturating_sub(1);
        if self.breather_ticks == 0 {
            self.phase = GamePhase::Serve;
            true
        } else {
            false
        }
    }
}

/// Once a run is over it stays over: with the phase at GameOver, handling
/// any input leaves the core unchanged and the tick does not proceed.
pub proof fn lemma_game_over_terminal(phase: GamePhase, pause: bool, any_attached: bool)
    requires
        phase == GamePhase::GameOver,
    ensures
        spec_pause_phase(phase, pause, any_attached) == GamePhase::GameOver,
{
}

} // verus!
