//! Aggregated state of currently-active pickup effects, mutated only by the
//! tick scheduler: countdown timers for slow / piercing / widened paddle
//! (the latter stacking additively) and the one-shot shield flag.

use vstd::prelude::*;
use crate::kinds::PickupKind;
use crate::PIERCING_EFFECT_TICKS;
use crate::SLOW_EFFECT_TICKS;
use crate::WIDEN_EFFECT_TICKS;

verus! {

/// Active power-up effects.
#[derive(Debug, Clone, Copy, PartialEq, Eq, Structural)]
pub struct ActiveEffects {
    /// Ticks of slow motion remaining.
    pub slow_ticks: u32,
    /// Ticks of piercing balls remaining.
    pub piercing_ticks: u32,
    /// Ticks left on the currently expiring widen stack.
    pub widen_ticks: u32,
    /// Widen stacks held (each adds half a paddle width, capped).
    pub widen_stacks: u32,
    /// Whether one black-hole loss will be converted into a bounce.
    pub shield_active: bool,
}

impl Default for ActiveEffects {
    /// No effect active.
    fn default() -> (r: Self)
        ensures
            r == ActiveEffects::none(),
    {
        ActiveEffects {
            slow_ticks: 0,
            piercing_ticks: 0,
            widen_ticks: 0,
            widen_stacks: 0,
            shield_active: false,
        }
    }
}

impl ActiveEffects {
    /// The all-inactive state.
    pub open spec fn none() -> ActiveEffects {
        ActiveEffects {
            slow_ticks: 0,
            piercing_ticks: 0,
            widen_ticks: 0,
            widen_stacks: 0,
            shield_active: false,
        }
    }

    /// State after collecting one pickup of `kind`. A multi-ball pickup
    /// spawns balls instead of toggling an effect, so it leaves this record
    /// unchanged; a widen pickup restarts the stack timer and adds a stack.
    pub open spec fn spec_collect(self, kind: PickupKind) -> ActiveEffects {
        match kind {
            PickupKind::MultiBall => self,
            PickupKind::Slow => ActiveEffects { slow_ticks: SLOW_EFFECT_TICKS, ..self },
            PickupKind::Piercing => ActiveEffects {
                piercing_ticks: PIERCING_EFFECT_TICKS,
                ..self
            },
            PickupKind::WidenPaddle => ActiveEffects {
                widen_ticks: WIDEN_EFFECT_TICKS,
                widen_stacks: if self.widen_stacks < u32::MAX {
                    (self.widen_stacks + 1) as u32
                } else {
                    u32::MAX
                },
                ..self
            },
            PickupKind::Shield => ActiveEffects { shield_active: true, ..self },
        }
    }

    /// Record the collection of one pickup of `kind`.
    pub fn collect(&mut self, kind: PickupKind)
        ensures
            *final(self) == old(self).spec_collect(kind),
    {
        match kind {
            PickupKind::MultiBall => {},
            PickupKind::Slow => {
                self.slow_ticks = SLOW_EFFECT_TICKS;
            },
            PickupKind::Piercing => {
                self.piercing_ticks = PIERCING_EFFECT_TICKS;
            },
            PickupKind::WidenPaddle => {
                self.widen_ticks = WIDEN_EFFECT_TICKS;
                self.widen_stacks = self.widen_stacks.saturating_add(1);
            },
            PickupKind::Shield => {
                self.shield_active = true;
            },
        }
    }

    /// State after one tick of decay: the slow and piercing timers count
    /// down to zero; the widen timer counts down, and on expiry one stack is
    /// removed and the timer restarts while stacks remain.
    pub open spec fn spec_decay(self) -> ActiveEffects {
        let stepped = ActiveEffects {
            slow_ticks: if self.slow_ticks > 0 { (self.slow_ticks - 1) as u32 } else { 0u32 },
            piercing_ticks: if self.piercing_ticks > 0 {
                (self.piercing_ticks - 1) as u32
            } else {
                0u32
            },
            ..self
        };
        if self.widen_ticks > 0 {
            ActiveEffects { widen_ticks: (self.widen_ticks - 1) as u32, ..stepped }
        } else if self.widen_stacks > 0 {
            ActiveEffects {
                widen_stacks: (self.widen_stacks - 1) as u32,
                widen_ticks: if self.widen_stacks > 1 { WIDEN_EFFECT_TICKS } else { 0u32 },
                ..stepped
            }
        } else {
            stepped
        }
    }

    /// Advance all effect timers by one tick.
    pub fn decay(&mut self)
        ensures
            *final(self) == old(self).spec_decay(),
    {
        self.slow_ticks = self.slow_ticks.saturating_sub(1);
        self.piercing_ticks = self.piercing_ticks.saturating_sub(1);
        if self.widen_ticks > 0 {
            self.widen_ticks = self.widen_ticks - 1;
        } else if self.widen_stacks > 0 {
            self.widen_stacks = self.widen_stacks - 1;
            if self.widen_stacks > 0 {
                self.widen_ticks = WIDEN_EFFECT_TICKS;
            }
        }
    }

    /// Whether balls currently pierce through blocks.
    pub fn piercing_active(&self) -> (r: bool)
        ensures
            r == (self.piercing_ticks > 0),
    {
        self.piercing_ticks > 0
    }

    /// Whether the slow-motion speed cap currently applies.
    pub fn slow_active(&self) -> (r: bool)
        ensures
            r == (self.slow_ticks > 0),
    {
        self.slow_ticks > 0
    }

    /// Target paddle width as a percentage of the base width: half a width
    /// more per stack, capped at triple width.
    pub open spec fn spec_paddle_width_percent(self) -> u32 {
        if 100 + 50 * self.widen_stacks <= 300 {
            (100 + 50 * self.widen_stacks) as u32
        } else {
            300u32
        }
    }

    /// Target paddle width as a percentage of the base width.
    pub fn paddle_width_percent(&self) -> (r: u32)
        ensures
            r == self.spec_paddle_width_percent(),
    {
        if self.widen_stacks >= 4 {
            300
        } else {
            100 + 50 * self.widen_stacks
        }
    }
}

} // verus!
