//! The power-up bookkeeping of the simulation loop: which power-up is
//! active, for how many more ticks, and the physical parameters it
//! overrides while it lasts.  Activating a new power-up always resets
//! every parameter first (newest wins, no stacking); expiry restores
//! the defaults and clears the active power.

use vstd::prelude::*;

use crate::types::PowerType;

verus! {

/// How many ticks a collected power-up lasts.
pub const POWER_DURATION: i32 = 360;

/// The default acceleration clamp parameter.
pub const DEFAULT_ACCEL_RATE: i64 = -10000;

/// The power-dependent simulation parameters, with the active power-up
/// and its remaining duration.
#[derive(Clone, Copy, Debug)]
pub struct PowerState {
    /// The active power-up; `None` once the countdown has expired.
    pub active: Option<PowerType>,
    /// Remaining ticks of the active power-up.
    pub timer: i32,
    /// The acceleration clamp parameter.
    pub accel_rate: i64,
    /// The extra jump velocity.
    pub jump_change: i64,
    /// The extra forward speed.
    pub speed_adjust: i64,
    /// Whether obstacle side collisions are ignored.
    pub shielded: bool,
}

/// The state with every parameter at its default and nothing active.
pub open spec fn default_power_state() -> PowerState {
    PowerState {
        active: None,
        timer: 0,
        accel_rate: DEFAULT_ACCEL_RATE,
        jump_change: 0,
        speed_adjust: 0,
        shielded: false,
    }
}

/// The state after a power-up is collected: it becomes the active one,
/// the countdown restarts, and every parameter is reset to its default
/// (the per-power values are applied by the tick that follows).
pub open spec fn spec_activate(s: PowerState, p: PowerType) -> PowerState {
    PowerState { active: Some(p), timer: POWER_DURATION, ..default_power_state() }
}

/// The state after one tick: while the countdown runs, the active
/// power-up's parameter values are in force; once it reaches zero, the
/// parameters return to their defaults and the active power-up is
/// cleared.
pub open spec fn spec_tick(s: PowerState) -> PowerState {
    if s.timer > 0 {
        let t = PowerState { timer: (s.timer - 1) as i32, ..s };
        match s.active {
            Some(PowerType::SpeedBoost) => PowerState { speed_adjust: 5000i64, ..t },
            Some(PowerType::ScoreMultiplier) => t,
            Some(PowerType::BouncyShoes) => PowerState { jump_change: 300i64, ..t },
            Some(PowerType::LowerGravity) => PowerState {
                accel_rate: -5000i64,
                jump_change: 200i64,
                ..t
            },
            Some(PowerType::Shield) => PowerState { shielded: true, ..t },
            None => t,
        }
    } else {
        PowerState { timer: s.timer, ..default_power_state() }
    }
}

impl PowerState {
    /// The state before anything has been collected.
    pub fn new() -> (r: PowerState)
        ensures
            r == default_power_state(),
    {
        PowerState {
            active: None,
            timer: 0,
            accel_rate: DEFAULT_ACCEL_RATE,
            jump_change: 0,
            speed_adjust: 0,
            shielded: false,
        }
    }

    /// Activates a power-up: it unconditionally overrides any active
    /// one, resets every parameter, and restarts the countdown.
    pub fn activate(&mut self, p: PowerType)
        ensures
            *final(self) == spec_activate(*old(self), p),
    {
        self.active = Some(p);
        self.timer = POWER_DURATION;
        self.accel_rate = DEFAULT_ACCEL_RATE;
        self.jump_change = 0;
        self.speed_adjust = 0;
        self.shielded = false;
    }

    /// Advances the countdown one tick, applying the active power-up's
    /// parameter values while it lasts and restoring the defaults when
    /// it expires.
    pub fn tick(&mut self)
        ensures
            *final(self) == spec_tick(*old(self)),
    {
        if self.timer > 0 {
            self.timer = self.timer - 1;
            match self.active {
                Some(PowerType::SpeedBoost) => {
                    self.speed_adjust = 5000;
                },
                Some(PowerType::ScoreMultiplier) => {
                },
                Some(PowerType::BouncyShoes) => {
                    self.jump_change = 300;
                },
                Some(PowerType::LowerGravity) => {
                    self.accel_rate = -5000;
                    self.jump_change = 200;
                },
                Some(PowerType::Shield) => {
                    self.shielded = true;
                },
                None => {
                },
            }
        } else {
            self.active = None;
            self.accel_rate = DEFAULT_ACCEL_RATE;
            self.jump_change = 0;
            self.speed_adjust = 0;
            self.shielded = false;
        }
    }

    /// The score earned this tick after the multiplier: doubled while a
    /// score multiplier is active, unchanged otherwise.
    pub fn score_step(&self, score: i32) -> (r: i64)
        ensures
            r == if self.active == Some(PowerType::ScoreMultiplier) {
                2 * score as int
            } else {
                score as int
            },
    {
        if matches!(self.active, Some(PowerType::ScoreMultiplier)) {
            2 * score as i64
        } else {
            score as i64
        }
    }
}

/// Law: a power-up's activation wipes out all history — activating `p`
/// leaves the same state whatever came before, so a newly collected
/// power-up fully overrides the previous one's effects.
pub proof fn lemma_power_override(s1: PowerState, s2: PowerState, p: PowerType)
    ensures
        spec_activate(s1, p) == spec_activate(s2, p),
{
}

/// Law: after activating `p` and ticking once, exactly `p`'s parameter
/// values are in force: every other parameter sits at its default, `p`
/// is the active power-up, and no residue of any earlier power-up
/// remains.
pub proof fn lemma_power_effects(s: PowerState, p: PowerType)
    ensures
        spec_tick(spec_activate(s, p)).active == Some(p),
        spec_tick(spec_activate(s, p)).timer == POWER_DURATION - 1,
        spec_tick(spec_activate(s, p)).accel_rate == (if p == PowerType::LowerGravity {
            -5000int
        } else {
            DEFAULT_ACCEL_RATE as int
        }),
        spec_tick(spec_activate(s, p)).jump_change == (if p == PowerType::BouncyShoes {
            300int
        } else if p == PowerType::LowerGravity {
            200int
        } else {
            0int
        }),
        spec_tick(spec_activate(s, p)).speed_adjust == (if p == PowerType::SpeedBoost {
            5000int
        } else {
            0int
        }),
        spec_tick(spec_activate(s, p)).shielded == (p == PowerType::Shield),
{
}

} // verus!
