//! Parameters of one fade cycle: the brightness held after activity, the floor
//! the ramp runs down to, how many steps the ramp has, and the two delays.

use vstd::prelude::*;

verus! {

/// Brightness commanded on every activity signal.
pub const FULL_BRIGHTNESS: i32 = 100;

/// Floor of the ramp.
pub const MIN_BRIGHTNESS: i32 = 0;

/// Number of steps in one ramp.
pub const FADE_STEPS: u32 = 50;

/// How long brightness is held at full after activity, in milliseconds.
pub const QUIET_PERIOD_MS: u64 = 4000;

/// Delay after each step of the ramp, in milliseconds.
pub const STEP_INTERVAL_MS: u64 = 50;

/// Capacity of the queue that carries commands to the actuator. One pending
/// command at most: a slow consumer holds producers back instead of letting a
/// backlog of stale ramp steps build up.
pub const COMMAND_QUEUE_CAPACITY: usize = 1;

/// The mathematical content of a [`FadeConfig`].
pub struct FadeParams {
    pub full: int,
    pub min: int,
    pub steps: int,
    pub quiet_ms: int,
    pub step_ms: int,
}

impl FadeParams {
    /// Levels are non-negative, the floor does not exceed full brightness, and
    /// the ramp has at least one step.
    pub open spec fn valid(self) -> bool {
        &&& 0 <= self.min <= self.full
        &&& 1 <= self.steps
    }

    /// Distance the ramp covers.
    pub open spec fn span(self) -> int {
        self.full - self.min
    }

    /// The parameters used when nothing else is configured.
    pub open spec fn standard() -> FadeParams {
        FadeParams {
            full: FULL_BRIGHTNESS as int,
            min: MIN_BRIGHTNESS as int,
            steps: FADE_STEPS as int,
            quiet_ms: QUIET_PERIOD_MS as int,
            step_ms: STEP_INTERVAL_MS as int,
        }
    }
}

/// Validated parameters of a fade cycle. Every value of this type satisfies
/// `FadeParams::valid`.
#[derive(Clone, Copy, Debug)]
pub struct FadeConfig {
    full: i32,
    min: i32,
    steps: u32,
    quiet_ms: u64,
    step_ms: u64,
}

impl View for FadeConfig {
    type V = FadeParams;

    closed spec fn view(&self) -> FadeParams {
        FadeParams {
            full: self.full as int,
            min: self.min as int,
            steps: self.steps as int,
            quiet_ms: self.quiet_ms as int,
            step_ms: self.step_ms as int,
        }
    }
}

impl FadeConfig {
    /// Holds of every configuration.
    #[verifier::type_invariant]
    pub open spec fn well_formed(self) -> bool {
        self@.valid()
    }

    /// Builds a configuration, or refuses parameters that are not
    /// `FadeParams::valid`.
    pub fn new(full: i32, min: i32, steps: u32, quiet_ms: u64, step_ms: u64) -> (r: Option<FadeConfig>)
        ensures
            r.is_some() <==> (0 <= min <= full && 1 <= steps),
            r matches Some(c) ==> c@ == (FadeParams {
                full: full as int,
                min: min as int,
                steps: steps as int,
                quiet_ms: quiet_ms as int,
                step_ms: step_ms as int,
            }),
    {
        if 0 <= min && min <= full && 1 <= steps {
            Some(FadeConfig { full, min, steps, quiet_ms, step_ms })
        } else {
            None
        }
    }

    /// Full brightness 100, floor 0, 50 steps, 4000 ms of quiet, 50 ms per step.
    pub fn standard() -> (c: FadeConfig)
        ensures
            c@ == FadeParams::standard(),
    {
        FadeConfig {
            full: FULL_BRIGHTNESS,
            min: MIN_BRIGHTNESS,
            steps: FADE_STEPS,
            quiet_ms: QUIET_PERIOD_MS,
            step_ms: STEP_INTERVAL_MS,
        }
    }

    /// Brightness commanded on activity.
    pub fn full(&self) -> (r: i32)
        ensures
            r == self@.full,
            self@.valid(),
    {
        proof {
            use_type_invariant(self);
        }
        self.full
    }

    /// Floor of the ramp.
    pub fn min(&self) -> (r: i32)
        ensures
            r == self@.min,
            self@.valid(),
    {
        proof {
            use_type_invariant(self);
        }
        self.min
    }

    /// Number of steps in one ramp.
    pub fn steps(&self) -> (r: u32)
        ensures
            r == self@.steps,
            self@.valid(),
    {
        proof {
            use_type_invariant(self);
        }
        self.steps
    }

    /// Milliseconds that brightness is held at full after activity.
    pub fn quiet_ms(&self) -> (r: u64)
        ensures
            r == self@.quiet_ms,
            self@.valid(),
    {
        proof {
            use_type_invariant(self);
        }
        self.quiet_ms
    }

    /// Milliseconds waited after each step of the ramp.
    pub fn step_ms(&self) -> (r: u64)
        ensures
            r == self@.step_ms,
            self@.valid(),
    {
        proof {
            use_type_invariant(self);
        }
        self.step_ms
    }
}

} // verus!
