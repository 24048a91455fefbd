//! Progress as a function of the time that has passed.

use crate::shared::time::{milliseconds_since, start_timer};
use vstd::prelude::*;

verus! {

/// The curve along which progress rises.
#[derive(Debug, Clone, Copy, PartialEq, Eq, Structural)]
pub enum EasingFunction {
    /// Progress rises with time.
    Linear,
    /// Cubic ease-out: `1 - (1 - x)^3`.
    EaseOut,
    /// A curve given by four control values in millionths; evaluated as the
    /// quadratic ease-out `1 - (1 - x)^2`.
    Bezier(i64, i64, i64, i64),
}

/// Parameters of the animation.
#[derive(Debug, Clone, Copy, PartialEq, Eq, Structural)]
pub struct ProgressConfig {
    pub estimated_duration_ms: u64,
    pub update_interval_ms: u64,
    pub easing_function: EasingFunction,
    /// The percentage at which the animation stops, in millionths of a
    /// percent.
    pub completion_threshold: u32,
}

impl Default for ProgressConfig {
    fn default() -> (config: ProgressConfig)
        ensures
            config == (ProgressConfig {
                estimated_duration_ms: 1000,
                update_interval_ms: 50,
                easing_function: EasingFunction::EaseOut,
                completion_threshold: 95_000_000,
            }),
    {
        ProgressConfig {
            estimated_duration_ms: 1000,
            update_interval_ms: 50,
            easing_function: EasingFunction::EaseOut,
            completion_threshold: 95_000_000,
        }
    }
}

/// Whether the animation is still rising or has reached its threshold.
#[derive(Debug, Clone, Copy, PartialEq, Eq, Structural)]
pub enum ProgressState {
    Running,
    Capped,
}

/// The share of the estimated duration that has passed, in millionths,
/// rounded down and capped at one. A duration of zero has passed at once.
pub open spec fn elapsed_fraction(elapsed_ms: u64, duration_ms: u64) -> int {
    if elapsed_ms >= duration_ms {
        1_000_000
    } else {
        elapsed_ms * 1_000_000 / (duration_ms as int)
    }
}

/// The cube of a number.
pub open spec fn cube(y: int) -> int {
    y * y * y
}

/// The value of an easing curve at `x`, both in millionths.
pub open spec fn eased(easing: EasingFunction, x: int) -> int {
    match easing {
        EasingFunction::Linear => x,
        EasingFunction::EaseOut => 1_000_000 - cube(1_000_000 - x) / 1_000_000_000_000,
        EasingFunction::Bezier(_, _, _, _) => 1_000_000 - (1_000_000 - x) * (1_000_000 - x)
            / 1_000_000,
    }
}

/// The percentage shown after `elapsed_ms`, in millionths of a percent: the
/// eased share of the duration, scaled to the completion threshold.
pub open spec fn progress(config: ProgressConfig, elapsed_ms: u64) -> int {
    eased(config.easing_function, elapsed_fraction(elapsed_ms, config.estimated_duration_ms))
        * config.completion_threshold / 1_000_000
}

/// The share of the duration that has passed lies between zero and one, and
/// never falls as time passes.
pub proof fn lemma_fraction(earlier: u64, later: u64, duration_ms: u64)
    requires
        earlier <= later,
    ensures
        0 <= elapsed_fraction(earlier, duration_ms) <= elapsed_fraction(later, duration_ms)
            <= 1_000_000,
{
    let d = duration_ms as int;
    if later < duration_ms {
        assert(0 <= earlier * 1_000_000 / d <= later * 1_000_000 / d <= 1_000_000)
            by (nonlinear_arith)
            requires
                0 <= earlier <= later < d,
        ;
    } else if earlier < duration_ms {
        assert(0 <= earlier * 1_000_000 / d <= 1_000_000) by (nonlinear_arith)
            requires
                0 <= earlier < d,
        ;
    }
}

/// An easing curve maps shares between zero and one to shares between zero
/// and one, and never falls.
pub proof fn lemma_eased(easing: EasingFunction, lower: int, higher: int)
    requires
        0 <= lower <= higher <= 1_000_000,
    ensures
        0 <= eased(easing, lower) <= eased(easing, higher) <= 1_000_000,
{
    let a = 1_000_000 - higher;
    let b = 1_000_000 - lower;
    match easing {
        EasingFunction::Linear => {},
        EasingFunction::EaseOut => {
            assert(0 <= a * a * a <= b * b * b <= 1_000_000_000_000_000_000) by (nonlinear_arith)
                requires
                    0 <= a <= b <= 1_000_000,
            ;
            let ca = cube(a);
            let cb = cube(b);
            assert(0 <= ca / 1_000_000_000_000 <= cb / 1_000_000_000_000 <= 1_000_000)
                by (nonlinear_arith)
                requires
                    0 <= ca <= cb <= 1_000_000_000_000_000_000,
            ;
        },
        EasingFunction::Bezier(_, _, _, _) => {
            assert(0 <= a * a <= b * b <= 1_000_000_000_000) by (nonlinear_arith)
                requires
                    0 <= a <= b <= 1_000_000,
            ;
            let sa = a * a;
            let sb = b * b;
            assert(0 <= sa / 1_000_000 <= sb / 1_000_000 <= 1_000_000) by (nonlinear_arith)
                requires
                    0 <= sa <= sb <= 1_000_000_000_000,
            ;
        },
    }
}

/// For a fixed configuration, the percentage shown never falls as time
/// passes, and never exceeds the completion threshold.
pub proof fn lemma_progress_monotonic(config: ProgressConfig, earlier: u64, later: u64)
    requires
        earlier <= later,
    ensures
        0 <= progress(config, earlier) <= progress(config, later) <= config.completion_threshold,
{
    lemma_fraction(earlier, later, config.estimated_duration_ms);
    let x = elapsed_fraction(earlier, config.estimated_duration_ms);
    let y = elapsed_fraction(later, config.estimated_duration_ms);
    lemma_eased(config.easing_function, x, y);
    let p = eased(config.easing_function, x);
    let q = eased(config.easing_function, y);
    let t = config.completion_threshold as int;
    assert(0 <= p * t / 1_000_000 <= q * t / 1_000_000 <= t) by (nonlinear_arith)
        requires
            0 <= p <= q <= 1_000_000,
            0 <= t,
    ;
}

/// Under a valid configuration the percentage shown stays below 100,
/// however much time passes.
pub proof fn lemma_progress_never_complete(config: ProgressConfig, elapsed_ms: u64)
    requires
        config.spec_is_valid(),
    ensures
        progress(config, elapsed_ms) < 100_000_000,
{
    lemma_progress_monotonic(config, elapsed_ms, elapsed_ms);
}

/// Once the estimated duration has passed, the percentage shown is the
/// completion threshold itself.
pub proof fn lemma_progress_capped(config: ProgressConfig, elapsed_ms: u64)
    requires
        elapsed_ms >= config.estimated_duration_ms,
    ensures
        progress(config, elapsed_ms) == config.completion_threshold,
{
    let t = config.completion_threshold as int;
    assert(cube(0) / 1_000_000_000_000 == 0) by (nonlinear_arith)
        requires
            cube(0) == 0,
    ;
    assert(1_000_000 * t / 1_000_000 == t) by (nonlinear_arith);
}

/// Computes the share of the estimated duration that has passed.
pub fn fraction_elapsed(elapsed_ms: u64, duration_ms: u64) -> (x: u64)
    ensures
        x == elapsed_fraction(elapsed_ms, duration_ms),
        x <= 1_000_000,
{
    proof {
        lemma_fraction(elapsed_ms, elapsed_ms, duration_ms);
    }
    if elapsed_ms >= duration_ms {
        1_000_000
    } else {
        let scaled: u128 = elapsed_ms as u128 * 1_000_000;
        (scaled / duration_ms as u128) as u64
    }
}

/// Evaluates an easing curve.
pub fn apply_easing(easing: EasingFunction, x: u64) -> (y: u64)
    requires
        x <= 1_000_000,
    ensures
        y == eased(easing, x as int),
        y <= 1_000_000,
{
    proof {
        lemma_eased(easing, x as int, x as int);
    }
    let rest: u64 = 1_000_000 - x;
    match easing {
        EasingFunction::Linear => x,
        EasingFunction::EaseOut => {
            assert(rest * rest <= 1_000_000_000_000 && rest * rest * rest
                <= 1_000_000_000_000_000_000) by (nonlinear_arith)
                requires
                    0 <= rest <= 1_000_000,
            ;
            let cubed: u64 = rest * rest * rest;
            1_000_000 - cubed / 1_000_000_000_000
        },
        EasingFunction::Bezier(_, _, _, _) => {
            assert(rest * rest <= 1_000_000_000_000) by (nonlinear_arith)
                requires
                    0 <= rest <= 1_000_000,
            ;
            let squared: u64 = rest * rest;
            1_000_000 - squared / 1_000_000
        },
    }
}

impl ProgressConfig {
    /// The completion threshold lies below 100 percent, so that the
    /// animation never shows a compression as done.
    pub open spec fn spec_is_valid(self) -> bool {
        self.completion_threshold < 100_000_000
    }

    /// Whether the completion threshold lies below 100 percent.
    pub fn is_valid(&self) -> (b: bool)
        ensures
            b == self.spec_is_valid(),
    {
        self.completion_threshold < 100_000_000
    }

    /// The percentage to show after `elapsed_ms`, in millionths of a
    /// percent.
    pub fn progress_at(&self, elapsed_ms: u64) -> (p: u32)
        ensures
            p == progress(*self, elapsed_ms),
            p <= self.completion_threshold,
    {
        proof {
            lemma_progress_monotonic(*self, elapsed_ms, elapsed_ms);
        }
        let x = fraction_elapsed(elapsed_ms, self.estimated_duration_ms);
        let y = apply_easing(self.easing_function, x);
        assert(y * self.completion_threshold <= 1_000_000 * 0xffff_ffff) by (nonlinear_arith)
            requires
                0 <= y <= 1_000_000,
                0 <= self.completion_threshold <= 0xffff_ffff,
        ;
        let scaled: u64 = y * (self.completion_threshold as u64) / 1_000_000;
        scaled as u32
    }

    /// Whether the animation still rises after `elapsed_ms`.
    pub open spec fn spec_state_at(self, elapsed_ms: u64) -> ProgressState {
        if progress(self, elapsed_ms) < self.completion_threshold {
            ProgressState::Running
        } else {
            ProgressState::Capped
        }
    }

    /// The state of the animation after `elapsed_ms`.
    pub fn state_at(&self, elapsed_ms: u64) -> (state: ProgressState)
        ensures
            state == self.spec_state_at(elapsed_ms),
    {
        if self.progress_at(elapsed_ms) < self.completion_threshold {
            ProgressState::Running
        } else {
            ProgressState::Capped
        }
    }
}

/// Turns the time since an operation started into the percentage to show.
pub struct ProgressCalculator {
    start: std::time::Instant,
    config: ProgressConfig,
}

impl ProgressCalculator {
    /// The configuration that the calculator was made with.
    pub closed spec fn config(&self) -> ProgressConfig {
        self.config
    }

    /// Starts the clock of an operation.
    pub fn new(config: ProgressConfig) -> (calculator: ProgressCalculator)
        ensures
            calculator.config() == config,
    {
        ProgressCalculator { start: start_timer(), config }
    }

    /// Returns the configuration that the calculator was made with.
    pub fn get_config(&self) -> (config: ProgressConfig)
        ensures
            config == self.config(),
    {
        self.config
    }

    /// The percentage to show now, in millionths of a percent: that of the
    /// time that has passed since the calculator was made. Whatever the
    /// clock says, it does not exceed the completion threshold.
    pub fn current_progress(&self) -> (p: u32)
        ensures
            p <= self.config().completion_threshold,
            exists|elapsed_ms: u64| p == progress(self.config(), elapsed_ms),
    {
        let elapsed_ms = milliseconds_since(&self.start);
        let p = self.config.progress_at(elapsed_ms);
        assert(p == progress(self.config(), elapsed_ms));
        p
    }

    /// Whether the host should go on polling: true while the percentage
    /// shown is below the completion threshold.
    pub fn should_continue_updates(&self) -> (go_on: bool)
        ensures
            exists|elapsed_ms: u64|
                go_on == (self.config().spec_state_at(elapsed_ms) == ProgressState::Running),
    {
        let elapsed_ms = milliseconds_since(&self.start);
        let state = self.config.state_at(elapsed_ms);
        assert(state == self.config().spec_state_at(elapsed_ms));
        state == ProgressState::Running
    }
}

} // verus!
