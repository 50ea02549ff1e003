use vstd::prelude::*;

use vstd::arithmetic::div_mod::{
    lemma_fundamental_div_mod, lemma_hoist_over_denominator, lemma_mod_multiples_vanish,
};

verus! {

/// How much simulated time passes per host step, as a fraction: `2/1` runs
/// the timers twice as fast, `1/2` half as fast.
#[derive(Debug, Copy, Clone, PartialEq, Eq, Structural)]
pub struct FrequencyScale {
    pub numerator: u32,
    pub denominator: u32,
}

/// The timer rate in Hz.
pub const TIMER_HZ: u64 = 60;

/// Progress towards the next timer tick is counted in units of
/// `1 / (60 * step_frequency * denominator)` seconds. One step adds this
/// many units.
pub open spec fn spec_step_increment(scale: Option<FrequencyScale>) -> nat {
    match scale {
        Some(s) => (TIMER_HZ * s.numerator) as nat,
        None => TIMER_HZ as nat,
    }
}

/// How many units make one tick of the 60 Hz timers.
pub open spec fn spec_tick_threshold(step_frequency: u32, scale: Option<FrequencyScale>) -> nat {
    match scale {
        Some(s) => (step_frequency * s.denominator) as nat,
        None => step_frequency as nat,
    }
}

/// A scale that can be used: no zero denominator.
pub open spec fn scale_ok(scale: Option<FrequencyScale>) -> bool {
    match scale {
        Some(s) => s.denominator > 0,
        None => true,
    }
}

pub fn step_increment(scale: Option<FrequencyScale>) -> (r: u64)
    ensures
        r == spec_step_increment(scale),
{
    match scale {
        Some(s) => TIMER_HZ * s.numerator as u64,
        None => TIMER_HZ,
    }
}

pub fn tick_threshold(step_frequency: u32, scale: Option<FrequencyScale>) -> (r: u64)
    ensures
        r == spec_tick_threshold(step_frequency, scale),
{
    match scale {
        Some(s) => {
            proof {
                assert(step_frequency * s.denominator <= u32::MAX * u32::MAX) by (nonlinear_arith);
            }
            step_frequency as u64 * s.denominator as u64
        },
        None => step_frequency as u64,
    }
}

/// Adds one step's `increment` to `progress`; returns the progress left
/// over and how many whole timer ticks passed.
pub fn advance_progress(progress: u64, increment: u64, threshold: u64) -> (r: (u64, u64))
    requires
        threshold > 0,
        progress < threshold,
        increment <= TIMER_HZ * u32::MAX,
    ensures
        r.0 == (progress + increment) % (threshold as int),
        r.1 == (progress + increment) / (threshold as int),
        r.0 < threshold,
{
    let total: u128 = progress as u128 + increment as u128;
    let t = threshold as u128;
    proof {
        assert(total / t <= total);
        assert(total / t <= 1 + increment) by (nonlinear_arith)
            requires
                total == progress + increment,
                progress < t,
                t > 0,
        ;
    }
    ((total % t) as u64, (total / t) as u64)
}

/// Progress and ticks after `n` steps from zero, one step at a time.
pub open spec fn run_steps(n: nat, increment: nat, threshold: nat) -> (nat, nat)
    decreases n,
{
    if n == 0 {
        (0, 0)
    } else {
        let (p, k) = run_steps((n - 1) as nat, increment, threshold);
        ((p + increment) % threshold, k + (p + increment) / threshold)
    }
}

/// However the steps fall, after `n` of them the timers have ticked once for
/// each whole tick of the total time: `n * increment / threshold` times.
pub proof fn lemma_ticks_follow_time(n: nat, increment: nat, threshold: nat)
    requires
        threshold > 0,
    ensures
        run_steps(n, increment, threshold).1 == (n * increment) / threshold,
        run_steps(n, increment, threshold).0 == (n * increment) % threshold,
    decreases n,
{
    if n > 0 {
        lemma_ticks_follow_time((n - 1) as nat, increment, threshold);
        let t = threshold as int;
        let a = (n - 1) * increment;
        let p = a % t;
        let q = a / t;
        lemma_fundamental_div_mod(a, t);
        assert(n * increment == a + increment) by (nonlinear_arith)
            requires
                a == (n - 1) * increment,
                n > 0,
        ;
        assert(a + increment == (p + increment) + q * t) by (nonlinear_arith)
            requires
                a == t * q + p,
        ;
        lemma_hoist_over_denominator(p + increment, q, threshold);
        lemma_mod_multiples_vanish(q, p + increment, t);
        assert(t * q + (p + increment) == a + increment) by (nonlinear_arith)
            requires
                a == t * q + p,
        ;
        let prev = run_steps((n - 1) as nat, increment, threshold);
        assert(prev.0 == p && prev.1 == q);
        assert(run_steps(n, increment, threshold).0 == (p + increment) % t);
        assert(run_steps(n, increment, threshold).1 == q + (p + increment) / t);
        assert((p + increment) / t + q == (a + increment) / t);
        assert((p + increment) % t == (a + increment) % t);
    } else {
        assert(n * increment == 0) by (nonlinear_arith)
            requires
                n == 0,
        ;
    }
}

/// Run for one simulated second — `n` steps at `step_frequency` with
/// `numerator / denominator` simulated time per real time, where
/// `n * numerator == step_frequency * denominator` — the timers tick exactly
/// sixty times, whatever the step frequency.
pub proof fn lemma_one_simulated_second(n: nat, step_frequency: u32, scale: FrequencyScale)
    requires
        step_frequency > 0,
        scale.denominator > 0,
        n * scale.numerator == step_frequency * scale.denominator,
    ensures
        run_steps(
            n,
            spec_step_increment(Some(scale)),
            spec_tick_threshold(step_frequency, Some(scale)),
        ).1 == TIMER_HZ,
{
    let inc = spec_step_increment(Some(scale));
    let thr = spec_tick_threshold(step_frequency, Some(scale));
    assert(thr > 0) by (nonlinear_arith)
        requires
            thr == step_frequency * scale.denominator,
            step_frequency > 0,
            scale.denominator > 0,
    ;
    lemma_ticks_follow_time(n, inc, thr);
    assert(n * inc == 60 * thr) by (nonlinear_arith)
        requires
            inc == 60 * scale.numerator,
            thr == step_frequency * scale.denominator,
            n * scale.numerator == step_frequency * scale.denominator,
    ;
    assert((60 * thr) / thr == 60) by (nonlinear_arith)
        requires
            thr > 0,
    ;
}

} // verus!
