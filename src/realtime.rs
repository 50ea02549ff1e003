use vstd::prelude::*;

use crate::control::{ControlledInterpreter, ExecutionFault, FrameInfo};
use crate::display::Display;
use crate::engine::{cycled, steps, Chip8Interpreter};
use crate::execute::{engine_result, prepared, spec_resume, ticked, Interpreter, Resume};
use crate::hooks::InterpreterHook;
use crate::instruction::Instruction;
use crate::key::Keys;
use crate::machine::{spec_fetch, Machine};
use crate::timing::{lemma_one_simulated_second, FrequencyScale};

verus! {

/// The instruction at the program counter of `m` decodes, and sets neither
/// timer.
pub open spec fn leaves_timers(m: Machine) -> bool {
    match Instruction::spec_decode(spec_fetch(m).0) {
        Some(i) => !(i is SetDelayTimer) && !(i is SetSoundTimer),
        None => false,
    }
}

/// Only `SetDelayTimer` and `SetSoundTimer` change a timer.
pub proof fn lemma_step_keeps_timers(m: Machine, keys: Keys, random: u8, after: Machine, frame: FrameInfo, frame_after: FrameInfo, r: Result<(), ExecutionFault>)
    requires
        leaves_timers(m),
        r is Ok,
        steps(m, after, frame, frame_after, keys, random, r),
    ensures
        after.delay == m.delay,
        after.sound == m.sound,
{
}

/// Ticking `a` times and then `b` times is ticking `a + b` times.
pub proof fn lemma_ticked_add(t: u8, a: nat, b: nat)
    ensures
        ticked(ticked(t, a), b) == ticked(t, a + b),
{
}

/// One unblocked, successful wrapper step whose hooks only watch, over an
/// instruction that sets no timer, ticks each timer down exactly
/// `ticks_of(before)` times.
pub proof fn lemma_step_ticks_timers<H: InterpreterHook<Chip8Interpreter>>(
    before: Interpreter<Chip8Interpreter, H>,
    after: Interpreter<Chip8Interpreter, H>,
    keys: Keys,
    r: Result<Option<Display>, ExecutionFault>,
)
    requires
        Interpreter::advanced(before, after, keys, r),
        r is Ok,
        spec_resume(before.spec_state(), keys) != Resume::Blocked,
        before.spec_hooks().spec_transparent(),
        leaves_timers(before.spec_inner()@),
    ensures
        after.spec_inner()@.delay.0 == ticked(before.spec_inner()@.delay.0, Interpreter::ticks_of(before)),
        after.spec_inner()@.sound.0 == ticked(before.spec_inner()@.sound.0, Interpreter::ticks_of(before)),
{
    let (mid, f, g) = choose|mid: Chip8Interpreter, f: FrameInfo, g: FrameInfo|
        #![trigger mid.spec_stepped(after.spec_inner(), f, g, keys, engine_result(r))]
        {
            &&& prepared(
                before.spec_inner(),
                before.spec_state(),
                keys,
                mid,
                f,
                Interpreter::ticks_of(before),
            )
            &&& mid.spec_stepped(after.spec_inner(), f, g, keys, engine_result(r))
            &&& r is Ok ==> crate::execute::concluded(
                crate::control::InterpreterState::Normal,
                before.spec_buzzer(),
                g,
                after.spec_state(),
                after.spec_buzzer(),
                r,
            )
        };
    assert(mid@.pc == before.spec_inner()@.pc && mid@.memory == before.spec_inner()@.memory);
    assert(spec_fetch(mid@) == spec_fetch(before.spec_inner()@));
    assert(cycled(mid@, after.spec_inner()@, f, g, keys, Ok(())));
    let random = choose|random: u8| #[trigger] steps(mid@, after.spec_inner()@, f, g, keys, random, Ok::<(), ExecutionFault>(()));
    lemma_step_keeps_timers(mid@, keys, random, after.spec_inner()@, f, g, Ok(()));
}

/// The timers after the first `k` steps of a run: ticked `run_ticks` times.
proof fn lemma_run_timers<H: InterpreterHook<Chip8Interpreter>>(
    run: Seq<Interpreter<Chip8Interpreter, H>>,
    keys: Seq<Keys>,
    results: Seq<Result<Option<Display>, ExecutionFault>>,
    k: nat,
)
    requires
        run.len() >= k + 1,
        keys.len() >= k,
        results.len() >= k,
        forall|i: int| 0 <= i < k ==> #[trigger] Interpreter::advanced(run[i], run[i + 1], keys[i], results[i]),
        forall|i: int| 0 <= i < k ==> spec_resume(#[trigger] run[i].spec_state(), keys[i]) != Resume::Blocked,
        forall|i: int| 0 <= i < k ==> (#[trigger] results[i]) is Ok,
        forall|i: int| 0 <= i < k ==> (#[trigger] run[i].spec_hooks()).spec_transparent(),
        forall|i: int| 0 <= i < k ==> leaves_timers(#[trigger] run[i].spec_inner()@),
    ensures
        run[k as int].spec_inner()@.delay.0 == ticked(run[0].spec_inner()@.delay.0, Interpreter::run_ticks(run, k)),
        run[k as int].spec_inner()@.sound.0 == ticked(run[0].spec_inner()@.sound.0, Interpreter::run_ticks(run, k)),
    decreases k,
{
    if k > 0 {
        lemma_run_timers(run, keys, results, (k - 1) as nat);
        let j = k - 1;
        assert(Interpreter::advanced(run[j], run[j + 1], keys[j], results[j]));
        assert(results[j] is Ok);
        assert(run[j].spec_hooks().spec_transparent());
        assert(leaves_timers(run[j].spec_inner()@));
        assert(spec_resume(run[j].spec_state(), keys[j]) != Resume::Blocked);
        lemma_step_ticks_timers(run[j], run[j + 1], keys[j], results[j]);
        lemma_ticked_add(run[0].spec_inner()@.delay.0, Interpreter::run_ticks(run, j as nat), Interpreter::ticks_of(run[j]));
        lemma_ticked_add(run[0].spec_inner()@.sound.0, Interpreter::run_ticks(run, j as nat), Interpreter::ticks_of(run[j]));
        assert(j + 1 == k);
    }
}

/// One simulated second of wrapper steps over the engine — `n` steps with
/// `n * numerator == step_frequency * denominator`, none blocked, none
/// faulting, hooks that only watch, no instruction setting a timer — takes
/// sixty off each timer (down to zero at most), whatever the step
/// frequency.
pub proof fn lemma_timers_over_one_simulated_second<H: InterpreterHook<Chip8Interpreter>>(
    run: Seq<Interpreter<Chip8Interpreter, H>>,
    keys: Seq<Keys>,
    results: Seq<Result<Option<Display>, ExecutionFault>>,
    n: nat,
    scale: FrequencyScale,
)
    requires
        run.len() == n + 1,
        keys.len() >= n,
        results.len() >= n,
        run[0].spec_step_frequency() > 0,
        run[0].spec_scale() == Some(scale),
        scale.denominator > 0,
        run[0].spec_progress() == 0,
        n * scale.numerator == run[0].spec_step_frequency() * scale.denominator,
        forall|i: int| 0 <= i < n ==> #[trigger] Interpreter::advanced(run[i], run[i + 1], keys[i], results[i]),
        forall|i: int| 0 <= i < n ==> spec_resume(#[trigger] run[i].spec_state(), keys[i]) != Resume::Blocked,
        forall|i: int| 0 <= i < n ==> (#[trigger] results[i]) is Ok,
        forall|i: int| 0 <= i < n ==> (#[trigger] run[i].spec_hooks()).spec_transparent(),
        forall|i: int| 0 <= i < n ==> leaves_timers(#[trigger] run[i].spec_inner()@),
    ensures
        run[n as int].spec_inner()@.delay.0 == ticked(run[0].spec_inner()@.delay.0, 60),
        run[n as int].spec_inner()@.sound.0 == ticked(run[0].spec_inner()@.sound.0, 60),
{
    let f = run[0].spec_step_frequency();
    lemma_run_timers(run, keys, results, n);
    Interpreter::lemma_run_ticks_follow_time(run, keys, results, n);
    lemma_one_simulated_second(n, f, scale);
}

} // verus!
