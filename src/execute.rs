use vstd::prelude::*;

use crate::control::{
    keeps_machine, keeps_registers, ControlledInterpreter, ExecutionFault, FrameInfo,
    InterpreterState,
};
use crate::data::Datum;
use crate::display::Display;
use crate::hooks::{apply_keys, HookChain, InterpreterHook, NoHooks};
use crate::key::Keys;
use crate::register::GeneralRegister;
use crate::timing::{
    advance_progress, lemma_ticks_follow_time, run_steps, scale_ok, spec_step_increment, spec_tick_threshold, step_increment,
    tick_threshold, FrequencyScale,
};

verus! {

/// What the control state allows this step.
#[derive(Debug, Copy, Clone, PartialEq, Eq, Structural)]
pub enum Resume {
    /// Run the engine.
    Proceed,
    /// Store the key in the register, go back to normal, run the engine.
    Store(GeneralRegister, Datum),
    /// Run nothing and return no frame.
    Blocked,
}

/// The decision for a step in `state` with `keys` down: a key wait ends on
/// exactly one key; a busy wait, or the reserved held state, never ends.
pub open spec fn spec_resume(state: InterpreterState, keys: Keys) -> Resume {
    match state {
        InterpreterState::Normal => Resume::Proceed,
        InterpreterState::WaitForKey(r) => match keys.spec_one_key() {
            Some(k) => Resume::Store(r, Datum(k)),
            None => Resume::Blocked,
        },
        _ => Resume::Blocked,
    }
}

/// Waiting for a key into `r`: with no key or with two keys down the step is
/// blocked; with exactly key `k` down, `k` is stored in `r` and execution
/// goes on.
pub proof fn lemma_key_wait(r: GeneralRegister, keys: Keys)
    ensures
        !keys.spec_pressed() ==> spec_resume(InterpreterState::WaitForKey(r), keys)
            == Resume::Blocked,
        (exists|a: u16, b: u16|
            a < 16 && b < 16 && a != b && #[trigger] keys.is_down(a) && #[trigger] keys.is_down(b))
            ==> spec_resume(InterpreterState::WaitForKey(r), keys) == Resume::Blocked,
        forall|k: u16|
            k < 16 && keys@ == (1u16 << k) ==> #[trigger] spec_resume(
                InterpreterState::WaitForKey(r),
                keys,
            ) == Resume::Store(r, Datum(k as u8)),
{
    keys.lemma_one_key();
}

pub fn resume(state: InterpreterState, keys: Keys) -> (r: Resume)
    ensures
        r == spec_resume(state, keys),
{
    match state {
        InterpreterState::Normal => Resume::Proceed,
        InterpreterState::WaitForKey(reg) => match keys.one_key() {
            Some(key) => Resume::Store(reg, key),
            None => Resume::Blocked,
        },
        _ => Resume::Blocked,
    }
}

/// The control state after a step that reported `frame`: a busy wait wins
/// over a key wait, which wins over the state before.
pub open spec fn spec_next_state(state: InterpreterState, frame: FrameInfo) -> InterpreterState {
    if frame.spec_entered_busywait() {
        InterpreterState::BusyWaiting
    } else {
        match frame.spec_wait_for_key() {
            Some(r) => InterpreterState::WaitForKey(r),
            None => state,
        }
    }
}

pub fn next_state(state: InterpreterState, frame: &FrameInfo) -> (r: InterpreterState)
    ensures
        r == spec_next_state(state, *frame),
{
    let mut next = state;
    if let Some(reg) = frame.is_wait_for_key() {
        next = InterpreterState::WaitForKey(reg);
    }
    if frame.is_entered_busywait() {
        next = InterpreterState::BusyWaiting;
    }
    next
}

/// A timer `t` after `n` ticks: it stops at zero.
pub open spec fn ticked(t: u8, n: nat) -> u8 {
    if n >= t {
        0
    } else {
        (t - n) as u8
    }
}

/// The engine `after` and its `frame` are `before` resumed from `state` with
/// `keys` (a key that ends a key wait stored in its register) and then
/// ticked `ticks` times; the frame holds only the buzzer as the last tick
/// left it.
pub open spec fn prepared<I: ControlledInterpreter>(
    before: I,
    state: InterpreterState,
    keys: Keys,
    after: I,
    frame: FrameInfo,
    ticks: nat,
) -> bool {
    &&& match spec_resume(state, keys) {
        Resume::Store(reg, key) => after.spec_register(reg) == key.0 && forall|r: GeneralRegister|
            r != reg ==> #[trigger] after.spec_register(r) == before.spec_register(r),
        _ => keeps_registers(before, after),
    }
    &&& keeps_machine(before, after)
    &&& after.spec_delay_timer() == ticked(before.spec_delay_timer(), ticks)
    &&& after.spec_sound_timer() == ticked(before.spec_sound_timer(), ticks)
    &&& !frame.spec_entered_busywait()
    &&& !frame.spec_screen_modified()
    &&& frame.spec_wait_for_key().is_none()
    &&& frame.spec_buzzer_change_state() == if ticks == 0 {
        None
    } else {
        Some(ticked(before.spec_sound_timer(), (ticks - 1) as nat) > 0)
    }
}

/// After the engine reported `frame`: the state follows `spec_next_state`,
/// the buzzer changes where the frame says so, and a display is returned
/// exactly where the screen changed.
pub open spec fn concluded(
    state: InterpreterState,
    buzzer: bool,
    frame: FrameInfo,
    state_after: InterpreterState,
    buzzer_after: bool,
    r: Result<Option<Display>, ExecutionFault>,
) -> bool {
    &&& state_after == spec_next_state(state, frame)
    &&& buzzer_after == match frame.spec_buzzer_change_state() {
        Some(b) => b,
        None => buzzer,
    }
    &&& (r == Ok::<Option<Display>, ExecutionFault>(None)) == !frame.spec_screen_modified()
}

/// What the engine's step returned, seen from the wrapper's result.
pub open spec fn engine_result(r: Result<Option<Display>, ExecutionFault>) -> Result<(), ExecutionFault> {
    match r {
        Ok(_) => Ok(()),
        Err(e) => Err(e),
    }
}

/// The timer and state wrapper around an engine `I`, with the hook
/// pipeline `H`.
#[derive(Debug)]
pub struct Interpreter<I, H> {
    inner: I,
    buzzer_active: bool,
    step_frequency: u32,
    internal_frequency_scale: Option<FrequencyScale>,
    sixty_hertz_progress: u64,
    state: InterpreterState,
    hooks: H,
}

/// The step frequency that a new wrapper starts with, in Hz.
pub const DEFAULT_STEP_FREQUENCY: u32 = 8;

impl<I: ControlledInterpreter, H: InterpreterHook<I>> Interpreter<I, H> {
    pub closed spec fn spec_inner(&self) -> I {
        self.inner
    }

    pub closed spec fn spec_hooks(&self) -> H {
        self.hooks
    }

    pub closed spec fn spec_state(&self) -> InterpreterState {
        self.state
    }

    pub closed spec fn spec_buzzer(&self) -> bool {
        self.buzzer_active
    }

    pub closed spec fn spec_step_frequency(&self) -> u32 {
        self.step_frequency
    }

    pub closed spec fn spec_scale(&self) -> Option<FrequencyScale> {
        self.internal_frequency_scale
    }

    /// Progress towards the next timer tick, in the units of
    /// `spec_step_increment`.
    pub closed spec fn spec_progress(&self) -> u64 {
        self.sixty_hertz_progress
    }

    pub open spec fn wf(&self) -> bool {
        &&& self.spec_inner().wf()
        &&& self.spec_step_frequency() > 0
        &&& scale_ok(self.spec_scale())
        &&& self.spec_progress() < spec_tick_threshold(self.spec_step_frequency(), self.spec_scale())
    }

    /// A wrapper in the normal state, with the default step frequency, no
    /// scaling, the buzzer off and the given hooks.
    pub fn new_with_hooks(from: I, hooks: H) -> (r: Self)
        requires
            from.wf(),
        ensures
            r.wf(),
            r.spec_inner() == from,
            r.spec_hooks() == hooks,
            r.spec_state() == InterpreterState::Normal,
            !r.spec_buzzer(),
            r.spec_step_frequency() == DEFAULT_STEP_FREQUENCY,
            r.spec_scale().is_none(),
            r.spec_progress() == 0,
    {
        Interpreter {
            inner: from,
            buzzer_active: false,
            step_frequency: DEFAULT_STEP_FREQUENCY,
            internal_frequency_scale: None,
            sixty_hertz_progress: 0,
            state: InterpreterState::Normal,
            hooks,
        }
    }

    /// Steps `frequency` times per second; progress towards the next tick
    /// starts over.
    pub fn with_frequency(self, frequency: u32) -> (r: Self)
        requires
            self.wf(),
            frequency > 0,
        ensures
            r.wf(),
            r.spec_step_frequency() == frequency,
            r.spec_progress() == 0,
            r.spec_scale() == self.spec_scale(),
            r.spec_state() == self.spec_state(),
            r.spec_inner() == self.spec_inner(),
    {
        let mut s = self;
        s.step_frequency = frequency;
        s.sixty_hertz_progress = 0;
        proof {
            assert(spec_tick_threshold(frequency, s.internal_frequency_scale) > 0) by (nonlinear_arith)
                requires
                    frequency > 0,
                    scale_ok(s.internal_frequency_scale),
            ;
        }
        s
    }

    /// Scales simulated time against real time; progress towards the next
    /// tick starts over.
    pub fn with_simulated_frequency(self, frequency_scale: Option<FrequencyScale>) -> (r: Self)
        requires
            self.wf(),
            scale_ok(frequency_scale),
        ensures
            r.wf(),
            r.spec_scale() == frequency_scale,
            r.spec_progress() == 0,
            r.spec_step_frequency() == self.spec_step_frequency(),
            r.spec_state() == self.spec_state(),
            r.spec_inner() == self.spec_inner(),
    {
        let mut s = self;
        s.internal_frequency_scale = frequency_scale;
        s.sixty_hertz_progress = 0;
        proof {
            assert(spec_tick_threshold(s.step_frequency, frequency_scale) > 0) by (nonlinear_arith)
                requires
                    s.step_frequency > 0,
                    scale_ok(frequency_scale),
            ;
        }
        s
    }

    /// The engine.
    pub fn inner(&self) -> (r: &I)
        ensures
            *r == self.spec_inner(),
    {
        &self.inner
    }

    /// The control state.
    pub fn state(&self) -> (r: InterpreterState)
        ensures
            r == self.spec_state(),
    {
        self.state
    }

    /// Whether the buzzer sounds.
    pub fn buzzer_active(&self) -> (r: bool)
        ensures
            r == self.spec_buzzer(),
    {
        self.buzzer_active
    }

    /// The step frequency, in Hz.
    pub fn step_frequency(&self) -> (r: u32)
        ensures
            r == self.spec_step_frequency(),
    {
        self.step_frequency
    }

    /// What `advance` does, from `before` to `after`, with `keys`:
    /// - a blocked step returns no display and changes nothing;
    /// - otherwise the timer progress moves on by one step;
    /// - a returned display is the engine's, as it is afterwards;
    /// - where the hooks only watch, the step is exactly: `prepared` (key
    ///   stored, timers ticked), then the engine's step, then the state, the
    ///   buzzer and the returned display follow the engine's frame.
    pub open spec fn advanced(before: Self, after: Self, keys: Keys, r: Result<Option<Display>, ExecutionFault>) -> bool {
        let inc = spec_step_increment(before.spec_scale());
        let thr = spec_tick_threshold(before.spec_step_frequency(), before.spec_scale());
        let blocked = spec_resume(before.spec_state(), keys) == Resume::Blocked;
        &&& after.spec_step_frequency() == before.spec_step_frequency()
        &&& after.spec_scale() == before.spec_scale()
        &&& blocked ==> r == Ok::<Option<Display>, ExecutionFault>(None) && after.spec_inner()
            == before.spec_inner() && after.spec_state() == before.spec_state()
            && after.spec_progress() == before.spec_progress() && after.spec_buzzer()
            == before.spec_buzzer()
        &&& !blocked ==> after.spec_progress() == (before.spec_progress() + inc) % (thr as int)
        &&& r matches Ok(Some(d)) ==> d.wf() && d@ == after.spec_inner().spec_display()
        &&& (!blocked && before.spec_hooks().spec_transparent()) ==> exists|
            mid: I,
            f: FrameInfo,
            g: FrameInfo,
        |
            #![trigger mid.spec_stepped(after.spec_inner(), f, g, keys, engine_result(r))]
            {
                &&& prepared(
                    before.spec_inner(),
                    before.spec_state(),
                    keys,
                    mid,
                    f,
                    ((before.spec_progress() + inc) / (thr as int)) as nat,
                )
                &&& mid.spec_stepped(after.spec_inner(), f, g, keys, engine_result(r))
                &&& r is Ok ==> concluded(
                    InterpreterState::Normal,
                    before.spec_buzzer(),
                    g,
                    after.spec_state(),
                    after.spec_buzzer(),
                    r,
                )
            }
    }

    /// The timer ticks that the step from `s` makes (see `prepared`).
    pub open spec fn ticks_of(s: Self) -> nat {
        ((s.spec_progress() + spec_step_increment(s.spec_scale())) / (spec_tick_threshold(
            s.spec_step_frequency(),
            s.spec_scale(),
        ) as int)) as nat
    }

    /// The ticks of the first `n` steps of a run.
    pub open spec fn run_ticks(run: Seq<Self>, n: nat) -> nat
        decreases n,
    {
        if n == 0 {
            0
        } else {
            Self::run_ticks(run, (n - 1) as nat) + Self::ticks_of(run[n - 1])
        }
    }

    /// A run of `n` unblocked steps of the wrapper from zero progress ticks
    /// the timers `n * increment / threshold` times in all: once for each
    /// whole sixtieth of a second of simulated time, whatever the step
    /// frequency and however the steps fall.
    pub proof fn lemma_run_ticks_follow_time(
        run: Seq<Self>,
        keys: Seq<Keys>,
        results: Seq<Result<Option<Display>, ExecutionFault>>,
        n: nat,
    )
        requires
            run.len() == n + 1,
            keys.len() >= n,
            results.len() >= n,
            run[0].spec_step_frequency() > 0,
            scale_ok(run[0].spec_scale()),
            run[0].spec_progress() == 0,
            forall|i: int| 0 <= i < n ==> #[trigger] Self::advanced(run[i], run[i + 1], keys[i], results[i]),
            forall|i: int| 0 <= i < n ==> spec_resume(#[trigger] run[i].spec_state(), keys[i]) != Resume::Blocked,
        ensures
            Self::run_ticks(run, n) == run_steps(
                n,
                spec_step_increment(run[0].spec_scale()),
                spec_tick_threshold(run[0].spec_step_frequency(), run[0].spec_scale()),
            ).1,
            Self::run_ticks(run, n) == (n * spec_step_increment(run[0].spec_scale())) / spec_tick_threshold(
                run[0].spec_step_frequency(),
                run[0].spec_scale(),
            ),
        decreases n,
    {
        let inc = spec_step_increment(run[0].spec_scale());
        let thr = spec_tick_threshold(run[0].spec_step_frequency(), run[0].spec_scale());
        assert(thr > 0) by (nonlinear_arith)
            requires
                thr == spec_tick_threshold(run[0].spec_step_frequency(), run[0].spec_scale()),
                run[0].spec_step_frequency() > 0,
                scale_ok(run[0].spec_scale()),
        ;
        Self::lemma_run_prefix(run, keys, results, n);
        lemma_ticks_follow_time(n, inc, thr);
    }

    proof fn lemma_run_prefix(
        run: Seq<Self>,
        keys: Seq<Keys>,
        results: Seq<Result<Option<Display>, ExecutionFault>>,
        k: nat,
    )
        requires
            run.len() >= k + 1,
            keys.len() >= k,
            results.len() >= k,
            spec_tick_threshold(run[0].spec_step_frequency(), run[0].spec_scale()) > 0,
            run[0].spec_progress() == 0,
            forall|i: int| 0 <= i < k ==> #[trigger] Self::advanced(run[i], run[i + 1], keys[i], results[i]),
            forall|i: int| 0 <= i < k ==> spec_resume(#[trigger] run[i].spec_state(), keys[i]) != Resume::Blocked,
        ensures
            run[k as int].spec_step_frequency() == run[0].spec_step_frequency(),
            run[k as int].spec_scale() == run[0].spec_scale(),
            (run[k as int].spec_progress() as nat, Self::run_ticks(run, k)) == run_steps(
                k,
                spec_step_increment(run[0].spec_scale()),
                spec_tick_threshold(run[0].spec_step_frequency(), run[0].spec_scale()),
            ),
        decreases k,
    {
        if k > 0 {
            Self::lemma_run_prefix(run, keys, results, (k - 1) as nat);
            let j = k - 1;
            assert(Self::advanced(run[j], run[j + 1], keys[j], results[j]));
            assert(j + 1 == k);
        }
    }

    /// One host step: the hooks see the cycle start and may replace the
    /// keys; then `advance` runs on the state and keys they left, and the
    /// hooks see the cycle end unless the step was blocked or faulted. Where
    /// the hooks only watch, this is `advance` itself.
    pub fn step(&mut self, keys: Keys) -> (r: Result<Option<Display>, ExecutionFault>)
        requires
            old(self).wf(),
        ensures
            final(self).wf(),
            final(self).spec_step_frequency() == old(self).spec_step_frequency(),
            final(self).spec_scale() == old(self).spec_scale(),
            exists|before: Self, after: Self, k: Keys|
                {
                    &&& before.spec_inner() == old(self).spec_inner()
                    &&& before.spec_progress() == old(self).spec_progress()
                    &&& before.spec_buzzer() == old(self).spec_buzzer()
                    &&& before.spec_step_frequency() == old(self).spec_step_frequency()
                    &&& before.spec_scale() == old(self).spec_scale()
                    &&& old(self).spec_hooks().spec_transparent() ==> before.spec_state() == old(
                        self,
                    ).spec_state() && k == keys && before.spec_hooks().spec_transparent()
                    &&& #[trigger] Self::advanced(before, after, k, r)
                    &&& final(self).spec_inner() == after.spec_inner()
                    &&& final(self).spec_progress() == after.spec_progress()
                    &&& final(self).spec_buzzer() == after.spec_buzzer()
                    &&& old(self).spec_hooks().spec_transparent() ==> final(self).spec_state()
                        == after.spec_state() && final(self).spec_hooks().spec_transparent()
                },
    {
        self.hooks.pre_cycle(&mut self.state);
        let answer = self.hooks.get_keys(self.state, &self.inner, keys);
        let k = apply_keys(keys, answer);
        let blocked = resume(self.state, k) == Resume::Blocked;
        let ghost before = *self;
        let r = self.advance(k);
        let ghost after = *self;
        if r.is_ok() && !blocked {
            self.hooks.post_cycle(&mut self.state);
        }
        proof {
            assert(Self::advanced(before, after, k, r));
        }
        r
    }

    /// The step after the hooks have had the keys; see `advanced`. A fault
    /// of the engine ends the run.
    pub fn advance(&mut self, keys: Keys) -> (r: Result<Option<Display>, ExecutionFault>)
        requires
            old(self).wf(),
        ensures
            final(self).wf(),
            Self::advanced(*old(self), *final(self), keys, r),
            old(self).spec_hooks().spec_transparent() ==> final(self).spec_hooks().spec_transparent(),
            spec_resume(old(self).spec_state(), keys) == Resume::Blocked ==> *final(self) == *old(self),
    {
        if resume(self.state, keys) == Resume::Blocked {
            return Ok(None);
        }
        let ghost start = *self;
        let (ticks, frame0) = self.prepare(keys);
        let ghost mid = self.inner;
        let mut frame = frame0;
        self.hooks.before_step(&mut self.inner, &mut frame);
        let ghost f = frame;
        let ghost before_engine = self.inner;
        assert(start.hooks.spec_transparent() ==> before_engine == mid && f == frame0 && self.hooks.spec_transparent());
        let stepped = self.inner.step(keys, &mut frame);
        let ghost g0 = frame;
        let ghost stepped_inner = self.inner;
        let ghost t = ticks as nat;
        match stepped {
            Ok(u) => {
                assert(u == ());
                assert(stepped == Ok::<(), ExecutionFault>(()));
            },
            Err(fault) => {
                let r = Err(fault);
                proof {
                    if start.spec_hooks().spec_transparent() {
                        assert(engine_result(r) == stepped);
                        assert(prepared(start.inner, start.state, keys, mid, f, t)
                            && mid.spec_stepped(self.spec_inner(), f, g0, keys, engine_result(r))
                            && (r is Ok ==> concluded(
                                InterpreterState::Normal,
                                start.buzzer_active,
                                g0,
                                self.state,
                                self.buzzer_active,
                                r,
                            )));
                    }
                }
                return r;
            },
        }
        self.hooks.after_step(&mut self.inner, &mut frame);
        assert(start.hooks.spec_transparent() ==> self.inner == stepped_inner && frame == g0);
        let shown = self.conclude(&frame);
        proof {
            let r = Ok::<Option<Display>, ExecutionFault>(shown);
            if start.spec_hooks().spec_transparent() {
                assert(engine_result(r) == stepped);
                assert(prepared(start.inner, start.state, keys, mid, f, t)
                    && mid.spec_stepped(self.spec_inner(), f, g0, keys, engine_result(r))
                    && concluded(InterpreterState::Normal, start.buzzer_active, g0, self.state, self.buzzer_active, r));
            }
        }
        Ok(shown)
    }

    /// Resumes from the control state and ticks the timers: a key that ends
    /// a key wait is stored in its register, the state becomes `Normal`, the
    /// timer progress moves on by one step and both timers tick down once
    /// for each whole tick that completes. The frame that the engine will
    /// report into holds only the buzzer as the last tick left it.
    fn prepare(&mut self, keys: Keys) -> (r: (u64, FrameInfo))
        requires
            old(self).wf(),
            spec_resume(old(self).spec_state(), keys) != Resume::Blocked,
        ensures
            final(self).wf(),
            final(self).spec_state() == InterpreterState::Normal,
            final(self).spec_hooks() == old(self).spec_hooks(),
            final(self).spec_buzzer() == old(self).spec_buzzer(),
            final(self).spec_step_frequency() == old(self).spec_step_frequency(),
            final(self).spec_scale() == old(self).spec_scale(),
            final(self).spec_progress() == (old(self).spec_progress() + spec_step_increment(
                old(self).spec_scale(),
            )) % (spec_tick_threshold(old(self).spec_step_frequency(), old(self).spec_scale()) as int),
            r.0 == (old(self).spec_progress() + spec_step_increment(old(self).spec_scale())) / (
            spec_tick_threshold(old(self).spec_step_frequency(), old(self).spec_scale()) as int),
            prepared(old(self).spec_inner(), old(self).spec_state(), keys, final(self).spec_inner(), r.1, r.0 as nat),
    {
        let ghost start = self.inner;
        match resume(self.state, keys) {
            Resume::Store(reg, key) => {
                self.state = InterpreterState::Normal;
                self.inner.set_register(reg, key);
            },
            _ => {},
        }
        let ghost stored = self.inner;
        let (progress, ticks) = self.advance_timers();
        self.sixty_hertz_progress = progress;
        let mut frame = FrameInfo::empty();
        let mut n: u64 = 0;
        while n < ticks
            invariant
                self.wf(),
                self.step_frequency == old(self).step_frequency,
                self.internal_frequency_scale == old(self).internal_frequency_scale,
                self.sixty_hertz_progress == progress,
                self.state == InterpreterState::Normal,
                self.buzzer_active == old(self).buzzer_active,
                self.hooks == old(self).hooks,
                n <= ticks,
                keeps_registers(stored, self.inner),
                keeps_machine(stored, self.inner),
                self.inner.spec_delay_timer() == ticked(stored.spec_delay_timer(), n as nat),
                self.inner.spec_sound_timer() == ticked(stored.spec_sound_timer(), n as nat),
                !frame.spec_entered_busywait(),
                !frame.spec_screen_modified(),
                frame.spec_wait_for_key().is_none(),
                frame.spec_buzzer_change_state() == if n == 0 {
                    None
                } else {
                    Some(ticked(stored.spec_sound_timer(), (n - 1) as nat) > 0)
                },
            decreases ticks - n,
        {
            let tick = self.inner.timer_tick_60hz();
            frame.set_buzzer(tick.buzzer_active());
            n = n + 1;
        }
        (ticks, frame)
    }

    /// Folds the engine's frame into the wrapper: the control state follows
    /// `spec_next_state`, the buzzer changes where the frame says so, and
    /// the engine's display is returned exactly where the screen changed.
    fn conclude(&mut self, frame: &FrameInfo) -> (r: Option<Display>)
        requires
            old(self).wf(),
        ensures
            final(self).wf(),
            final(self).spec_inner() == old(self).spec_inner(),
            final(self).spec_hooks() == old(self).spec_hooks(),
            final(self).spec_progress() == old(self).spec_progress(),
            final(self).spec_step_frequency() == old(self).spec_step_frequency(),
            final(self).spec_scale() == old(self).spec_scale(),
            concluded(
                old(self).spec_state(),
                old(self).spec_buzzer(),
                *frame,
                final(self).spec_state(),
                final(self).spec_buzzer(),
                Ok::<Option<Display>, ExecutionFault>(r),
            ),
            r matches Some(d) ==> d.wf() && d@ == final(self).spec_inner().spec_display(),
    {
        self.state = next_state(self.state, frame);
        if let Some(buzzer) = frame.is_buzzer_change_state() {
            self.buzzer_active = buzzer;
        }
        if frame.is_modify_screen() {
            Some(self.inner.display().snapshot())
        } else {
            None
        }
    }

    /// The progress left after one more step, and how many timer ticks it
    /// completes.
    fn advance_timers(&self) -> (r: (u64, u64))
        requires
            self.wf(),
        ensures
            r.0 == (self.spec_progress() + spec_step_increment(self.spec_scale())) % (
            spec_tick_threshold(self.spec_step_frequency(), self.spec_scale()) as int),
            r.0 < spec_tick_threshold(self.spec_step_frequency(), self.spec_scale()),
            r.1 == (self.spec_progress() + spec_step_increment(self.spec_scale())) / (
            spec_tick_threshold(self.spec_step_frequency(), self.spec_scale()) as int),
    {
        let increment = step_increment(self.internal_frequency_scale);
        let threshold = tick_threshold(self.step_frequency, self.internal_frequency_scale);
        proof {
            match self.internal_frequency_scale {
                Some(s) => {
                    assert(increment <= 60 * u32::MAX) by (nonlinear_arith)
                        requires
                            increment == 60 * s.numerator,
                    ;
                },
                None => {},
            }
        }
        advance_progress(self.sixty_hertz_progress, increment, threshold)
    }
}

impl<I: ControlledInterpreter> Interpreter<I, NoHooks> {
    /// A wrapper with no hooks.
    pub fn new(from: I) -> (r: Self)
        requires
            from.wf(),
        ensures
            r.wf(),
            r.spec_inner() == from,
            r.spec_hooks() == NoHooks,
            r.spec_state() == InterpreterState::Normal,
            !r.spec_buzzer(),
            r.spec_step_frequency() == DEFAULT_STEP_FREQUENCY,
            r.spec_scale().is_none(),
            r.spec_progress() == 0,
    {
        Self::new_with_hooks(from, NoHooks)
    }

    /// A builder with an empty hook pipeline.
    pub fn builder() -> (r: InterpreterBuilder<NoHooks>)
        ensures
            r.hooks == NoHooks,
    {
        InterpreterBuilder::new()
    }
}

/// Collects the hooks of an interpreter, in the order they will run.
#[derive(Debug)]
pub struct InterpreterBuilder<H> {
    pub hooks: H,
}

impl InterpreterBuilder<NoHooks> {
    pub fn new() -> (r: Self)
        ensures
            r.hooks == NoHooks,
    {
        InterpreterBuilder { hooks: NoHooks }
    }
}

impl<H> InterpreterBuilder<H> {
    /// Adds `with` after the hooks so far.
    pub fn extend_with<N>(self, with: N) -> (r: InterpreterBuilder<HookChain<H, N>>)
        ensures
            r.hooks.first == self.hooks,
            r.hooks.second == with,
    {
        InterpreterBuilder { hooks: HookChain { first: self.hooks, second: with } }
    }

    /// Adds a hook of type `N`, made by its `Default`, after the hooks so far.
    pub fn extend<N: Default>(self) -> (r: InterpreterBuilder<HookChain<H, N>>)
        ensures
            r.hooks.first == self.hooks,
    {
        self.extend_with(N::default())
    }

    /// The wrapper around `with`, running the collected hooks.
    pub fn build<I: ControlledInterpreter>(self, with: I) -> (r: Interpreter<I, H>)
        where
            H: InterpreterHook<I>,
        requires
            with.wf(),
        ensures
            r.wf(),
            r.spec_inner() == with,
            r.spec_hooks() == self.hooks,
            r.spec_state() == InterpreterState::Normal,
            !r.spec_buzzer(),
            r.spec_step_frequency() == DEFAULT_STEP_FREQUENCY,
            r.spec_scale().is_none(),
            r.spec_progress() == 0,
    {
        Interpreter::new_with_hooks(with, self.hooks)
    }
}

/// An engine that can be put into the timer and state wrapper.
pub trait ControlledToInterpreter: ControlledInterpreter {
    /// The wrapper with no hooks around this engine.
    fn to_interpreter(self) -> (r: Interpreter<Self, NoHooks>)
        requires
            self.wf(),
        ensures
            r.wf(),
            r.spec_inner() == self,
            r.spec_state() == InterpreterState::Normal,
            !r.spec_buzzer(),
            r.spec_step_frequency() == DEFAULT_STEP_FREQUENCY,
            r.spec_scale().is_none(),
            r.spec_progress() == 0,
    ;
}

impl<T: ControlledInterpreter> ControlledToInterpreter for T {
    fn to_interpreter(self) -> (r: Interpreter<Self, NoHooks>) {
        Interpreter::new(self)
    }
}

} // verus!
