use c8common::control::{ControlledInterpreter, InterpreterState};
use c8common::execute::{next_state, resume, Interpreter, Resume};
use c8common::hooks::{combine, EnabledHook, FurtherHooks, HookedItem, NoHooks};
use c8common::key::Keys;
use c8common::execute::ControlledToInterpreter;
use c8common::memory::{Memory, ROM};
use c8common::Address;
use c8common::timing::{advance_progress, FrequencyScale};
use c8common::{Chip8Interpreter, Datum, GeneralRegister as V};

fn engine(program: Vec<u8>) -> Chip8Interpreter {
    Chip8Interpreter::new_from_rom(ROM::from_bytes(program).unwrap())
}

fn keys_with(down: &[usize]) -> Keys {
    let mut raw = [false; 16];
    for &k in down {
        raw[k] = true;
    }
    Keys::from_raw(raw)
}

#[test]
fn key_wait_blocking() {
    // F30A: wait for a key into V3; then no-ops.
    let mut int = Interpreter::new(engine(vec![0xF3, 0x0A, 0x00, 0x00, 0x00, 0x00]));
    assert!(int.step(keys_with(&[])).unwrap().is_none());
    assert_eq!(int.state(), InterpreterState::WaitForKey(V::V3));

    assert!(int.step(keys_with(&[])).unwrap().is_none());
    assert_eq!(int.state(), InterpreterState::WaitForKey(V::V3));
    assert_eq!(int.inner().program_counter().as_u16(), 0x202);

    assert!(int.step(keys_with(&[2, 9])).unwrap().is_none());
    assert_eq!(int.state(), InterpreterState::WaitForKey(V::V3));
    assert_eq!(int.inner().program_counter().as_u16(), 0x202);

    assert!(int.step(keys_with(&[9])).unwrap().is_none());
    assert_eq!(int.state(), InterpreterState::Normal);
    assert_eq!(int.inner().register(V::V3), Datum(9));
    assert_eq!(int.inner().program_counter().as_u16(), 0x204);
}

#[test]
fn resume_decisions() {
    let wait = InterpreterState::WaitForKey(V::V3);
    assert_eq!(resume(wait, keys_with(&[])), Resume::Blocked);
    assert_eq!(resume(wait, keys_with(&[1, 2])), Resume::Blocked);
    assert_eq!(resume(wait, keys_with(&[0xC])), Resume::Store(V::V3, Datum(0xC)));
    assert_eq!(resume(InterpreterState::Normal, keys_with(&[1, 2])), Resume::Proceed);
    assert_eq!(resume(InterpreterState::BusyWaiting, keys_with(&[1])), Resume::Blocked);
}

#[test]
fn busy_wait_is_terminal() {
    // 1200: jump to itself.
    let mut int = Interpreter::new(engine(vec![0x12, 0x00]));
    assert!(int.step(keys_with(&[])).unwrap().is_none());
    assert_eq!(int.state(), InterpreterState::BusyWaiting);
    assert!(int.step(keys_with(&[1])).unwrap().is_none());
    assert_eq!(int.state(), InterpreterState::BusyWaiting);
}

#[test]
fn frame_returned_when_screen_touched() {
    // 00E0: clear screen; 0000: no-op.
    let mut int = Interpreter::new(engine(vec![0x00, 0xE0, 0x00, 0x00]));
    let shown = int.step(keys_with(&[])).unwrap();
    assert!(shown.is_some());
    assert!(shown.unwrap().raw().iter().all(|p| !p));
    assert!(int.step(keys_with(&[])).unwrap().is_none());
}

fn timer_program() -> Vec<u8> {
    // V0 = 0xFF; delay = V0; sound = V0; then no-ops.
    vec![0x60, 0xFF, 0xF0, 0x15, 0xF0, 0x18]
}

#[test]
fn timer_real_time_scaling() {
    for frequency in [10u32, 60, 100, 512] {
        let mut int = Interpreter::new(engine(timer_program()))
            .with_frequency(frequency)
            .with_simulated_frequency(Some(FrequencyScale { numerator: 2, denominator: 1 }));
        for _ in 0..3 {
            int.step(keys_with(&[])).unwrap();
        }
        let delay_before = int.inner().delay_timer_register().inner();
        let sound_before = int.inner().sound_timer_register().inner();
        // One simulated second at twice the speed: half the step frequency.
        for _ in 0..frequency / 2 {
            int.step(keys_with(&[])).unwrap();
        }
        assert_eq!(delay_before - int.inner().delay_timer_register().inner(), 60);
        assert_eq!(sound_before - int.inner().sound_timer_register().inner(), 60);
        assert!(int.buzzer_active());
    }
}

#[test]
fn timers_stop_at_zero_and_buzzer_turns_off() {
    // V0 = 2; sound = V0; then no-ops.
    let mut int = Interpreter::new(engine(vec![0x60, 0x02, 0xF0, 0x18])).with_frequency(60);
    int.step(keys_with(&[])).unwrap();
    int.step(keys_with(&[])).unwrap();
    assert_eq!(int.inner().sound_timer_register(), Datum(2));
    int.step(keys_with(&[])).unwrap();
    assert!(int.buzzer_active());
    int.step(keys_with(&[])).unwrap();
    int.step(keys_with(&[])).unwrap();
    assert_eq!(int.inner().sound_timer_register(), Datum(0));
    assert!(!int.buzzer_active());
}

#[test]
fn progress_accounting() {
    assert_eq!(advance_progress(0, 60, 100), (60, 0));
    assert_eq!(advance_progress(60, 60, 100), (20, 1));
    assert_eq!(advance_progress(5, 120, 10), (5, 12));
}

#[test]
fn state_after_frame() {
    let mut frame = c8common::control::FrameInfo::empty();
    assert_eq!(next_state(InterpreterState::Normal, &frame), InterpreterState::Normal);
    frame.wait_for_key_on(V::V1);
    assert_eq!(next_state(InterpreterState::Normal, &frame), InterpreterState::WaitForKey(V::V1));
    frame.busywait();
    assert_eq!(next_state(InterpreterState::Normal, &frame), InterpreterState::BusyWaiting);
}

#[test]
fn hook_answers_combine() {
    let k1 = keys_with(&[1]);
    let k2 = keys_with(&[2]);
    assert_eq!(combine(HookedItem::passthrough(k1), HookedItem::ignore()).item, Some(k1));
    let both = combine(HookedItem::passthrough(k1), HookedItem::finish(k2));
    assert_eq!(both.item, Some(k2));
    assert_eq!(both.behaviour, FurtherHooks::Stop);
}

#[test]
fn builder_with_hooks_runs() {
    let mut int = Interpreter::<Chip8Interpreter, NoHooks>::builder()
        .extend_with(EnabledHook::new(NoHooks, true))
        .extend::<NoHooks>()
        .build(engine(vec![0x61, 0x05]));
    int.step(keys_with(&[])).unwrap();
    assert_eq!(int.inner().register(V::V1), Datum(5));
    let mut hook = EnabledHook::new(NoHooks, true);
    hook.disable();
    assert!(!hook.is_enabled());
    hook.enable();
    assert!(hook.is_enabled());
}

#[test]
fn self_jump_at_the_last_word_is_a_busy_wait() {
    let mut bytes = vec![0u8; 4096];
    bytes[0xFFE] = 0x1F;
    bytes[0xFFF] = 0xFE;
    let mut engine = Chip8Interpreter::new_from_memory(Memory::from_bytes(bytes).unwrap());
    engine.set_program_counter(Address::new(0xFFE));
    let mut int = Interpreter::new(engine);
    assert!(int.step(keys_with(&[])).unwrap().is_none());
    assert_eq!(int.state(), InterpreterState::BusyWaiting);
    assert_eq!(int.inner().program_counter().as_u16(), 0xFFE);
    assert!(int.step(keys_with(&[])).unwrap().is_none());
    assert_eq!(int.inner().program_counter().as_u16(), 0xFFE);
}

#[test]
fn engine_converts_into_wrapper() {
    let mut int = engine(vec![0x61, 0x07]).to_interpreter();
    assert_eq!(int.state(), InterpreterState::Normal);
    assert!(!int.buzzer_active());
    int.step(keys_with(&[])).unwrap();
    assert_eq!(int.inner().register(V::V1), Datum(7));
}

#[test]
fn disabled_hook_is_skipped() {
    let mut int = Interpreter::<Chip8Interpreter, NoHooks>::builder()
        .extend_with(EnabledHook::new(NoHooks, false))
        .build(engine(vec![0x61, 0x09]));
    int.step(keys_with(&[])).unwrap();
    assert_eq!(int.inner().register(V::V1), Datum(9));
}
