use vstd::prelude::*;

use crate::address::{Address, ADDRESS_MAX};
use crate::data::Datum;
use crate::display::Display;
use crate::instruction::RawInstruction;
use crate::key::Keys;
use crate::memory::Memory;
use crate::register::GeneralRegister;

verus! {

/// What one step of the engine reported; made empty at the start of a step
/// and read at its end.
#[derive(Debug, Clone, PartialEq, Eq, Structural)]
pub struct FrameInfo {
    entered_busywait: bool,
    screen_modified: bool,
    buzzer_change_state: Option<bool>,
    wait_for_key: Option<GeneralRegister>,
}

impl FrameInfo {
    pub closed spec fn spec_entered_busywait(&self) -> bool {
        self.entered_busywait
    }

    pub closed spec fn spec_screen_modified(&self) -> bool {
        self.screen_modified
    }

    pub closed spec fn spec_buzzer_change_state(&self) -> Option<bool> {
        self.buzzer_change_state
    }

    pub closed spec fn spec_wait_for_key(&self) -> Option<GeneralRegister> {
        self.wait_for_key
    }

    /// The frame with nothing reported.
    pub open spec fn spec_is_empty(&self) -> bool {
        !self.spec_entered_busywait() && !self.spec_screen_modified()
            && self.spec_buzzer_change_state().is_none() && self.spec_wait_for_key().is_none()
    }

    /// A frame with nothing reported.
    pub fn empty() -> (r: Self)
        ensures
            r.spec_is_empty(),
    {
        FrameInfo {
            entered_busywait: false,
            screen_modified: false,
            buzzer_change_state: None,
            wait_for_key: None,
        }
    }

    /// Reports that the screen changed.
    pub fn modify_screen(&mut self)
        ensures
            final(self).spec_screen_modified(),
            final(self).spec_entered_busywait() == old(self).spec_entered_busywait(),
            final(self).spec_buzzer_change_state() == old(self).spec_buzzer_change_state(),
            final(self).spec_wait_for_key() == old(self).spec_wait_for_key(),
    {
        self.screen_modified = true;
    }

    /// Reports the buzzer's new state.
    pub fn set_buzzer(&mut self, to: bool)
        ensures
            final(self).spec_buzzer_change_state() == Some(to),
            final(self).spec_entered_busywait() == old(self).spec_entered_busywait(),
            final(self).spec_screen_modified() == old(self).spec_screen_modified(),
            final(self).spec_wait_for_key() == old(self).spec_wait_for_key(),
    {
        self.buzzer_change_state = Some(to);
    }

    /// Reports that the program jumped onto itself.
    pub fn busywait(&mut self)
        ensures
            final(self).spec_entered_busywait(),
            final(self).spec_screen_modified() == old(self).spec_screen_modified(),
            final(self).spec_buzzer_change_state() == old(self).spec_buzzer_change_state(),
            final(self).spec_wait_for_key() == old(self).spec_wait_for_key(),
    {
        self.entered_busywait = true;
    }

    /// Reports that the program waits for a key to store in `register`.
    pub fn wait_for_key_on(&mut self, register: GeneralRegister)
        ensures
            final(self).spec_wait_for_key() == Some(register),
            final(self).spec_entered_busywait() == old(self).spec_entered_busywait(),
            final(self).spec_screen_modified() == old(self).spec_screen_modified(),
            final(self).spec_buzzer_change_state() == old(self).spec_buzzer_change_state(),
    {
        self.wait_for_key = Some(register);
    }

    pub fn is_entered_busywait(&self) -> (r: bool)
        ensures
            r == self.spec_entered_busywait(),
    {
        self.entered_busywait
    }

    pub fn is_modify_screen(&self) -> (r: bool)
        ensures
            r == self.spec_screen_modified(),
    {
        self.screen_modified
    }

    pub fn is_buzzer_change_state(&self) -> (r: Option<bool>)
        ensures
            r == self.spec_buzzer_change_state(),
    {
        self.buzzer_change_state
    }

    pub fn is_wait_for_key(&self) -> (r: Option<GeneralRegister>)
        ensures
            r == self.spec_wait_for_key(),
    {
        self.wait_for_key
    }
}

/// Which timers one 60 Hz tick moved.
#[derive(Debug, Copy, Clone, PartialEq, Eq, Structural)]
pub struct TimerTick {
    delay: bool,
    sound: bool,
}

impl TimerTick {
    pub closed spec fn spec_delay(self) -> bool {
        self.delay
    }

    pub closed spec fn spec_sound(self) -> bool {
        self.sound
    }

    /// A tick that moved nothing.
    pub fn new() -> (r: Self)
        ensures
            !r.spec_delay(),
            !r.spec_sound(),
    {
        TimerTick { delay: false, sound: false }
    }

    /// Records whether the delay timer moved.
    pub fn delay(&mut self, decremented: bool)
        ensures
            final(self).spec_delay() == (old(self).spec_delay() || decremented),
            final(self).spec_sound() == old(self).spec_sound(),
    {
        if decremented {
            self.delay = true;
        }
    }

    /// Records whether the sound timer moved.
    pub fn sound(&mut self, decremented: bool)
        ensures
            final(self).spec_sound() == (old(self).spec_sound() || decremented),
            final(self).spec_delay() == old(self).spec_delay(),
    {
        if decremented {
            self.sound = true;
        }
    }

    /// The buzzer sounds while the sound timer runs.
    pub fn buzzer_active(&self) -> (r: bool)
        ensures
            r == self.spec_sound(),
    {
        self.sound
    }
}

/// The control state of the interpreter.
#[derive(Debug, Copy, Clone, PartialEq, Eq, Structural)]
pub enum InterpreterState {
    /// Executing instructions.
    Normal,
    /// Reserved; never entered.
    Held,
    /// Waiting for a single key press, to be stored in the register.
    WaitForKey(GeneralRegister),
    /// Stopped on a jump to itself.
    BusyWaiting,
}

/// A condition under which a program cannot go on: it breaks the machine's
/// limits.
#[derive(Debug, Copy, Clone, PartialEq, Eq, Structural)]
pub enum ExecutionFault {
    /// A call with sixteen return addresses on the stack already.
    StackOverflow,
    /// A return with no return address on the stack.
    StackUnderflow,
    /// The fetched bytes are no instruction.
    InvalidInstruction(RawInstruction),
    /// An address past the end of the address space was needed.
    AddressOverflow,
    /// A register held no hexadecimal digit where one was needed.
    InvalidDigit,
    /// The random source failed.
    RandomSourceFailed,
}

/// The value of a timer one tick later: one less, but never below zero.
pub open spec fn tick_down(t: u8) -> u8 {
    if t > 0 {
        (t - 1) as u8
    } else {
        0
    }
}

/// `b` has the registers of `a`.
pub open spec fn keeps_registers<I: ControlledInterpreter>(a: I, b: I) -> bool {
    forall|r: GeneralRegister| #[trigger] b.spec_register(r) == a.spec_register(r)
}

/// `b` has the timers of `a`.
pub open spec fn keeps_timers<I: ControlledInterpreter>(a: I, b: I) -> bool {
    b.spec_delay_timer() == a.spec_delay_timer() && b.spec_sound_timer() == a.spec_sound_timer()
}

/// `b` has the display, memory, stack, program counter and index register
/// of `a`.
pub open spec fn keeps_machine<I: ControlledInterpreter>(a: I, b: I) -> bool {
    &&& b.spec_display() == a.spec_display()
    &&& b.spec_memory() == a.spec_memory()
    &&& b.spec_stack() == a.spec_stack()
    &&& b.spec_pc() == a.spec_pc()
    &&& b.spec_i() == a.spec_i()
}

/// What the timer and state wrapper needs of an execution engine.
pub trait ControlledInterpreter: Sized {
    /// The engine's internal consistency.
    spec fn wf(&self) -> bool;

    spec fn spec_register(&self, register: GeneralRegister) -> u8;

    spec fn spec_delay_timer(&self) -> u8;

    spec fn spec_sound_timer(&self) -> u8;

    /// The pixels of the display, row by row.
    spec fn spec_display(&self) -> Seq<bool>;

    spec fn spec_memory(&self) -> Seq<Datum>;

    spec fn spec_stack(&self) -> Seq<Address>;

    spec fn spec_pc(&self) -> Address;

    spec fn spec_i(&self) -> u16;

    /// What one step of the engine may do: from `self` with `frame` to
    /// `after` with `frame_after`, returning `r`.
    spec fn spec_stepped(
        &self,
        after: Self,
        frame: FrameInfo,
        frame_after: FrameInfo,
        keys: Keys,
        r: Result<(), ExecutionFault>,
    ) -> bool;

    /// Fetches, decodes and executes one instruction, reporting into `frame`.
    /// A fault means the program broke the machine's limits: it ends the
    /// run, and the caller must not step again.
    fn step(&mut self, keys: Keys, frame: &mut FrameInfo) -> (r: Result<(), ExecutionFault>)
        requires
            old(self).wf(),
        ensures
            final(self).wf(),
            old(self).spec_stepped(*final(self), *old(frame), *final(frame), keys, r),
    ;

    fn display(&self) -> (r: &Display)
        requires
            self.wf(),
        ensures
            r.wf(),
            r@ == self.spec_display(),
    ;

    fn delay_timer_register(&self) -> (r: Datum)
        ensures
            r.0 == self.spec_delay_timer(),
    ;

    fn set_delay_timer_register(&mut self, to: Datum)
        requires
            old(self).wf(),
        ensures
            final(self).wf(),
            final(self).spec_delay_timer() == to.0,
            final(self).spec_sound_timer() == old(self).spec_sound_timer(),
            forall|r: GeneralRegister| #[trigger]
                final(self).spec_register(r) == old(self).spec_register(r),
            final(self).spec_display() == old(self).spec_display(),
            final(self).spec_memory() == old(self).spec_memory(),
            final(self).spec_stack() == old(self).spec_stack(),
            final(self).spec_pc() == old(self).spec_pc(),
            final(self).spec_i() == old(self).spec_i(),
    ;

    fn sound_timer_register(&self) -> (r: Datum)
        ensures
            r.0 == self.spec_sound_timer(),
    ;

    fn set_sound_timer_register(&mut self, to: Datum)
        requires
            old(self).wf(),
        ensures
            final(self).wf(),
            final(self).spec_sound_timer() == to.0,
            final(self).spec_delay_timer() == old(self).spec_delay_timer(),
            forall|r: GeneralRegister| #[trigger]
                final(self).spec_register(r) == old(self).spec_register(r),
            final(self).spec_display() == old(self).spec_display(),
            final(self).spec_memory() == old(self).spec_memory(),
            final(self).spec_stack() == old(self).spec_stack(),
            final(self).spec_pc() == old(self).spec_pc(),
            final(self).spec_i() == old(self).spec_i(),
    ;

    fn register(&self, register: GeneralRegister) -> (r: Datum)
        requires
            self.wf(),
        ensures
            r.0 == self.spec_register(register),
    ;

    fn set_register(&mut self, register: GeneralRegister, datum: Datum)
        requires
            old(self).wf(),
        ensures
            final(self).wf(),
            final(self).spec_register(register) == datum.0,
            forall|r: GeneralRegister|
                r != register ==> #[trigger] final(self).spec_register(r) == old(
                    self,
                ).spec_register(r),
            final(self).spec_delay_timer() == old(self).spec_delay_timer(),
            final(self).spec_sound_timer() == old(self).spec_sound_timer(),
            final(self).spec_display() == old(self).spec_display(),
            final(self).spec_memory() == old(self).spec_memory(),
            final(self).spec_stack() == old(self).spec_stack(),
            final(self).spec_pc() == old(self).spec_pc(),
            final(self).spec_i() == old(self).spec_i(),
    ;

    /// The value of a register.
    fn get_register(&self, register: GeneralRegister) -> (r: Datum)
        requires
            self.wf(),
        ensures
            r.0 == self.spec_register(register),
    {
        self.register(register)
    }

    fn get_i(&self) -> (r: u16)
        ensures
            r == self.spec_i(),
    ;

    fn set_i(&mut self, to: u16)
        requires
            old(self).wf(),
        ensures
            final(self).wf(),
            final(self).spec_i() == to,
            forall|r: GeneralRegister| #[trigger]
                final(self).spec_register(r) == old(self).spec_register(r),
            final(self).spec_delay_timer() == old(self).spec_delay_timer(),
            final(self).spec_sound_timer() == old(self).spec_sound_timer(),
            final(self).spec_display() == old(self).spec_display(),
            final(self).spec_memory() == old(self).spec_memory(),
            final(self).spec_stack() == old(self).spec_stack(),
            final(self).spec_pc() == old(self).spec_pc(),
    ;

    fn stack(&self) -> (r: &Vec<Address>)
        ensures
            r@ == self.spec_stack(),
    ;

    /// Pushes a return address; with sixteen addresses on the stack already
    /// this is a fault that ends the run, and nothing changes.
    fn stack_push(&mut self, addr: Address) -> (r: Result<(), ExecutionFault>)
        requires
            old(self).wf(),
        ensures
            final(self).wf(),
            old(self).spec_stack().len() >= 16 ==> r == Err::<(), ExecutionFault>(
                ExecutionFault::StackOverflow,
            ) && final(self).spec_stack() == old(self).spec_stack(),
            old(self).spec_stack().len() < 16 ==> r is Ok && final(self).spec_stack() == old(
                self,
            ).spec_stack().push(addr),
            forall|r: GeneralRegister| #[trigger]
                final(self).spec_register(r) == old(self).spec_register(r),
            final(self).spec_delay_timer() == old(self).spec_delay_timer(),
            final(self).spec_sound_timer() == old(self).spec_sound_timer(),
            final(self).spec_display() == old(self).spec_display(),
            final(self).spec_memory() == old(self).spec_memory(),
            final(self).spec_pc() == old(self).spec_pc(),
            final(self).spec_i() == old(self).spec_i(),
    ;

    /// Pops the latest return address; an empty stack is a fault that ends
    /// the run, and nothing changes.
    fn stack_pop(&mut self) -> (r: Result<Address, ExecutionFault>)
        requires
            old(self).wf(),
        ensures
            final(self).wf(),
            old(self).spec_stack().len() == 0 ==> r == Err::<Address, ExecutionFault>(
                ExecutionFault::StackUnderflow,
            ) && final(self).spec_stack() == old(self).spec_stack(),
            old(self).spec_stack().len() > 0 ==> r == Ok::<Address, ExecutionFault>(
                old(self).spec_stack().last(),
            ) && final(self).spec_stack() == old(self).spec_stack().drop_last(),
            forall|r: GeneralRegister| #[trigger]
                final(self).spec_register(r) == old(self).spec_register(r),
            final(self).spec_delay_timer() == old(self).spec_delay_timer(),
            final(self).spec_sound_timer() == old(self).spec_sound_timer(),
            final(self).spec_display() == old(self).spec_display(),
            final(self).spec_memory() == old(self).spec_memory(),
            final(self).spec_pc() == old(self).spec_pc(),
            final(self).spec_i() == old(self).spec_i(),
    ;

    fn memory(&self) -> (r: &Memory)
        ensures
            r@ == self.spec_memory(),
    ;

    fn program_counter(&self) -> (r: Address)
        ensures
            r == self.spec_pc(),
    ;

    fn set_program_counter(&mut self, to: Address)
        requires
            old(self).wf(),
        ensures
            final(self).wf(),
            final(self).spec_pc() == to,
            forall|r: GeneralRegister| #[trigger]
                final(self).spec_register(r) == old(self).spec_register(r),
            final(self).spec_delay_timer() == old(self).spec_delay_timer(),
            final(self).spec_sound_timer() == old(self).spec_sound_timer(),
            final(self).spec_display() == old(self).spec_display(),
            final(self).spec_memory() == old(self).spec_memory(),
            final(self).spec_stack() == old(self).spec_stack(),
            final(self).spec_i() == old(self).spec_i(),
    ;

    /// Moves the program counter to the next address; the last address has
    /// none.
    fn increment_program_counter(&mut self)
        requires
            old(self).wf(),
            old(self).spec_pc()@ < ADDRESS_MAX,
        ensures
            final(self).wf(),
            final(self).spec_pc()@ == old(self).spec_pc()@ + 1,
            forall|r: GeneralRegister| #[trigger]
                final(self).spec_register(r) == old(self).spec_register(r),
            final(self).spec_delay_timer() == old(self).spec_delay_timer(),
            final(self).spec_sound_timer() == old(self).spec_sound_timer(),
            final(self).spec_display() == old(self).spec_display(),
            final(self).spec_memory() == old(self).spec_memory(),
            final(self).spec_stack() == old(self).spec_stack(),
            final(self).spec_i() == old(self).spec_i(),
    {
        let mut pc = self.program_counter();
        pc.increment();
        self.set_program_counter(pc);
    }

    /// Moves both timers one step towards zero; the tick tells which moved.
    fn timer_tick_60hz(&mut self) -> (tick: TimerTick)
        requires
            old(self).wf(),
        ensures
            final(self).wf(),
            final(self).spec_delay_timer() == tick_down(old(self).spec_delay_timer()),
            final(self).spec_sound_timer() == tick_down(old(self).spec_sound_timer()),
            tick.spec_delay() == (old(self).spec_delay_timer() > 0),
            tick.spec_sound() == (old(self).spec_sound_timer() > 0),
            forall|r: GeneralRegister| #[trigger]
                final(self).spec_register(r) == old(self).spec_register(r),
            final(self).spec_display() == old(self).spec_display(),
            final(self).spec_memory() == old(self).spec_memory(),
            final(self).spec_stack() == old(self).spec_stack(),
            final(self).spec_pc() == old(self).spec_pc(),
            final(self).spec_i() == old(self).spec_i(),
    {
        let mut tick = TimerTick::new();
        let mut delay = self.delay_timer_register();
        let moved = delay.towards_zero();
        self.set_delay_timer_register(delay);
        tick.delay(moved);
        let mut sound = self.sound_timer_register();
        let moved = sound.towards_zero();
        self.set_sound_timer_register(sound);
        tick.sound(moved);
        tick
    }
}

} // verus!
