use vstd::prelude::*;

use crate::address::{Address, ADDRESS_MAX, NUMBER_OF_ADDRESSES};
use crate::control::{ControlledInterpreter, ExecutionFault, FrameInfo};
use crate::data::Datum;
use crate::display::{Display, ScreenModification};
use crate::instruction::{Instruction, RawInstruction};
use crate::key::{lemma_and_single, Keys};
use crate::machine::{next_pc, reports, spec_execute, spec_fetch, spec_step, Effects, Machine, STACK_DEPTH};
use crate::memory::{memory_image, Memory, FONT_START_ADDR, ROM};
use crate::register::GeneralRegister;
use rand::rngs::OsRng;

verus! {

#[verifier::external_type_specification]
#[verifier::external_body]
pub struct ExOsRng(OsRng);

/// Relies on rand's `RngCore::try_fill_bytes` for `OsRng`: one byte from the
/// operating system's random source, or nothing where the source fails.
#[verifier::external_body]
fn random_byte(rng: &mut OsRng) -> (r: Option<u8>) {
    let mut buf = [0u8; 1];
    match rand::RngCore::try_fill_bytes(rng, &mut buf) {
        Ok(()) => Some(buf[0]),
        Err(_) => None,
    }
}

/// Relies on rand's `OsRng`: a handle on the operating system's random
/// source, which holds no state.
#[verifier::external_body]
fn os_rng() -> (r: OsRng) {
    OsRng
}

/// The execution engine: registers, stack, memory, display and timers.
#[derive(Debug)]
pub struct Chip8Interpreter {
    program_counter: Address,
    memory: Memory,
    display: Display,
    general_registers: Vec<Datum>,
    register_i: u16,
    stack: Vec<Address>,
    delay_timer: Datum,
    sound_timer: Datum,
    rng: OsRng,
}

/// `ensures` shared by the executors: the state and the frame follow
/// `spec_execute`, and a fault changes nothing.
pub open spec fn executes(
    before: Machine,
    after: Machine,
    frame_before: FrameInfo,
    frame_after: FrameInfo,
    instruction: Instruction,
    keys: Keys,
    random: u8,
    r: Result<(), ExecutionFault>,
) -> bool {
    match spec_execute(before, instruction, keys, random) {
        Ok((m, e)) => r is Ok && after == m && reports(frame_before, frame_after, e),
        Err(f) => r == Err::<(), ExecutionFault>(f) && after == before && frame_after
            == frame_before,
    }
}

/// `ensures` of a whole step: the state and the frame follow `spec_step`,
/// and a fault changes nothing.
pub open spec fn steps(
    before: Machine,
    after: Machine,
    frame_before: FrameInfo,
    frame_after: FrameInfo,
    keys: Keys,
    random: u8,
    r: Result<(), ExecutionFault>,
) -> bool {
    match spec_step(before, keys, random) {
        Ok((m, e)) => r is Ok && after == m && reports(frame_before, frame_after, e),
        Err(f) => r == Err::<(), ExecutionFault>(f) && after == before && frame_after
            == frame_before,
    }
}

impl Chip8Interpreter {
    pub closed spec fn view(&self) -> Machine {
        Machine {
            pc: self.program_counter,
            memory: self.memory@,
            display: self.display@,
            registers: self.general_registers@,
            i: self.register_i,
            stack: self.stack@,
            delay: self.delay_timer,
            sound: self.sound_timer,
        }
    }

    pub open spec fn wf_engine(&self) -> bool {
        self@.wf()
    }

    /// An engine running `memory`, from the program's start, with every
    /// register, timer and pixel at zero.
    pub fn new_from_memory(memory: Memory) -> (r: Self)
        requires
            memory.wf(),
        ensures
            r.wf_engine(),
            r@ == (Machine {
                pc: Address::spec_new(0x200),
                memory: memory@,
                display: Seq::new(crate::display::DISPLAY_PIXELS as nat, |p: int| false),
                registers: Seq::new(16, |k: int| Datum(0)),
                i: 0,
                stack: Seq::empty(),
                delay: Datum(0),
                sound: Datum(0),
            }),
    {
        let mut registers: Vec<Datum> = Vec::new();
        let mut k: usize = 0;
        while k < 16
            invariant
                k <= 16,
                registers@ == Seq::new(k as nat, |j: int| Datum(0)),
            decreases 16 - k,
        {
            registers.push(Datum(0));
            k = k + 1;
        }
        let r = Chip8Interpreter {
            program_counter: Address::program_start(),
            memory,
            display: Display::blank(),
            general_registers: registers,
            register_i: 0,
            stack: Vec::new(),
            delay_timer: Datum(0),
            sound_timer: Datum(0),
            rng: os_rng(),
        };
        r
    }

    /// An engine running the program `rom`.
    pub fn new_from_rom(rom: ROM) -> (r: Self)
        requires
            rom.wf(),
        ensures
            r.wf_engine(),
            r@.memory == memory_image(rom@),
            r@.pc@ == 0x200,
            r@.stack.len() == 0,
    {
        proof {
            Address::lemma_spec_new(0x200);
        }
        Self::new_from_memory(rom.to_memory())
    }

    /// Executes one decoded instruction; the program counter must already
    /// point past it. `random` is the byte that `Random` uses.
    pub fn execute(&mut self, instruction: Instruction, keys: Keys, frame: &mut FrameInfo, random: u8) -> (r: Result<(), ExecutionFault>)
        requires
            old(self).wf_engine(),
            instruction.encodable(),
        ensures
            final(self).wf_engine(),
            executes(old(self)@, final(self)@, *old(frame), *final(frame), instruction, keys, random, r),
    {
        match instruction {
            Instruction::LoadRegByte(..) | Instruction::Add(..) | Instruction::CopyRegToReg { .. }
            | Instruction::Or { .. } | Instruction::And { .. } | Instruction::Xor { .. }
            | Instruction::AddReg { .. } | Instruction::Sub { .. } | Instruction::Shr(..)
            | Instruction::SubN { .. } | Instruction::Shl(..) | Instruction::Random(..)
            | Instruction::GetDelayTimer(..) => {
                let r = self.execute_alu(instruction, random);
                assert(spec_execute(old(self)@, instruction, keys, random) == Ok::<
                    (Machine, Effects),
                    ExecutionFault,
                >((self@, crate::machine::no_effects())));
                r
            },
            Instruction::LoadImmediate(..) | Instruction::DisplaySprite { .. }
            | Instruction::SetDelayTimer(..) | Instruction::SetSoundTimer(..)
            | Instruction::AddI(..) | Instruction::GetSprite(..) | Instruction::BCD(..)
            | Instruction::WriteMultiple(..) | Instruction::ReadMultiple(..) => {
                let r = self.execute_memory(instruction, frame);
                assert(executes(old(self)@, self@, *old(frame), *frame, instruction, keys, random, r));
                r
            },
            _ => {
                let r = self.execute_flow(instruction, keys, frame);
                assert(executes(old(self)@, self@, *old(frame), *frame, instruction, keys, random, r));
                r
            },
        }
    }

    /// Fetches the two bytes at the program counter, advancing it past them
    /// (wrapping past the last address to zero), decodes them and executes
    /// the instruction. A fault leaves the engine as it was; it means the
    /// program broke the machine's limits, and it ends the run.
    #[verifier::rlimit(60)]
    pub fn cycle(&mut self, keys: Keys, frame: &mut FrameInfo) -> (r: Result<(), ExecutionFault>)
        requires
            old(self).wf_engine(),
        ensures
            final(self).wf_engine(),
            r == Err::<(), ExecutionFault>(ExecutionFault::RandomSourceFailed) ==> final(self)@ == old(self)@ && *final(frame) == *old(frame),
            r != Err::<(), ExecutionFault>(ExecutionFault::RandomSourceFailed) ==> exists|random: u8| #[trigger] steps(old(self)@, final(self)@, *old(frame), *final(frame), keys, random, r),
            Instruction::spec_decode(spec_fetch(old(self)@).0) matches Some(i) && !(i is Random) ==> r != Err::<(), ExecutionFault>(ExecutionFault::RandomSourceFailed),
    {
        let start = self.program_counter;
        let first = self.memory.get(start);
        let p1 = Self::next_address(start);
        let second = self.memory.get(p1);
        let p2 = Self::next_address(p1);
        let raw = RawInstruction::from_raw_bytes([first.0, second.0]);
        let instruction = match Instruction::try_from_data(raw) {
            Ok(i) => i,
            Err(_) => {
                assert(steps(old(self)@, self@, *old(frame), *frame, keys, 0, Err(ExecutionFault::InvalidInstruction(raw))));
                return Err(ExecutionFault::InvalidInstruction(raw));
            },
        };
        proof {
            crate::instruction::lemma_decode_encode_decode(raw);
        }
        let random = if let Instruction::Random(..) = instruction {
            match random_byte(&mut self.rng) {
                Some(b) => b,
                None => return Err(ExecutionFault::RandomSourceFailed),
            }
        } else {
            0
        };
        let ghost before = self@;
        self.program_counter = p2;
        let r = self.execute(instruction, keys, frame, random);
        if r.is_err() {
            self.program_counter = start;
        }
        proof {
            assert(steps(before, self@, *old(frame), *frame, keys, random, r));
        }
        r
    }

    /// Pushes a return address; a full stack is a fault.
    fn push_return(&mut self, addr: Address) -> (r: Result<(), ExecutionFault>)
        requires
            old(self).wf_engine(),
        ensures
            final(self).wf_engine(),
            old(self)@.stack.len() >= STACK_DEPTH ==> r == Err::<(), ExecutionFault>(
                ExecutionFault::StackOverflow,
            ) && final(self)@ == old(self)@,
            old(self)@.stack.len() < STACK_DEPTH ==> r is Ok && final(self)@ == (Machine {
                stack: old(self)@.stack.push(addr),
                ..old(self)@
            }),
    {
        if self.stack.len() >= STACK_DEPTH {
            return Err(ExecutionFault::StackOverflow);
        }
        self.stack.push(addr);
        Ok(())
    }

    /// Pops the latest return address; an empty stack is a fault.
    fn pop_return(&mut self) -> (r: Result<Address, ExecutionFault>)
        requires
            old(self).wf_engine(),
        ensures
            final(self).wf_engine(),
            old(self)@.stack.len() == 0 ==> r == Err::<Address, ExecutionFault>(
                ExecutionFault::StackUnderflow,
            ) && final(self)@ == old(self)@,
            old(self)@.stack.len() > 0 ==> r == Ok::<Address, ExecutionFault>(old(self)@.stack.last())
                && final(self)@ == (Machine { stack: old(self)@.stack.drop_last(), ..old(self)@ }),
    {
        match self.stack.pop() {
            Some(addr) => Ok(addr),
            None => Err(ExecutionFault::StackUnderflow),
        }
    }

    fn next_address(at: Address) -> (r: Address)
        ensures
            r@ == next_pc(at@),
            r == Address::spec_new(next_pc(at@)),
    {
        let v = at.as_u16();
        if v >= ADDRESS_MAX {
            Address::zero()
        } else {
            Address::new(v + 1)
        }
    }

    fn get(&self, r: GeneralRegister) -> (d: Datum)
        requires
            self.wf_engine(),
        ensures
            d == self@.registers[r.spec_index() as int],
            d.0 == self@.reg(r),
    {
        self.general_registers[r.index()]
    }

    fn put(&mut self, r: GeneralRegister, d: Datum)
        requires
            old(self).wf_engine(),
        ensures
            final(self).wf_engine(),
            final(self)@ == old(self)@.with_reg(r, d.0),
    {
        self.general_registers.set(r.index(), d);
        proof {
            assert(self@.registers =~= old(self)@.with_reg(r, d.0).registers);
        }
    }

    fn skip_if(&mut self, cond: bool) -> (r: Result<(), ExecutionFault>)
        requires
            old(self).wf_engine(),
        ensures
            final(self).wf_engine(),
            match crate::machine::skip_if(old(self)@, cond) {
                Ok((m, e)) => r is Ok && final(self)@ == m && e == crate::machine::no_effects(),
                Err(f) => r == Err::<(), ExecutionFault>(f) && final(self)@ == old(self)@,
            },
    {
        if !cond {
            return Ok(());
        }
        let pc = self.program_counter.as_u16();
        if pc + 2 > ADDRESS_MAX {
            return Err(ExecutionFault::AddressOverflow);
        }
        self.program_counter = Address::new(pc + 2);
        Ok(())
    }

    fn execute_flow(&mut self, instruction: Instruction, keys: Keys, frame: &mut FrameInfo) -> (r:
        Result<(), ExecutionFault>)
        requires
            old(self).wf_engine(),
            instruction is Nop || instruction is ClearScreen || instruction is Return
                || instruction is Jump || instruction is Call || instruction is SkipIfEqual
                || instruction is SkipNotEqual || instruction is SkipRegistersEqual
                || instruction is SkipRegistersNotEqual || instruction is JumpRelative
                || instruction is SkipPressed || instruction is SkipNotPressed
                || instruction is WaitForKey,
        ensures
            final(self).wf_engine(),
            forall|random: u8|
                #[trigger] executes(
                    old(self)@,
                    final(self)@,
                    *old(frame),
                    *final(frame),
                    instruction,
                    keys,
                    random,
                    r,
                ),
    {
        match instruction {
            Instruction::ClearScreen => {
                self.display.clear();
                frame.modify_screen();
                Ok(())
            },
            Instruction::Return => {
                let pc = self.pop_return()?;
                self.program_counter = pc;
                Ok(())
            },
            Instruction::Jump(addr) => {
                if (addr.as_u16() + 2) % 4096 == self.program_counter.as_u16() {
                    frame.busywait();
                }
                self.program_counter = addr;
                proof {
                    Address::lemma_spec_new(addr@);
                    Address::lemma_view_injective(addr, Address::spec_new(addr@));
                }
                Ok(())
            },
            Instruction::Call(subroutine) => {
                self.push_return(self.program_counter)?;
                self.program_counter = subroutine;
                Ok(())
            },
            Instruction::SkipIfEqual(x, byte) => {
                let c = self.get(x).0 == byte;
                self.skip_if(c)
            },
            Instruction::SkipNotEqual(x, byte) => {
                let c = self.get(x).0 != byte;
                self.skip_if(c)
            },
            Instruction::SkipRegistersEqual(x, y) => {
                let c = self.get(x).0 == self.get(y).0;
                self.skip_if(c)
            },
            Instruction::SkipRegistersNotEqual(x, y) => {
                let c = self.get(x).0 != self.get(y).0;
                self.skip_if(c)
            },
            Instruction::JumpRelative(rel) => {
                let target = self.get(GeneralRegister::V0).0 as u16 + rel.as_u16();
                if target > ADDRESS_MAX {
                    return Err(ExecutionFault::AddressOverflow);
                }
                if (target + 2) % 4096 == self.program_counter.as_u16() {
                    frame.busywait();
                }
                self.program_counter = Address::new(target);
                Ok(())
            },
            Instruction::SkipPressed(x) | Instruction::SkipNotPressed(x) => {
                let v = self.get(x);
                if v.0 >= 16 {
                    return Err(ExecutionFault::InvalidDigit);
                }
                let key = Keys::from_datum(v);
                let down = keys.bitand(key).pressed();
                proof {
                    lemma_and_single(keys@, v.0 as u16);
                }
                if let Instruction::SkipPressed(_) = instruction {
                    self.skip_if(down)
                } else {
                    self.skip_if(!down)
                }
            },
            Instruction::WaitForKey(x) => {
                frame.wait_for_key_on(x);
                Ok(())
            },
            _ => Ok(()),
        }
    }

    fn execute_memory(&mut self, instruction: Instruction, frame: &mut FrameInfo) -> (r: Result<
        (),
        ExecutionFault,
    >)
        requires
            old(self).wf_engine(),
            instruction.encodable(),
            instruction is LoadImmediate || instruction is DisplaySprite
                || instruction is SetDelayTimer || instruction is SetSoundTimer
                || instruction is AddI || instruction is GetSprite || instruction is BCD
                || instruction is WriteMultiple || instruction is ReadMultiple,
        ensures
            final(self).wf_engine(),
            forall|keys: Keys, random: u8|
                #[trigger] executes(
                    old(self)@,
                    final(self)@,
                    *old(frame),
                    *final(frame),
                    instruction,
                    keys,
                    random,
                    r,
                ),
    {
        let i = self.register_i;
        match instruction {
            Instruction::LoadImmediate(value) => {
                self.register_i = value.as_u16();
            },
            Instruction::DisplaySprite { x, y, number_of_bytes } => {
                if i > ADDRESS_MAX || i as usize + number_of_bytes as usize > NUMBER_OF_ADDRESSES {
                    return Err(ExecutionFault::AddressOverflow);
                }
                let data = self.memory.substring(Address::new(i), number_of_bytes);
                let m = self.display.sprite(self.get(x), self.get(y), &data);
                self.put(GeneralRegister::VF, Datum(if m == ScreenModification::Clears { 1 } else { 0 }));
                frame.modify_screen();
            },
            Instruction::SetDelayTimer(x) => {
                self.delay_timer = self.get(x);
            },
            Instruction::SetSoundTimer(x) => {
                self.sound_timer = self.get(x);
            },
            Instruction::AddI(x) => {
                self.register_i = ((i as u32 + self.get(x).0 as u32) % 65536) as u16;
            },
            Instruction::GetSprite(x) => {
                let v = self.get(x).0;
                if v >= 16 {
                    return Err(ExecutionFault::InvalidDigit);
                }
                self.register_i = FONT_START_ADDR as u16 + v as u16 * 5;
            },
            Instruction::BCD(x) => {
                if i as u32 + 2 > ADDRESS_MAX as u32 {
                    return Err(ExecutionFault::AddressOverflow);
                }
                let v = self.get(x).0;
                self.memory.set(Address::new(i), Datum(v / 100));
                self.memory.set(Address::new(i + 1), Datum((v / 10) % 10));
                self.memory.set(Address::new(i + 2), Datum(v % 10));
            },
            Instruction::WriteMultiple(until) => {
                let last = until.index();
                if i as usize + last > ADDRESS_MAX as usize {
                    return Err(ExecutionFault::AddressOverflow);
                }
                let ghost before = self@;
                proof {
                    assert(before.memory =~= Seq::new(
                        before.memory.len(),
                        |a: int|
                            if i <= a < i + 0 {
                                before.registers[a - i]
                            } else {
                                before.memory[a]
                            },
                    ));
                }
                let mut k: usize = 0;
                while k <= last
                    invariant
                        before.wf(),
                        self.wf_engine(),
                        last == until.spec_index(),
                        i == before.i,
                        i + last <= ADDRESS_MAX,
                        k <= last + 1,
                        self@ == (Machine {
                            memory: Seq::new(
                                before.memory.len(),
                                |a: int|
                                    if i <= a < i + k {
                                        before.registers[a - i]
                                    } else {
                                        before.memory[a]
                                    },
                            ),
                            ..before
                        }),
                    decreases last + 1 - k,
                {
                    let d = self.general_registers[k];
                    self.memory.set(Address::new(i + k as u16), d);
                    proof {
                        assert(self@.memory =~= Seq::new(
                            before.memory.len(),
                            |a: int|
                                if i <= a < i + k + 1 {
                                    before.registers[a - i]
                                } else {
                                    before.memory[a]
                                },
                        ));
                    }
                    k = k + 1;
                }
                proof {
                    assert(self@.memory =~= Seq::new(
                        before.memory.len(),
                        |a: int|
                            if before.i <= a <= before.i + until.spec_index() {
                                before.registers[a - before.i]
                            } else {
                                before.memory[a]
                            },
                    ));
                }
            },
            Instruction::ReadMultiple(until) => {
                let last = until.index();
                if i as usize + last > ADDRESS_MAX as usize {
                    return Err(ExecutionFault::AddressOverflow);
                }
                let ghost before = self@;
                proof {
                    assert(before.registers =~= Seq::new(
                        before.registers.len(),
                        |j: int|
                            if j < 0 {
                                before.memory[i + j]
                            } else {
                                before.registers[j]
                            },
                    ));
                }
                let mut k: usize = 0;
                while k <= last
                    invariant
                        before.wf(),
                        self.wf_engine(),
                        last == until.spec_index(),
                        i == before.i,
                        i + last <= ADDRESS_MAX,
                        k <= last + 1,
                        self@ == (Machine {
                            registers: Seq::new(
                                before.registers.len(),
                                |j: int|
                                    if j < k {
                                        before.memory[i + j]
                                    } else {
                                        before.registers[j]
                                    },
                            ),
                            ..before
                        }),
                    decreases last + 1 - k,
                {
                    let d = self.memory.get(Address::new(i + k as u16));
                    self.general_registers.set(k, d);
                    proof {
                        assert(self@.registers =~= Seq::new(
                            before.registers.len(),
                            |j: int|
                                if j < k + 1 {
                                    before.memory[i + j]
                                } else {
                                    before.registers[j]
                                },
                        ));
                    }
                    k = k + 1;
                }
                proof {
                    assert(self@.registers =~= Seq::new(
                        before.registers.len(),
                        |j: int|
                            if j <= until.spec_index() {
                                before.memory[before.i + j]
                            } else {
                                before.registers[j]
                            },
                    ));
                }
            },
            _ => {},
        }
        Ok(())
    }

    fn execute_alu(&mut self, instruction: Instruction, random: u8) -> (r: Result<(), ExecutionFault>)
        requires
            old(self).wf_engine(),
            instruction is LoadRegByte || instruction is Add || instruction is CopyRegToReg
                || instruction is Or || instruction is And || instruction is Xor
                || instruction is AddReg || instruction is Sub || instruction is Shr
                || instruction is SubN || instruction is Shl || instruction is Random
                || instruction is GetDelayTimer,
        ensures
            final(self).wf_engine(),
            r is Ok,
            forall|keys: Keys|
                #[trigger] spec_execute(old(self)@, instruction, keys, random) == Ok::<
                    (Machine, Effects),
                    ExecutionFault,
                >((final(self)@, crate::machine::no_effects())),
    {
        let vf = GeneralRegister::VF;
        match instruction {
            Instruction::LoadRegByte(x, b) => self.put(x, Datum(b)),
            Instruction::Add(x, b) => {
                let v = self.get(x).0 as u16;
                self.put(x, Datum(((v + b as u16) % 256) as u8));
            },
            Instruction::CopyRegToReg { x, y } => {
                let v = self.get(y);
                self.put(x, v);
            },
            Instruction::Or { x, y } => {
                let v = self.get(x).bitor(self.get(y));
                self.put(x, v);
            },
            Instruction::And { x, y } => {
                let v = self.get(x).bitand(self.get(y));
                self.put(x, v);
            },
            Instruction::Xor { x, y } => {
                let v = self.get(x).bitxor(self.get(y));
                self.put(x, v);
            },
            Instruction::AddReg { x, y } => {
                let sum = self.get(x).0 as u16 + self.get(y).0 as u16;
                self.put(vf, Datum(if sum > 255 { 1 } else { 0 }));
                self.put(x, Datum((sum % 256) as u8));
            },
            Instruction::Sub { x, y } => {
                let a = self.get(x).0;
                let b = self.get(y).0;
                self.put(vf, Datum(if a > b { 1 } else { 0 }));
                self.put(x, Datum(((a as u16 + 256 - b as u16) % 256) as u8));
            },
            Instruction::Shr(x) => {
                let v = self.get(x).0;
                self.put(vf, Datum(if v % 2 == 1 { 1 } else { 0 }));
                self.put(x, Datum(v / 2));
            },
            Instruction::SubN { x, y } => {
                let a = self.get(x).0;
                let b = self.get(y).0;
                self.put(vf, Datum(if b > a { 1 } else { 0 }));
                self.put(x, Datum(((b as u16 + 256 - a as u16) % 256) as u8));
            },
            Instruction::Shl(x) => {
                let v = self.get(x).0;
                self.put(vf, Datum(if v >= 128 { 1 } else { 0 }));
                self.put(x, Datum(((v as u16 * 2) % 256) as u8));
            },
            Instruction::Random(x, b) => self.put(x, Datum(random & b)),
            Instruction::GetDelayTimer(x) => {
                let d = self.delay_timer;
                self.put(x, d);
            },
            _ => {},
        }
        Ok(())
    }
}

/// What `cycle` promises of one step.
pub open spec fn cycled(
    before: Machine,
    after: Machine,
    frame: FrameInfo,
    frame_after: FrameInfo,
    keys: Keys,
    r: Result<(), ExecutionFault>,
) -> bool {
    &&& r == Err::<(), ExecutionFault>(ExecutionFault::RandomSourceFailed) ==> after == before
        && frame_after == frame
    &&& r != Err::<(), ExecutionFault>(ExecutionFault::RandomSourceFailed) ==> exists|random: u8|
        #[trigger] steps(before, after, frame, frame_after, keys, random, r)
    &&& (Instruction::spec_decode(spec_fetch(before).0) matches Some(i) && !(i is Random)) ==> r
        != Err::<(), ExecutionFault>(ExecutionFault::RandomSourceFailed)
}

impl ControlledInterpreter for Chip8Interpreter {
    open spec fn wf(&self) -> bool {
        self.wf_engine()
    }

    open spec fn spec_register(&self, register: GeneralRegister) -> u8 {
        self@.reg(register)
    }

    open spec fn spec_delay_timer(&self) -> u8 {
        self@.delay.0
    }

    open spec fn spec_sound_timer(&self) -> u8 {
        self@.sound.0
    }

    open spec fn spec_display(&self) -> Seq<bool> {
        self@.display
    }

    open spec fn spec_memory(&self) -> Seq<Datum> {
        self@.memory
    }

    open spec fn spec_stack(&self) -> Seq<Address> {
        self@.stack
    }

    open spec fn spec_pc(&self) -> Address {
        self@.pc
    }

    open spec fn spec_i(&self) -> u16 {
        self@.i
    }

    open spec fn spec_stepped(
        &self,
        after: Self,
        frame: FrameInfo,
        frame_after: FrameInfo,
        keys: Keys,
        r: Result<(), ExecutionFault>,
    ) -> bool {
        cycled(self@, after@, frame, frame_after, keys, r)
    }

    fn step(&mut self, keys: Keys, frame: &mut FrameInfo) -> (r: Result<(), ExecutionFault>) {
        self.cycle(keys, frame)
    }

    fn display(&self) -> (r: &Display) {
        &self.display
    }

    fn delay_timer_register(&self) -> (r: Datum) {
        self.delay_timer
    }

    fn set_delay_timer_register(&mut self, to: Datum) {
        self.delay_timer = to;
    }

    fn sound_timer_register(&self) -> (r: Datum) {
        self.sound_timer
    }

    fn set_sound_timer_register(&mut self, to: Datum) {
        self.sound_timer = to;
    }

    fn register(&self, register: GeneralRegister) -> (r: Datum) {
        self.get(register)
    }

    fn set_register(&mut self, register: GeneralRegister, datum: Datum) {
        self.put(register, datum);
        proof {
            assert forall|r: GeneralRegister| r != register implies #[trigger] self@.reg(r) == old(
                self,
            )@.reg(r) by {
                r.lemma_index_round_trip();
                register.lemma_index_round_trip();
            }
        }
    }

    fn get_i(&self) -> (r: u16) {
        self.register_i
    }

    fn set_i(&mut self, to: u16) {
        self.register_i = to;
    }

    fn stack(&self) -> (r: &Vec<Address>) {
        &self.stack
    }

    fn stack_push(&mut self, addr: Address) -> (r: Result<(), ExecutionFault>) {
        self.push_return(addr)
    }

    fn stack_pop(&mut self) -> (r: Result<Address, ExecutionFault>) {
        self.pop_return()
    }

    fn memory(&self) -> (r: &Memory) {
        &self.memory
    }

    fn program_counter(&self) -> (r: Address) {
        self.program_counter
    }

    fn set_program_counter(&mut self, to: Address) {
        self.program_counter = to;
    }
}

} // verus!
