use vstd::prelude::*;

use crate::address::{Address, ADDRESS_MAX, NUMBER_OF_ADDRESSES};
use crate::control::{ExecutionFault, FrameInfo};
use crate::data::Datum;
use crate::display::{spec_collides, spec_draw, DISPLAY_PIXELS};
use crate::instruction::{Instruction, RawInstruction};
use crate::key::Keys;
use crate::memory::FONT_START_ADDR;
use crate::register::GeneralRegister;

verus! {

/// The state of the machine, as the instruction semantics see it.
pub struct Machine {
    pub pc: Address,
    pub memory: Seq<Datum>,
    pub display: Seq<bool>,
    pub registers: Seq<Datum>,
    pub i: u16,
    pub stack: Seq<Address>,
    pub delay: Datum,
    pub sound: Datum,
}

/// What an instruction reports besides its change of state.
pub struct Effects {
    pub screen: bool,
    pub busywait: bool,
    pub wait_for_key: Option<GeneralRegister>,
}

/// The deepest the call stack may grow.
pub const STACK_DEPTH: usize = 16;

impl Machine {
    pub open spec fn wf(self) -> bool {
        &&& self.memory.len() == NUMBER_OF_ADDRESSES
        &&& self.display.len() == DISPLAY_PIXELS
        &&& self.registers.len() == 16
        &&& self.stack.len() <= STACK_DEPTH
    }

    pub open spec fn reg(self, r: GeneralRegister) -> u8 {
        self.registers[r.spec_index() as int].0
    }

    pub open spec fn with_reg(self, r: GeneralRegister, v: u8) -> Machine {
        Machine { registers: self.registers.update(r.spec_index() as int, Datum(v)), ..self }
    }

    /// Sets the flag register, then `r`.
    pub open spec fn with_flag_then(self, flag: bool, r: GeneralRegister, v: u8) -> Machine {
        self.with_reg(GeneralRegister::VF, if flag { 1 } else { 0 }).with_reg(r, v)
    }
}

pub open spec fn no_effects() -> Effects {
    Effects { screen: false, busywait: false, wait_for_key: None }
}

pub open spec fn only(m: Machine) -> Result<(Machine, Effects), ExecutionFault> {
    Ok((m, no_effects()))
}

/// Skips the next instruction where `cond` holds; running past the last
/// address is a fault.
pub open spec fn skip_if(m: Machine, cond: bool) -> Result<(Machine, Effects), ExecutionFault> {
    if !cond {
        only(m)
    } else if m.pc@ + 2 > ADDRESS_MAX {
        Err(ExecutionFault::AddressOverflow)
    } else {
        only(Machine { pc: Address::spec_new((m.pc@ + 2) as u16), ..m })
    }
}

/// A jump to `target`; one onto the instruction itself (two bytes before the
/// program counter, wrapping round the address space) is reported as a busy
/// wait.
pub open spec fn jump_to(m: Machine, target: u16) -> Result<(Machine, Effects), ExecutionFault> {
    Ok(
        (
            Machine { pc: Address::spec_new(target), ..m },
            Effects { busywait: (target + 2) % (NUMBER_OF_ADDRESSES as int) == m.pc@, ..no_effects() },
        ),
    )
}

pub open spec fn bcd_digits(v: u8) -> (u8, u8, u8) {
    (v / 100, (v / 10) % 10, v % 10)
}

/// The effect of one instruction on `m`, whose program counter already
/// points past it; `random` is the byte drawn for `Random`.
pub open spec fn spec_execute(m: Machine, instruction: Instruction, keys: Keys, random: u8) -> Result<
    (Machine, Effects),
    ExecutionFault,
> {
    match instruction {
        Instruction::Nop => only(m),
        Instruction::ClearScreen => Ok(
            (
                Machine { display: Seq::new(DISPLAY_PIXELS as nat, |p: int| false), ..m },
                Effects { screen: true, ..no_effects() },
            ),
        ),
        Instruction::Return => if m.stack.len() == 0 {
            Err(ExecutionFault::StackUnderflow)
        } else {
            only(Machine { pc: m.stack.last(), stack: m.stack.drop_last(), ..m })
        },
        Instruction::Jump(a) => jump_to(m, a@),
        Instruction::Call(a) => if m.stack.len() >= STACK_DEPTH {
            Err(ExecutionFault::StackOverflow)
        } else {
            only(Machine { pc: a, stack: m.stack.push(m.pc), ..m })
        },
        Instruction::SkipIfEqual(x, b) => skip_if(m, m.reg(x) == b),
        Instruction::SkipNotEqual(x, b) => skip_if(m, m.reg(x) != b),
        Instruction::SkipRegistersEqual(x, y) => skip_if(m, m.reg(x) == m.reg(y)),
        Instruction::SkipRegistersNotEqual(x, y) => skip_if(m, m.reg(x) != m.reg(y)),
        Instruction::LoadRegByte(x, b) => only(m.with_reg(x, b)),
        Instruction::Add(x, b) => only(m.with_reg(x, ((m.reg(x) + b) % 256) as u8)),
        Instruction::CopyRegToReg { x, y } => only(m.with_reg(x, m.reg(y))),
        Instruction::Or { x, y } => only(m.with_reg(x, m.reg(x) | m.reg(y))),
        Instruction::And { x, y } => only(m.with_reg(x, m.reg(x) & m.reg(y))),
        Instruction::Xor { x, y } => only(m.with_reg(x, m.reg(x) ^ m.reg(y))),
        Instruction::AddReg { x, y } => only(
            m.with_flag_then(m.reg(x) + m.reg(y) > 255, x, ((m.reg(x) + m.reg(y)) % 256) as u8),
        ),
        Instruction::Sub { x, y } => only(
            m.with_flag_then(m.reg(x) > m.reg(y), x, ((m.reg(x) - m.reg(y) + 256) % 256) as u8),
        ),
        Instruction::Shr(x) => only(m.with_flag_then(m.reg(x) % 2 == 1, x, m.reg(x) / 2)),
        Instruction::SubN { x, y } => only(
            m.with_flag_then(m.reg(y) > m.reg(x), x, ((m.reg(y) - m.reg(x) + 256) % 256) as u8),
        ),
        Instruction::Shl(x) => only(
            m.with_flag_then(m.reg(x) >= 128, x, ((m.reg(x) * 2) % 256) as u8),
        ),
        Instruction::LoadImmediate(a) => only(Machine { i: a@, ..m }),
        Instruction::JumpRelative(a) => if m.reg(GeneralRegister::V0) + a@ > ADDRESS_MAX {
            Err(ExecutionFault::AddressOverflow)
        } else {
            jump_to(m, (m.reg(GeneralRegister::V0) + a@) as u16)
        },
        Instruction::Random(x, b) => only(m.with_reg(x, random & b)),
        Instruction::DisplaySprite { x, y, number_of_bytes } => if m.i + number_of_bytes
            > NUMBER_OF_ADDRESSES || m.i > ADDRESS_MAX {
            Err(ExecutionFault::AddressOverflow)
        } else {
            let data = m.memory.subrange(m.i as int, m.i + number_of_bytes);
            let collides = spec_collides(m.display, data, m.reg(x), m.reg(y));
            Ok(
                (
                    Machine {
                        display: spec_draw(m.display, data, m.reg(x), m.reg(y)),
                        ..m
                    }.with_reg(GeneralRegister::VF, if collides { 1 } else { 0 }),
                    Effects { screen: true, ..no_effects() },
                ),
            )
        },
        Instruction::SkipPressed(x) => if m.reg(x) >= 16 {
            Err(ExecutionFault::InvalidDigit)
        } else {
            skip_if(m, keys.is_down(m.reg(x) as u16))
        },
        Instruction::SkipNotPressed(x) => if m.reg(x) >= 16 {
            Err(ExecutionFault::InvalidDigit)
        } else {
            skip_if(m, !keys.is_down(m.reg(x) as u16))
        },
        Instruction::GetDelayTimer(x) => only(m.with_reg(x, m.delay.0)),
        Instruction::WaitForKey(x) => Ok((m, Effects { wait_for_key: Some(x), ..no_effects() })),
        Instruction::SetDelayTimer(x) => only(Machine { delay: Datum(m.reg(x)), ..m }),
        Instruction::SetSoundTimer(x) => only(Machine { sound: Datum(m.reg(x)), ..m }),
        Instruction::AddI(x) => only(Machine { i: ((m.i + m.reg(x)) % 65536) as u16, ..m }),
        Instruction::GetSprite(x) => if m.reg(x) >= 16 {
            Err(ExecutionFault::InvalidDigit)
        } else {
            only(Machine { i: (FONT_START_ADDR + m.reg(x) * 5) as u16, ..m })
        },
        Instruction::BCD(x) => if m.i + 2 > ADDRESS_MAX {
            Err(ExecutionFault::AddressOverflow)
        } else {
            let (h, t, u) = bcd_digits(m.reg(x));
            only(
                Machine {
                    memory: m.memory.update(m.i as int, Datum(h)).update(m.i + 1, Datum(t)).update(
                        m.i + 2,
                        Datum(u),
                    ),
                    ..m
                },
            )
        },
        Instruction::WriteMultiple(x) => if m.i + x.spec_index() > ADDRESS_MAX {
            Err(ExecutionFault::AddressOverflow)
        } else {
            only(
                Machine {
                    memory: Seq::new(
                        m.memory.len(),
                        |a: int|
                            if m.i <= a <= m.i + x.spec_index() {
                                m.registers[a - m.i]
                            } else {
                                m.memory[a]
                            },
                    ),
                    ..m
                },
            )
        },
        Instruction::ReadMultiple(x) => if m.i + x.spec_index() > ADDRESS_MAX {
            Err(ExecutionFault::AddressOverflow)
        } else {
            only(
                Machine {
                    registers: Seq::new(
                        m.registers.len(),
                        |k: int|
                            if k <= x.spec_index() {
                                m.memory[m.i + k]
                            } else {
                                m.registers[k]
                            },
                    ),
                    ..m
                },
            )
        },
    }
}

/// `after` is `before` with the effects `e` reported on top.
pub open spec fn reports(before: FrameInfo, after: FrameInfo, e: Effects) -> bool {
    &&& after.spec_screen_modified() == (before.spec_screen_modified() || e.screen)
    &&& after.spec_entered_busywait() == (before.spec_entered_busywait() || e.busywait)
    &&& after.spec_wait_for_key() == match e.wait_for_key {
        Some(r) => Some(r),
        None => before.spec_wait_for_key(),
    }
    &&& after.spec_buzzer_change_state() == before.spec_buzzer_change_state()
}

/// The two bytes at the program counter, and the counter past them.
pub open spec fn spec_fetch(m: Machine) -> (RawInstruction, u16) {
    let first = next_pc(m.pc@);
    let second = next_pc(first);
    (RawInstruction::spec_from_bytes(m.memory[m.pc@ as int].0, m.memory[first as int].0), second)
}

/// One whole step: fetch the instruction at the program counter, decode it,
/// execute it.
pub open spec fn spec_step(m: Machine, keys: Keys, random: u8) -> Result<
    (Machine, Effects),
    ExecutionFault,
> {
    let (raw, pc) = spec_fetch(m);
    match Instruction::spec_decode(raw) {
        None => Err(ExecutionFault::InvalidInstruction(raw)),
        Some(i) => spec_execute(Machine { pc: Address::spec_new(pc), ..m }, i, keys, random),
    }
}

/// The address after `pc`, wrapping past the last one to zero.
pub open spec fn next_pc(pc: u16) -> u16 {
    if pc >= ADDRESS_MAX {
        0
    } else {
        (pc + 1) as u16
    }
}

} // verus!
