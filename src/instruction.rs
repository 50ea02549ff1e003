use vstd::prelude::*;

use crate::address::{Address, ADDRESS_MAX};
use crate::data::{high_nibble, low_nibble, lemma_byte_split, Datum, Nibble};
use crate::register::GeneralRegister as VX;

verus! {

/// One decoded operation of the virtual machine. The comment of each variant
/// gives its encoding: `x`, `y` are registers, `kk` a byte, `nnn` an address,
/// `n` a count.
#[derive(Debug, Copy, Clone, PartialEq, Eq, Structural)]
pub enum Instruction {
    /// 0000: does nothing.
    Nop,
    /// 00E0: clears the screen.
    ClearScreen,
    /// 00EE: returns to the address on top of the stack.
    Return,
    /// 1nnn: jumps to `nnn`.
    Jump(Address),
    /// 2nnn: pushes the program counter and jumps to `nnn`.
    Call(Address),
    /// 3xkk: skips the next instruction if `Vx == kk`.
    SkipIfEqual(VX, u8),
    /// 4xkk: skips the next instruction if `Vx != kk`.
    SkipNotEqual(VX, u8),
    /// 5xy0: skips the next instruction if `Vx == Vy`.
    SkipRegistersEqual(VX, VX),
    /// 6xkk: `Vx = kk`.
    LoadRegByte(VX, u8),
    /// 7xkk: `Vx = Vx + kk`, wrapping, flag untouched.
    Add(VX, u8),
    /// 8xy0: `Vx = Vy`.
    CopyRegToReg { x: VX, y: VX },
    /// 8xy1: `Vx = Vx | Vy`.
    Or { x: VX, y: VX },
    /// 8xy2: `Vx = Vx & Vy`.
    And { x: VX, y: VX },
    /// 8xy3: `Vx = Vx ^ Vy`.
    Xor { x: VX, y: VX },
    /// 8xy4: `Vx = Vx + Vy`, wrapping; `VF` = carry.
    AddReg { x: VX, y: VX },
    /// 8xy5: `VF = (Vx > Vy)`, then `Vx = Vx - Vy`, wrapping.
    Sub { x: VX, y: VX },
    /// 8x_6: `VF` = lowest bit of `Vx`, then `Vx = Vx >> 1`.
    Shr(VX),
    /// 8xy7: `VF = (Vy > Vx)`, then `Vx = Vy - Vx`, wrapping.
    SubN { x: VX, y: VX },
    /// 8x_E: `VF` = highest bit of `Vx`, then `Vx = Vx << 1`.
    Shl(VX),
    /// 9xy0: skips the next instruction if `Vx != Vy`.
    SkipRegistersNotEqual(VX, VX),
    /// Annn: `I = nnn`.
    LoadImmediate(Address),
    /// Bnnn: jumps to `nnn + V0`.
    JumpRelative(Address),
    /// Cxkk: `Vx` = a random byte `& kk`.
    Random(VX, u8),
    /// Dxyn: draws the `n` bytes at `I` as a sprite at `(Vx, Vy)`.
    DisplaySprite { x: VX, y: VX, number_of_bytes: u8 },
    /// Ex9E: skips the next instruction if key `Vx` is down.
    SkipPressed(VX),
    /// ExA1: skips the next instruction if key `Vx` is up.
    SkipNotPressed(VX),
    /// Fx07: `Vx` = delay timer.
    GetDelayTimer(VX),
    /// Fx0A: waits for a key press and stores the key in `Vx`.
    WaitForKey(VX),
    /// Fx15: delay timer = `Vx`.
    SetDelayTimer(VX),
    /// Fx18: sound timer = `Vx`.
    SetSoundTimer(VX),
    /// Fx1E: `I = I + Vx`.
    AddI(VX),
    /// Fx29: `I` = address of the font glyph for digit `Vx`.
    GetSprite(VX),
    /// Fx33: writes the decimal digits of `Vx` at `I`, `I+1`, `I+2`.
    BCD(VX),
    /// Fx55: writes `V0..=Vx` to memory from `I` on.
    WriteMultiple(VX),
    /// Fx65: reads `V0..=Vx` from memory from `I` on.
    ReadMultiple(VX),
}

/// The two bytes of an encoded instruction, most significant first.
#[derive(Debug, Copy, Clone, PartialEq, Eq, Hash, Structural)]
pub struct RawInstruction(Datum, Datum);

/// Why a pair of bytes is no instruction.
#[derive(Debug, Copy, Clone, PartialEq, Eq, Structural)]
pub enum InstructionDecodeError {
    InvalidInstruction(RawInstruction),
}

/// Four nibbles, most significant first.
pub type Nibbles = (u8, u8, u8, u8);

/// The nibbles of the two bytes `b0`, `b1`.
pub open spec fn nibbles_of(b0: u8, b1: u8) -> Nibbles {
    (high_nibble(b0), low_nibble(b0), high_nibble(b1), low_nibble(b1))
}

pub open spec fn reg(n: u8) -> VX {
    VX::spec_from_index(n)
}

pub open spec fn addr3(a: u8, b: u8, c: u8) -> Address {
    Address::spec_new((a * 256 + b * 16 + c) as u16)
}

pub open spec fn byte2(a: u8, b: u8) -> u8 {
    (a * 16 + b) as u8
}

/// What four nibbles decode to; `None` where they name no instruction.
pub open spec fn decode_nibbles(n: Nibbles) -> Option<Instruction> {
    let (n1, n2, n3, n4) = n;
    if n1 == 0 {
        if n2 == 0 && n3 == 0 && n4 == 0 {
            Some(Instruction::Nop)
        } else if n2 == 0 && n3 == 0xE && n4 == 0 {
            Some(Instruction::ClearScreen)
        } else if n2 == 0 && n3 == 0xE && n4 == 0xE {
            Some(Instruction::Return)
        } else {
            None
        }
    } else if n1 == 1 {
        Some(Instruction::Jump(addr3(n2, n3, n4)))
    } else if n1 == 2 {
        Some(Instruction::Call(addr3(n2, n3, n4)))
    } else if n1 == 3 {
        Some(Instruction::SkipIfEqual(reg(n2), byte2(n3, n4)))
    } else if n1 == 4 {
        Some(Instruction::SkipNotEqual(reg(n2), byte2(n3, n4)))
    } else if n1 == 5 {
        if n4 == 0 {
            Some(Instruction::SkipRegistersEqual(reg(n2), reg(n3)))
        } else {
            None
        }
    } else if n1 == 6 {
        Some(Instruction::LoadRegByte(reg(n2), byte2(n3, n4)))
    } else if n1 == 7 {
        Some(Instruction::Add(reg(n2), byte2(n3, n4)))
    } else if n1 == 8 {
        let (x, y) = (reg(n2), reg(n3));
        if n4 == 0 {
            Some(Instruction::CopyRegToReg { x, y })
        } else if n4 == 1 {
            Some(Instruction::Or { x, y })
        } else if n4 == 2 {
            Some(Instruction::And { x, y })
        } else if n4 == 3 {
            Some(Instruction::Xor { x, y })
        } else if n4 == 4 {
            Some(Instruction::AddReg { x, y })
        } else if n4 == 5 {
            Some(Instruction::Sub { x, y })
        } else if n4 == 6 {
            Some(Instruction::Shr(x))
        } else if n4 == 7 {
            Some(Instruction::SubN { x, y })
        } else if n4 == 0xE {
            Some(Instruction::Shl(x))
        } else {
            None
        }
    } else if n1 == 9 {
        if n4 == 0 {
            Some(Instruction::SkipRegistersNotEqual(reg(n2), reg(n3)))
        } else {
            None
        }
    } else if n1 == 0xA {
        Some(Instruction::LoadImmediate(addr3(n2, n3, n4)))
    } else if n1 == 0xB {
        Some(Instruction::JumpRelative(addr3(n2, n3, n4)))
    } else if n1 == 0xC {
        Some(Instruction::Random(reg(n2), byte2(n3, n4)))
    } else if n1 == 0xD {
        Some(Instruction::DisplaySprite { x: reg(n2), y: reg(n3), number_of_bytes: n4 })
    } else if n1 == 0xE {
        if n3 == 9 && n4 == 0xE {
            Some(Instruction::SkipPressed(reg(n2)))
        } else if n3 == 0xA && n4 == 1 {
            Some(Instruction::SkipNotPressed(reg(n2)))
        } else {
            None
        }
    } else if n1 == 0xF {
        let x = reg(n2);
        if n3 == 0 && n4 == 7 {
            Some(Instruction::GetDelayTimer(x))
        } else if n3 == 0 && n4 == 0xA {
            Some(Instruction::WaitForKey(x))
        } else if n3 == 1 && n4 == 5 {
            Some(Instruction::SetDelayTimer(x))
        } else if n3 == 1 && n4 == 8 {
            Some(Instruction::SetSoundTimer(x))
        } else if n3 == 1 && n4 == 0xE {
            Some(Instruction::AddI(x))
        } else if n3 == 2 && n4 == 9 {
            Some(Instruction::GetSprite(x))
        } else if n3 == 3 && n4 == 3 {
            Some(Instruction::BCD(x))
        } else if n3 == 5 && n4 == 5 {
            Some(Instruction::WriteMultiple(x))
        } else if n3 == 6 && n4 == 5 {
            Some(Instruction::ReadMultiple(x))
        } else {
            None
        }
    } else {
        None
    }
}

pub open spec fn ri(r: VX) -> u8 {
    r.spec_index()
}

pub open spec fn a1(a: Address) -> u8 {
    (a@ / 256) as u8
}

pub open spec fn a2(a: Address) -> u8 {
    ((a@ / 16) % 16) as u8
}

pub open spec fn a3(a: Address) -> u8 {
    (a@ % 16) as u8
}

/// The nibbles that encode an instruction.
pub open spec fn encode_nibbles(i: Instruction) -> Nibbles {
    match i {
        Instruction::Nop => (0, 0, 0, 0),
        Instruction::ClearScreen => (0, 0, 0xE, 0),
        Instruction::Return => (0, 0, 0xE, 0xE),
        Instruction::Jump(a) => (1, a1(a), a2(a), a3(a)),
        Instruction::Call(a) => (2, a1(a), a2(a), a3(a)),
        Instruction::SkipIfEqual(x, b) => (3, ri(x), high_nibble(b), low_nibble(b)),
        Instruction::SkipNotEqual(x, b) => (4, ri(x), high_nibble(b), low_nibble(b)),
        Instruction::SkipRegistersEqual(x, y) => (5, ri(x), ri(y), 0),
        Instruction::LoadRegByte(x, b) => (6, ri(x), high_nibble(b), low_nibble(b)),
        Instruction::Add(x, b) => (7, ri(x), high_nibble(b), low_nibble(b)),
        Instruction::CopyRegToReg { x, y } => (8, ri(x), ri(y), 0),
        Instruction::Or { x, y } => (8, ri(x), ri(y), 1),
        Instruction::And { x, y } => (8, ri(x), ri(y), 2),
        Instruction::Xor { x, y } => (8, ri(x), ri(y), 3),
        Instruction::AddReg { x, y } => (8, ri(x), ri(y), 4),
        Instruction::Sub { x, y } => (8, ri(x), ri(y), 5),
        Instruction::Shr(x) => (8, ri(x), 0, 6),
        Instruction::SubN { x, y } => (8, ri(x), ri(y), 7),
        Instruction::Shl(x) => (8, ri(x), 0, 0xE),
        Instruction::SkipRegistersNotEqual(x, y) => (9, ri(x), ri(y), 0),
        Instruction::LoadImmediate(a) => (0xA, a1(a), a2(a), a3(a)),
        Instruction::JumpRelative(a) => (0xB, a1(a), a2(a), a3(a)),
        Instruction::Random(x, b) => (0xC, ri(x), high_nibble(b), low_nibble(b)),
        Instruction::DisplaySprite { x, y, number_of_bytes } => (0xD, ri(x), ri(y), number_of_bytes),
        Instruction::SkipPressed(x) => (0xE, ri(x), 9, 0xE),
        Instruction::SkipNotPressed(x) => (0xE, ri(x), 0xA, 1),
        Instruction::GetDelayTimer(x) => (0xF, ri(x), 0, 7),
        Instruction::WaitForKey(x) => (0xF, ri(x), 0, 0xA),
        Instruction::SetDelayTimer(x) => (0xF, ri(x), 1, 5),
        Instruction::SetSoundTimer(x) => (0xF, ri(x), 1, 8),
        Instruction::AddI(x) => (0xF, ri(x), 1, 0xE),
        Instruction::GetSprite(x) => (0xF, ri(x), 2, 9),
        Instruction::BCD(x) => (0xF, ri(x), 3, 3),
        Instruction::WriteMultiple(x) => (0xF, ri(x), 5, 5),
        Instruction::ReadMultiple(x) => (0xF, ri(x), 6, 5),
    }
}

impl Instruction {
    /// Every operand fits its field: addresses in 12 bits, a sprite's
    /// byte count in 4.
    pub open spec fn wf(self) -> bool {
        match self {
            Instruction::Jump(a) => a@ <= ADDRESS_MAX,
            Instruction::Call(a) => a@ <= ADDRESS_MAX,
            Instruction::LoadImmediate(a) => a@ <= ADDRESS_MAX,
            Instruction::JumpRelative(a) => a@ <= ADDRESS_MAX,
            Instruction::DisplaySprite { number_of_bytes, .. } => number_of_bytes < 16,
            _ => true,
        }
    }

    /// What a raw instruction decodes to.
    pub open spec fn spec_decode(raw: RawInstruction) -> Option<Instruction> {
        decode_nibbles(raw.spec_nibbles())
    }

    pub fn try_from_data(data: RawInstruction) -> (r: Result<Self, InstructionDecodeError>)
        ensures
            match r {
                Ok(i) => Self::spec_decode(data) == Some(i),
                Err(e) => Self::spec_decode(data).is_none() && e
                    == InstructionDecodeError::InvalidInstruction(data),
            },
    {
        let ns = data.as_nibbles();
        let n1 = ns[0].as_half_byte();
        let n2 = ns[1].as_half_byte();
        let n3 = ns[2].as_half_byte();
        let n4 = ns[3].as_half_byte();
        let r = match (n1, n2, n3, n4) {
            (0x0, 0x0, 0x0, 0x0) => Some(Self::Nop),
            (0x0, 0x0, 0xE, 0x0) => Some(Self::ClearScreen),
            (0x0, 0x0, 0xE, 0xE) => Some(Self::Return),
            (0x1, a1, a2, a3) => Some(Self::Jump(Address::from_triplet(a1, a2, a3))),
            (0x2, a1, a2, a3) => Some(Self::Call(Address::from_triplet(a1, a2, a3))),
            (0x3, x, b1, b2) => Some(Self::SkipIfEqual(VX::from_byte(x), byte_with(b1, b2))),
            (0x4, x, b1, b2) => Some(Self::SkipNotEqual(VX::from_byte(x), byte_with(b1, b2))),
            (0x5, x, y, 0x0) => Some(Self::SkipRegistersEqual(VX::from_byte(x), VX::from_byte(y))),
            (0x6, x, b1, b2) => Some(Self::LoadRegByte(VX::from_byte(x), byte_with(b1, b2))),
            (0x7, x, b1, b2) => Some(Self::Add(VX::from_byte(x), byte_with(b1, b2))),
            (0x8, x, y, 0x0) => Some(Self::CopyRegToReg { x: VX::from_byte(x), y: VX::from_byte(y) }),
            (0x8, x, y, 0x1) => Some(Self::Or { x: VX::from_byte(x), y: VX::from_byte(y) }),
            (0x8, x, y, 0x2) => Some(Self::And { x: VX::from_byte(x), y: VX::from_byte(y) }),
            (0x8, x, y, 0x3) => Some(Self::Xor { x: VX::from_byte(x), y: VX::from_byte(y) }),
            (0x8, x, y, 0x4) => Some(Self::AddReg { x: VX::from_byte(x), y: VX::from_byte(y) }),
            (0x8, x, y, 0x5) => Some(Self::Sub { x: VX::from_byte(x), y: VX::from_byte(y) }),
            (0x8, x, _, 0x6) => Some(Self::Shr(VX::from_byte(x))),
            (0x8, x, y, 0x7) => Some(Self::SubN { x: VX::from_byte(x), y: VX::from_byte(y) }),
            (0x8, x, _, 0xE) => Some(Self::Shl(VX::from_byte(x))),
            (0x9, x, y, 0x0) => Some(
                Self::SkipRegistersNotEqual(VX::from_byte(x), VX::from_byte(y)),
            ),
            (0xA, a1, a2, a3) => Some(Self::LoadImmediate(Address::from_triplet(a1, a2, a3))),
            (0xB, a1, a2, a3) => Some(Self::JumpRelative(Address::from_triplet(a1, a2, a3))),
            (0xC, x, b1, b2) => Some(Self::Random(VX::from_byte(x), byte_with(b1, b2))),
            (0xD, x, y, n) => Some(
                Self::DisplaySprite { x: VX::from_byte(x), y: VX::from_byte(y), number_of_bytes: n },
            ),
            (0xE, x, 0x9, 0xE) => Some(Self::SkipPressed(VX::from_byte(x))),
            (0xE, x, 0xA, 0x1) => Some(Self::SkipNotPressed(VX::from_byte(x))),
            (0xF, x, 0x0, 0x7) => Some(Self::GetDelayTimer(VX::from_byte(x))),
            (0xF, x, 0x0, 0xA) => Some(Self::WaitForKey(VX::from_byte(x))),
            (0xF, x, 0x1, 0x5) => Some(Self::SetDelayTimer(VX::from_byte(x))),
            (0xF, x, 0x1, 0x8) => Some(Self::SetSoundTimer(VX::from_byte(x))),
            (0xF, x, 0x1, 0xE) => Some(Self::AddI(VX::from_byte(x))),
            (0xF, x, 0x2, 0x9) => Some(Self::GetSprite(VX::from_byte(x))),
            (0xF, x, 0x3, 0x3) => Some(Self::BCD(VX::from_byte(x))),
            (0xF, x, 0x5, 0x5) => Some(Self::WriteMultiple(VX::from_byte(x))),
            (0xF, x, 0x6, 0x5) => Some(Self::ReadMultiple(VX::from_byte(x))),
            _ => None,
        };
        match r {
            Some(i) => Ok(i),
            None => Err(InstructionDecodeError::InvalidInstruction(data)),
        }
    }

    /// Every operand fits its encoding field: a sprite's byte count in 4 bits.
    pub open spec fn encodable(self) -> bool {
        match self {
            Instruction::DisplaySprite { number_of_bytes, .. } => number_of_bytes < 16,
            _ => true,
        }
    }

    /// Encodes the instruction; decoding the result gives it back.
    pub fn to_data(self) -> (r: RawInstruction)
        requires
            self.encodable(),
        ensures
            r.spec_nibbles() == encode_nibbles(self),
            Self::spec_decode(r) == Some(self),
    {
        let r = self.encode();
        proof {
            match self {
                Self::Jump(a) => { use_type_invariant(&a); },
                Self::Call(a) => { use_type_invariant(&a); },
                Self::LoadImmediate(a) => { use_type_invariant(&a); },
                Self::JumpRelative(a) => { use_type_invariant(&a); },
                _ => {},
            }
            lemma_round_trip(self);
        }
        r
    }

    fn encode(self) -> (r: RawInstruction)
        requires
            self.encodable(),
        ensures
            r.spec_nibbles() == encode_nibbles(self),
    {
        match self {
            Self::Nop | Self::ClearScreen | Self::Return | Self::Jump(_) | Self::Call(_)
            | Self::LoadImmediate(_) | Self::JumpRelative(_) => self.encode_addressed(),
            Self::SkipIfEqual(..) | Self::SkipNotEqual(..) | Self::LoadRegByte(..) | Self::Add(..)
            | Self::Random(..) => self.encode_with_byte(),
            Self::SkipPressed(_) | Self::SkipNotPressed(_) | Self::GetDelayTimer(_)
            | Self::WaitForKey(_) | Self::SetDelayTimer(_) | Self::SetSoundTimer(_) | Self::AddI(_)
            | Self::GetSprite(_) | Self::BCD(_) | Self::WriteMultiple(_) | Self::ReadMultiple(_) => {
                self.encode_one_register()
            },
            _ => self.encode_two_registers(),
        }
    }

    fn encode_addressed(self) -> (r: RawInstruction)
        requires
            self is Nop || self is ClearScreen || self is Return || self is Jump || self is Call
                || self is LoadImmediate || self is JumpRelative,
        ensures
            r.spec_nibbles() == encode_nibbles(self),
    {
        match self {
            Self::ClearScreen => raw_of(0, 0, 0xE, 0),
            Self::Return => raw_of(0, 0, 0xE, 0xE),
            Self::Jump(addr) => raw_with_address(0x1, addr),
            Self::Call(addr) => raw_with_address(0x2, addr),
            Self::LoadImmediate(addr) => raw_with_address(0xA, addr),
            Self::JumpRelative(addr) => raw_with_address(0xB, addr),
            _ => raw_of(0, 0, 0, 0),
        }
    }

    fn encode_with_byte(self) -> (r: RawInstruction)
        requires
            self is SkipIfEqual || self is SkipNotEqual || self is LoadRegByte || self is Add
                || self is Random,
        ensures
            r.spec_nibbles() == encode_nibbles(self),
    {
        match self {
            Self::SkipIfEqual(x, byte) => raw_with_byte(0x3, x, byte),
            Self::SkipNotEqual(x, byte) => raw_with_byte(0x4, x, byte),
            Self::LoadRegByte(x, byte) => raw_with_byte(0x6, x, byte),
            Self::Add(x, byte) => raw_with_byte(0x7, x, byte),
            Self::Random(x, byte) => raw_with_byte(0xC, x, byte),
            _ => raw_of(0, 0, 0, 0),
        }
    }

    fn encode_one_register(self) -> (r: RawInstruction)
        requires
            self is SkipPressed || self is SkipNotPressed || self is GetDelayTimer
                || self is WaitForKey || self is SetDelayTimer || self is SetSoundTimer
                || self is AddI || self is GetSprite || self is BCD || self is WriteMultiple
                || self is ReadMultiple,
        ensures
            r.spec_nibbles() == encode_nibbles(self),
    {
        match self {
            Self::SkipPressed(x) => raw_of(0xE, x.index() as u8, 0x9, 0xE),
            Self::SkipNotPressed(x) => raw_of(0xE, x.index() as u8, 0xA, 0x1),
            Self::GetDelayTimer(x) => raw_of(0xF, x.index() as u8, 0x0, 0x7),
            Self::WaitForKey(x) => raw_of(0xF, x.index() as u8, 0x0, 0xA),
            Self::SetDelayTimer(x) => raw_of(0xF, x.index() as u8, 0x1, 0x5),
            Self::SetSoundTimer(x) => raw_of(0xF, x.index() as u8, 0x1, 0x8),
            Self::AddI(x) => raw_of(0xF, x.index() as u8, 0x1, 0xE),
            Self::GetSprite(x) => raw_of(0xF, x.index() as u8, 0x2, 0x9),
            Self::BCD(x) => raw_of(0xF, x.index() as u8, 0x3, 0x3),
            Self::WriteMultiple(x) => raw_of(0xF, x.index() as u8, 0x5, 0x5),
            Self::ReadMultiple(x) => raw_of(0xF, x.index() as u8, 0x6, 0x5),
            _ => raw_of(0, 0, 0, 0),
        }
    }

    fn encode_two_registers(self) -> (r: RawInstruction)
        requires
            self.encodable(),
            self is SkipRegistersEqual || self is CopyRegToReg || self is Or || self is And
                || self is Xor || self is AddReg || self is Sub || self is Shr || self is SubN
                || self is Shl || self is SkipRegistersNotEqual || self is DisplaySprite,
        ensures
            r.spec_nibbles() == encode_nibbles(self),
    {
        match self {
            Self::SkipRegistersEqual(x, y) => raw_of(0x5, x.index() as u8, y.index() as u8, 0),
            Self::CopyRegToReg { x, y } => raw_of(0x8, x.index() as u8, y.index() as u8, 0),
            Self::Or { x, y } => raw_of(0x8, x.index() as u8, y.index() as u8, 1),
            Self::And { x, y } => raw_of(0x8, x.index() as u8, y.index() as u8, 2),
            Self::Xor { x, y } => raw_of(0x8, x.index() as u8, y.index() as u8, 3),
            Self::AddReg { x, y } => raw_of(0x8, x.index() as u8, y.index() as u8, 4),
            Self::Sub { x, y } => raw_of(0x8, x.index() as u8, y.index() as u8, 5),
            Self::Shr(x) => raw_of(0x8, x.index() as u8, 0x0, 0x6),
            Self::SubN { x, y } => raw_of(0x8, x.index() as u8, y.index() as u8, 7),
            Self::Shl(x) => raw_of(0x8, x.index() as u8, 0x0, 0xE),
            Self::SkipRegistersNotEqual(x, y) => raw_of(0x9, x.index() as u8, y.index() as u8, 0),
            Self::DisplaySprite { x, y, number_of_bytes } => raw_of(
                0xD,
                x.index() as u8,
                y.index() as u8,
                number_of_bytes,
            ),
            _ => raw_of(0, 0, 0, 0),
        }
    }
}

fn raw_of(n1: u8, n2: u8, n3: u8, n4: u8) -> (r: RawInstruction)
    requires
        n1 < 16,
        n2 < 16,
        n3 < 16,
        n4 < 16,
    ensures
        r.spec_nibbles() == (n1, n2, n3, n4),
{
    RawInstruction::from_raw_nibbles(
        [
            Nibble::new_from_half_byte(n1),
            Nibble::new_from_half_byte(n2),
            Nibble::new_from_half_byte(n3),
            Nibble::new_from_half_byte(n4),
        ],
    )
}

fn raw_with_address(n1: u8, addr: Address) -> (r: RawInstruction)
    requires
        n1 < 16,
    ensures
        r.spec_nibbles() == (n1, a1(addr), a2(addr), a3(addr)),
{
    let a = addr.to_nibbles();
    raw_of(n1, a[0], a[1], a[2])
}

fn raw_with_byte(n1: u8, x: VX, byte: u8) -> (r: RawInstruction)
    requires
        n1 < 16,
    ensures
        r.spec_nibbles() == (n1, ri(x), high_nibble(byte), low_nibble(byte)),
{
    let b = Datum(byte).as_nibbles();
    raw_of(n1, x.index() as u8, b[0].as_half_byte(), b[1].as_half_byte())
}

proof fn lemma_address_nibbles(a: Address)
    requires
        a@ <= ADDRESS_MAX,
    ensures
        addr3(a1(a), a2(a), a3(a)) == a,
        a1(a) < 16,
{
    let v = a@;
    assert((v / 256) * 256 + ((v / 16) % 16) * 16 + v % 16 == v) by (nonlinear_arith)
        requires
            v <= 0xFFF,
    ;
    Address::lemma_spec_new((a1(a) * 256 + a2(a) * 16 + a3(a)) as u16);
    Address::lemma_view_injective(addr3(a1(a), a2(a), a3(a)), a);
}

/// Encoding an instruction whose operands fit and decoding the result gives
/// the instruction back.
pub proof fn lemma_round_trip(i: Instruction)
    requires
        i.wf(),
    ensures
        decode_nibbles(encode_nibbles(i)) == Some(i),
{
    match i {
        Instruction::Jump(a) => lemma_address_nibbles(a),
        Instruction::Call(a) => lemma_address_nibbles(a),
        Instruction::LoadImmediate(a) => lemma_address_nibbles(a),
        Instruction::JumpRelative(a) => lemma_address_nibbles(a),
        Instruction::SkipIfEqual(x, _) => x.lemma_index_round_trip(),
        Instruction::SkipNotEqual(x, _) => x.lemma_index_round_trip(),
        Instruction::LoadRegByte(x, _) => x.lemma_index_round_trip(),
        Instruction::Add(x, _) => x.lemma_index_round_trip(),
        Instruction::Random(x, _) => x.lemma_index_round_trip(),
        Instruction::SkipRegistersEqual(x, y) => {
            x.lemma_index_round_trip();
            y.lemma_index_round_trip();
        },
        Instruction::SkipRegistersNotEqual(x, y) => {
            x.lemma_index_round_trip();
            y.lemma_index_round_trip();
        },
        Instruction::CopyRegToReg { x, y } | Instruction::Or { x, y } | Instruction::And { x, y }
        | Instruction::Xor { x, y } | Instruction::AddReg { x, y } | Instruction::Sub { x, y }
        | Instruction::SubN { x, y } | Instruction::DisplaySprite { x, y, .. } => {
            x.lemma_index_round_trip();
            y.lemma_index_round_trip();
        },
        Instruction::Shr(x) | Instruction::Shl(x) | Instruction::SkipPressed(x)
        | Instruction::SkipNotPressed(x) | Instruction::GetDelayTimer(x)
        | Instruction::WaitForKey(x) | Instruction::SetDelayTimer(x)
        | Instruction::SetSoundTimer(x) | Instruction::AddI(x) | Instruction::GetSprite(x)
        | Instruction::BCD(x) | Instruction::WriteMultiple(x) | Instruction::ReadMultiple(x) => {
            x.lemma_index_round_trip();
        },
        _ => {},
    }
}

/// Whatever two bytes decode to has operands that fit, and encoding it and
/// decoding again gives the same instruction.
pub proof fn lemma_decode_encode_decode(raw: RawInstruction)
    requires
        Instruction::spec_decode(raw).is_some(),
    ensures
        Instruction::spec_decode(raw).unwrap().wf(),
        Instruction::spec_decode(raw).unwrap().encodable(),
        decode_nibbles(encode_nibbles(Instruction::spec_decode(raw).unwrap()))
            == Instruction::spec_decode(raw),
{
    let (n1, n2, n3, n4) = raw.spec_nibbles();
    assert(n1 < 16 && n2 < 16 && n3 < 16 && n4 < 16);
    Address::lemma_spec_new((n2 * 256 + n3 * 16 + n4) as u16);
    lemma_round_trip(Instruction::spec_decode(raw).unwrap());
}

impl RawInstruction {
    /// The two bytes, most significant first.
    pub closed spec fn view(self) -> (u8, u8) {
        (self.0.0, self.1.0)
    }

    /// The raw instruction of two bytes, in specifications.
    pub closed spec fn spec_from_bytes(b0: u8, b1: u8) -> RawInstruction {
        RawInstruction(Datum(b0), Datum(b1))
    }

    /// The four nibbles, most significant first.
    pub open spec fn spec_nibbles(self) -> Nibbles {
        nibbles_of(self@.0, self@.1)
    }

    pub fn from_raw_bytes(value: [u8; 2]) -> (r: Self)
        ensures
            r@ == (value[0], value[1]),
            r == Self::spec_from_bytes(value[0], value[1]),
    {
        RawInstruction(Datum(value[0]), Datum(value[1]))
    }

    pub fn from_raw_nibbles(nibbles: [Nibble; 4]) -> (r: Self)
        ensures
            r.spec_nibbles() == (nibbles[0]@, nibbles[1]@, nibbles[2]@, nibbles[3]@),
    {
        let bytes = [nibbles[0].byte_with(nibbles[1]), nibbles[2].byte_with(nibbles[3])];
        Self::from_raw_bytes(bytes)
    }

    pub fn as_nibbles(&self) -> (r: [Nibble; 4])
        ensures
            (r[0]@, r[1]@, r[2]@, r[3]@) == self.spec_nibbles(),
    {
        let h = self.0.as_nibbles();
        let l = self.1.as_nibbles();
        [h[0], h[1], l[0], l[1]]
    }

    /// The most significant byte.
    pub fn first(&self) -> (r: Datum)
        ensures
            r.0 == self@.0,
    {
        self.0
    }

    /// The most significant byte, for writing.
    pub fn highest(&mut self) -> (r: &mut Datum)
        ensures
            (*r).0 == old(self)@.0,
            final(self)@ == ((*final(r)).0, old(self)@.1),
    {
        &mut self.0
    }

    /// The least significant byte.
    pub fn second(&self) -> (r: Datum)
        ensures
            r.0 == self@.1,
    {
        self.1
    }
}

impl InstructionDecodeError {
    /// The bytes that failed to decode.
    pub fn invalid_data(self) -> (r: Option<RawInstruction>)
        ensures
            match self {
                InstructionDecodeError::InvalidInstruction(raw) => r == Some(raw),
            },
    {
        match self {
            InstructionDecodeError::InvalidInstruction(inner) => Some(inner),
        }
    }
}

/// The byte whose nibbles are `a` and `b`.
pub fn byte_with(a: u8, b: u8) -> (r: u8)
    requires
        a < 16,
        b < 16,
    ensures
        r == a * 16 + b,
        r == byte2(a, b),
{
    a * 16 + b
}

} // verus!
