use vstd::prelude::*;

use crate::address::{Address, NUMBER_OF_ADDRESSES, PROGRAM_START_INDEX};
use crate::data::Datum;

verus! {

/// Where the font table starts in memory.
pub const FONT_START_ADDR: usize = 0x50;

/// How many bytes a loaded program may hold.
pub const ROM_SIZE: usize = 3584;

/// The font table: sixteen glyphs, the hexadecimal digits, five bytes each.
pub open spec fn font_glyphs() -> Seq<u8> {
    seq![
        0xF0u8, 0x90, 0x90, 0x90, 0xF0, 0x20, 0x60, 0x20, 0x20, 0x70,
        0xF0, 0x10, 0xF0, 0x80, 0xF0, 0xF0, 0x10, 0xF0, 0x10, 0xF0,
        0x90, 0x90, 0xF0, 0x10, 0x10, 0xF0, 0x80, 0xF0, 0x10, 0xF0,
        0xF0, 0x80, 0xF0, 0x90, 0xF0, 0xF0, 0x10, 0x20, 0x40, 0x40,
        0xF0, 0x90, 0xF0, 0x90, 0xF0, 0xF0, 0x90, 0xF0, 0x10, 0xF0,
        0xF0, 0x90, 0xF0, 0x90, 0x90, 0xE0, 0x90, 0xE0, 0x90, 0xE0,
        0xF0, 0x80, 0x80, 0x80, 0xF0, 0xE0, 0x90, 0x90, 0x90, 0xE0,
        0xF0, 0x80, 0xF0, 0x80, 0xF0, 0xF0, 0x80, 0xF0, 0x80, 0x80,
    ]
}

fn font_data() -> (r: Vec<u8>)
    ensures
        r@ == font_glyphs(),
{
    vec![
        0xF0u8, 0x90, 0x90, 0x90, 0xF0, 0x20, 0x60, 0x20, 0x20, 0x70,
        0xF0, 0x10, 0xF0, 0x80, 0xF0, 0xF0, 0x10, 0xF0, 0x10, 0xF0,
        0x90, 0x90, 0xF0, 0x10, 0x10, 0xF0, 0x80, 0xF0, 0x10, 0xF0,
        0xF0, 0x80, 0xF0, 0x90, 0xF0, 0xF0, 0x10, 0x20, 0x40, 0x40,
        0xF0, 0x90, 0xF0, 0x90, 0xF0, 0xF0, 0x90, 0xF0, 0x10, 0xF0,
        0xF0, 0x90, 0xF0, 0x90, 0x90, 0xE0, 0x90, 0xE0, 0x90, 0xE0,
        0xF0, 0x80, 0x80, 0x80, 0xF0, 0xE0, 0x90, 0x90, 0x90, 0xE0,
        0xF0, 0x80, 0xF0, 0x80, 0xF0, 0xF0, 0x80, 0xF0, 0x80, 0x80,
    ]
}

/// The byte at `i` of the reserved low memory: the font table at
/// `FONT_START_ADDR`, zero elsewhere.
pub open spec fn reserved_byte(i: int) -> u8 {
    if FONT_START_ADDR <= i < FONT_START_ADDR + 80 {
        font_glyphs()[i - FONT_START_ADDR]
    } else {
        0
    }
}

/// The memory image of a program: the reserved bytes, then the program.
pub open spec fn memory_image(program: Seq<Datum>) -> Seq<Datum> {
    Seq::new(
        NUMBER_OF_ADDRESSES as nat,
        |i: int|
            if i < PROGRAM_START_INDEX {
                Datum(reserved_byte(i))
            } else {
                program[i - PROGRAM_START_INDEX]
            },
    )
}

/// Why bytes could not be loaded.
#[derive(Debug, Copy, Clone, PartialEq, Eq, Structural)]
pub enum LoadError {
    WrongSize { size: usize, expected: usize },
}

/// A program image of exactly `ROM_SIZE` bytes.
#[derive(Debug, Clone)]
pub struct ROM(Vec<Datum>);

impl ROM {
    /// Exactly `ROM_SIZE` bytes.
    pub open spec fn wf(&self) -> bool {
        self@.len() == ROM_SIZE
    }

    pub closed spec fn view(&self) -> Seq<Datum> {
        self.0@
    }

    /// A program of zero bytes only.
    pub fn new() -> (r: Self)
        ensures
            r@ == Seq::new(ROM_SIZE as nat, |i: int| Datum(0)),
            r.wf(),
    {
        let mut v: Vec<Datum> = Vec::new();
        let mut i: usize = 0;
        while i < ROM_SIZE
            invariant
                i <= ROM_SIZE,
                v@ == Seq::new(i as nat, |j: int| Datum(0)),
            decreases ROM_SIZE - i,
        {
            v.push(Datum(0));
            i = i + 1;
        }
        ROM(v)
    }

    /// The program of the bytes `containing`, which must be `ROM_SIZE` long.
    pub fn containing(containing: Vec<Datum>) -> (r: Self)
        requires
            containing@.len() == ROM_SIZE,
        ensures
            r@ == containing@,
            r.wf(),
    {
        ROM(containing)
    }

    /// Loads a program: shorter inputs are padded with zeros, longer ones are
    /// refused.
    pub fn from_bytes(bytes: Vec<u8>) -> (r: Result<Self, LoadError>)
        ensures
            bytes@.len() <= ROM_SIZE <==> r is Ok,
            match r {
                Ok(rom) => rom.wf() && rom@ == Seq::new(
                    ROM_SIZE as nat,
                    |i: int|
                        if i < bytes@.len() {
                            Datum(bytes@[i])
                        } else {
                            Datum(0)
                        },
                ),
                Err(e) => e == LoadError::WrongSize { size: bytes@.len() as usize, expected: ROM_SIZE },
            },
    {
        if bytes.len() > ROM_SIZE {
            return Err(LoadError::WrongSize { size: bytes.len(), expected: ROM_SIZE });
        }
        let mut v: Vec<Datum> = Vec::new();
        let mut i: usize = 0;
        while i < ROM_SIZE
            invariant
                i <= ROM_SIZE,
                bytes@.len() <= ROM_SIZE,
                v@ == Seq::new(
                    i as nat,
                    |j: int|
                        if j < bytes@.len() {
                            Datum(bytes@[j])
                        } else {
                            Datum(0)
                        },
                ),
            decreases ROM_SIZE - i,
        {
            if i < bytes.len() {
                v.push(Datum(bytes[i]));
            } else {
                v.push(Datum(0));
            }
            i = i + 1;
        }
        Ok(ROM(v))
    }

    /// The program's bytes.
    pub fn to_bytes(&self) -> (r: Vec<u8>)
        ensures
            r@ == self@.map_values(|d: Datum| d.0),
    {
        let mut out: Vec<u8> = Vec::new();
        let mut i: usize = 0;
        while i < self.0.len()
            invariant
                i <= self.0@.len(),
                out@ == self@.take(i as int).map_values(|d: Datum| d.0),
            decreases self.0@.len() - i,
        {
            out.push(self.0[i].0);
            proof {
                assert(self@.take(i + 1) == self@.take(i as int).push(self@[i as int]));
            }
            i = i + 1;
        }
        proof {
            assert(self@.take(self@.len() as int) == self@);
        }
        out
    }

    /// The memory that runs this program.
    pub fn to_memory(self) -> (r: Memory)
        requires
            self.wf(),
        ensures
            r@ == memory_image(self@),
            r.wf(),
    {
        Memory::from_rom(self)
    }
}

/// The whole address space, one byte per address.
#[derive(Debug, Clone)]
pub struct Memory(Vec<Datum>);

impl Memory {
    /// One byte for each address.
    pub open spec fn wf(&self) -> bool {
        self@.len() == NUMBER_OF_ADDRESSES
    }

    pub closed spec fn view(&self) -> Seq<Datum> {
        self.0@
    }

    /// The font table and zero fill, then the program.
    pub fn from_rom(rom: ROM) -> (r: Self)
        requires
            rom.wf(),
        ensures
            r@ == memory_image(rom@),
            r.wf(),
    {
        let font = font_data();
        let mut v: Vec<Datum> = Vec::new();
        let mut i: usize = 0;
        while i < NUMBER_OF_ADDRESSES
            invariant
                i <= NUMBER_OF_ADDRESSES,
                font@ == font_glyphs(),
                rom@.len() == ROM_SIZE,
                v@ == memory_image(rom@).take(i as int),
            decreases NUMBER_OF_ADDRESSES - i,
        {
            let d = if i < FONT_START_ADDR {
                Datum(0)
            } else if i < FONT_START_ADDR + 80 {
                Datum(font[i - FONT_START_ADDR])
            } else if i < PROGRAM_START_INDEX {
                Datum(0)
            } else {
                rom.0[i - PROGRAM_START_INDEX]
            };
            v.push(d);
            proof {
                assert(memory_image(rom@).take(i + 1) == memory_image(rom@).take(i as int).push(d));
            }
            i = i + 1;
        }
        proof {
            assert(memory_image(rom@).take(NUMBER_OF_ADDRESSES as int) == memory_image(rom@));
        }
        Memory(v)
    }

    /// A whole memory image of exactly `NUMBER_OF_ADDRESSES` bytes.
    pub fn from_bytes(bytes: Vec<u8>) -> (r: Result<Self, LoadError>)
        ensures
            bytes@.len() == NUMBER_OF_ADDRESSES <==> r is Ok,
            match r {
                Ok(m) => m@ == bytes@.map_values(|b: u8| Datum(b)) && m.wf(),
                Err(e) => e == LoadError::WrongSize {
                    size: bytes@.len() as usize,
                    expected: NUMBER_OF_ADDRESSES,
                },
            },
    {
        if bytes.len() != NUMBER_OF_ADDRESSES {
            return Err(LoadError::WrongSize { size: bytes.len(), expected: NUMBER_OF_ADDRESSES });
        }
        let mut v: Vec<Datum> = Vec::new();
        let mut i: usize = 0;
        while i < bytes.len()
            invariant
                i <= bytes@.len(),
                v@ == bytes@.take(i as int).map_values(|b: u8| Datum(b)),
            decreases bytes@.len() - i,
        {
            v.push(Datum(bytes[i]));
            proof {
                assert(bytes@.take(i + 1) == bytes@.take(i as int).push(bytes@[i as int]));
            }
            i = i + 1;
        }
        proof {
            assert(bytes@.take(bytes@.len() as int) == bytes@);
        }
        Ok(Memory(v))
    }

    /// Zeros everywhere but for an undefined instruction at the program's
    /// start.
    pub fn empty() -> (r: Self)
        ensures
            r@ == Seq::new(NUMBER_OF_ADDRESSES as nat, |i: int| Datum(0)).update(
                PROGRAM_START_INDEX as int + 1,
                Datum(0xF0),
            ),
            r.wf(),
    {
        let mut v: Vec<Datum> = Vec::new();
        let mut i: usize = 0;
        while i < NUMBER_OF_ADDRESSES
            invariant
                i <= NUMBER_OF_ADDRESSES,
                v@ == Seq::new(i as nat, |j: int| Datum(0)),
            decreases NUMBER_OF_ADDRESSES - i,
        {
            v.push(Datum(0));
            i = i + 1;
        }
        v.set(PROGRAM_START_INDEX, Datum(0x00));
        v.set(PROGRAM_START_INDEX + 1, Datum(0xF0));
        Memory(v)
    }

    /// The `number` bytes from `start` on.
    pub fn substring(&self, start: Address, number: u8) -> (r: Vec<Datum>)
        requires
            self.wf(),
            start@ + number <= NUMBER_OF_ADDRESSES,
        ensures
            r@ == self@.subrange(start@ as int, start@ + number),
    {
        let s = start.as_u16() as usize;
        let mut out: Vec<Datum> = Vec::new();
        let mut i: usize = 0;
        while i < number as usize
            invariant
                i <= number,
                s == start@,
                s + number <= self@.len(),
                out@ == self@.subrange(s as int, s + i),
            decreases number - i,
        {
            out.push(self.0[s + i]);
            proof {
                assert(self@.subrange(s as int, s + i + 1) == self@.subrange(s as int, s + i).push(
                    self@[s + i],
                ));
            }
            i = i + 1;
        }
        out
    }

    /// Every byte, in address order.
    pub fn all(&self) -> (r: &Vec<Datum>)
        ensures
            r@ == self@,
    {
        &self.0
    }

    /// Gives up the bytes.
    pub fn extract(self) -> (r: Vec<Datum>)
        ensures
            r@ == self@,
    {
        self.0
    }

    /// The bytes of the whole memory, for writing out.
    pub fn save(&self) -> (r: Vec<u8>)
        ensures
            r@ == self@.map_values(|d: Datum| d.0),
    {
        let mut out: Vec<u8> = Vec::new();
        let mut i: usize = 0;
        while i < self.0.len()
            invariant
                i <= self.0@.len(),
                out@ == self@.take(i as int).map_values(|d: Datum| d.0),
            decreases self.0@.len() - i,
        {
            out.push(self.0[i].0);
            proof {
                assert(self@.take(i + 1) == self@.take(i as int).push(self@[i as int]));
            }
            i = i + 1;
        }
        proof {
            assert(self@.take(self@.len() as int) == self@);
        }
        out
    }

    /// The byte at `at`.
    pub fn get(&self, at: Address) -> (r: Datum)
        requires
            self.wf(),
        ensures
            r == self@[at@ as int],
    {
        proof {
            use_type_invariant(&at);
        }
        self.0[at.as_u16() as usize]
    }

    /// Writes `value` at `at`.
    pub fn set(&mut self, at: Address, value: Datum)
        requires
            old(self).wf(),
        ensures
            final(self)@ == old(self)@.update(at@ as int, value),
            final(self).wf(),
    {
        proof {
            use_type_invariant(&at);
        }
        let i = at.as_u16() as usize;
        self.0.set(i, value);
    }
}

} // verus!
