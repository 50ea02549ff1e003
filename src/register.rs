use vstd::prelude::*;

use crate::data::Nibble;

verus! {

/// One of the sixteen general registers; `VF` doubles as the flag register.
#[derive(Debug, Copy, Clone, PartialEq, Eq, Hash, PartialOrd, Ord, Structural)]
pub enum GeneralRegister {
    V0,
    V1,
    V2,
    V3,
    V4,
    V5,
    V6,
    V7,
    V8,
    V9,
    VA,
    VB,
    VC,
    VD,
    VE,
    VF,
}

/// Whether `c` is a hexadecimal digit, in either case.
pub open spec fn is_hex_digit(c: char) -> bool {
    ('0' <= c && c <= '9') || ('a' <= c && c <= 'f') || ('A' <= c && c <= 'F')
}

/// The value of a hexadecimal digit.
pub open spec fn hex_value(c: char) -> u8 {
    if '0' <= c && c <= '9' {
        (c as u32 - '0' as u32) as u8
    } else if 'a' <= c && c <= 'f' {
        (c as u32 - 'a' as u32 + 10) as u8
    } else {
        (c as u32 - 'A' as u32 + 10) as u8
    }
}

impl GeneralRegister {
    /// The position of the register, from 0 for `V0` to 15 for `VF`.
    pub open spec fn spec_index(self) -> u8 {
        match self {
            GeneralRegister::V0 => 0,
            GeneralRegister::V1 => 1,
            GeneralRegister::V2 => 2,
            GeneralRegister::V3 => 3,
            GeneralRegister::V4 => 4,
            GeneralRegister::V5 => 5,
            GeneralRegister::V6 => 6,
            GeneralRegister::V7 => 7,
            GeneralRegister::V8 => 8,
            GeneralRegister::V9 => 9,
            GeneralRegister::VA => 10,
            GeneralRegister::VB => 11,
            GeneralRegister::VC => 12,
            GeneralRegister::VD => 13,
            GeneralRegister::VE => 14,
            GeneralRegister::VF => 15,
        }
    }

    /// The register at position `i`.
    pub open spec fn spec_from_index(i: u8) -> GeneralRegister {
        if i == 0 {
            GeneralRegister::V0
        } else if i == 1 {
            GeneralRegister::V1
        } else if i == 2 {
            GeneralRegister::V2
        } else if i == 3 {
            GeneralRegister::V3
        } else if i == 4 {
            GeneralRegister::V4
        } else if i == 5 {
            GeneralRegister::V5
        } else if i == 6 {
            GeneralRegister::V6
        } else if i == 7 {
            GeneralRegister::V7
        } else if i == 8 {
            GeneralRegister::V8
        } else if i == 9 {
            GeneralRegister::V9
        } else if i == 10 {
            GeneralRegister::VA
        } else if i == 11 {
            GeneralRegister::VB
        } else if i == 12 {
            GeneralRegister::VC
        } else if i == 13 {
            GeneralRegister::VD
        } else if i == 14 {
            GeneralRegister::VE
        } else {
            GeneralRegister::VF
        }
    }

    pub proof fn lemma_index_round_trip(self)
        ensures
            self.spec_index() < 16,
            Self::spec_from_index(self.spec_index()) == self,
    {
    }

    pub proof fn lemma_from_index_round_trip(i: u8)
        requires
            i < 16,
        ensures
            Self::spec_from_index(i).spec_index() == i,
    {
    }

    pub fn index(self) -> (r: usize)
        ensures
            r == self.spec_index(),
            r < 16,
    {
        match self {
            GeneralRegister::V0 => 0,
            GeneralRegister::V1 => 1,
            GeneralRegister::V2 => 2,
            GeneralRegister::V3 => 3,
            GeneralRegister::V4 => 4,
            GeneralRegister::V5 => 5,
            GeneralRegister::V6 => 6,
            GeneralRegister::V7 => 7,
            GeneralRegister::V8 => 8,
            GeneralRegister::V9 => 9,
            GeneralRegister::VA => 10,
            GeneralRegister::VB => 11,
            GeneralRegister::VC => 12,
            GeneralRegister::VD => 13,
            GeneralRegister::VE => 14,
            GeneralRegister::VF => 15,
        }
    }

    pub fn from_nibble(nibble: Nibble) -> (r: Self)
        ensures
            r.spec_index() == nibble@,
    {
        Self::from_byte(nibble.as_half_byte())
    }

    pub fn to_nibble(self) -> (r: Nibble)
        ensures
            r@ == self.spec_index(),
    {
        Nibble::new_from_half_byte(self.index() as u8)
    }

    pub fn from_byte(index: u8) -> (r: Self)
        requires
            index < 16,
        ensures
            r.spec_index() == index,
            r == Self::spec_from_index(index),
    {
        proof {
            Self::lemma_from_index_round_trip(index);
        }
        match Self::from_byte_checked(index) {
            Some(r) => r,
            None => GeneralRegister::VF,
        }
    }

    pub fn from_byte_checked(index: u8) -> (r: Option<Self>)
        ensures
            index < 16 ==> r == Some(Self::spec_from_index(index)),
            index >= 16 ==> r.is_none(),
    {
        match index {
            0 => Some(GeneralRegister::V0),
            1 => Some(GeneralRegister::V1),
            2 => Some(GeneralRegister::V2),
            3 => Some(GeneralRegister::V3),
            4 => Some(GeneralRegister::V4),
            5 => Some(GeneralRegister::V5),
            6 => Some(GeneralRegister::V6),
            7 => Some(GeneralRegister::V7),
            8 => Some(GeneralRegister::V8),
            9 => Some(GeneralRegister::V9),
            10 => Some(GeneralRegister::VA),
            11 => Some(GeneralRegister::VB),
            12 => Some(GeneralRegister::VC),
            13 => Some(GeneralRegister::VD),
            14 => Some(GeneralRegister::VE),
            15 => Some(GeneralRegister::VF),
            _ => None,
        }
    }

    /// The registers from `V0` up to and including `self`, in order.
    pub fn until_including(self) -> (r: Vec<Self>)
        ensures
            r@.len() == self.spec_index() + 1,
            forall|i: int| 0 <= i < r@.len() ==> #[trigger] r@[i].spec_index() == i,
    {
        let last = self.index() as u8;
        let mut out: Vec<Self> = Vec::new();
        let mut i: u8 = 0;
        while i <= last
            invariant
                last == self.spec_index(),
                last < 16,
                i <= last + 1,
                out@.len() == i,
                forall|j: int| 0 <= j < out@.len() ==> #[trigger] out@[j].spec_index() == j,
            decreases last + 1 - i,
        {
            out.push(Self::from_byte(i));
            i = i + 1;
        }
        out
    }

    /// Reads a register name: two characters, the second a hexadecimal
    /// digit giving the position (`V3`, `Va`).
    pub fn from_name(from: &str) -> (r: Option<Self>)
        ensures
            r == (if from@.len() == 2 && (from@[0] as u32) < 128 && is_hex_digit(from@[1]) {
                Some(Self::spec_from_index(hex_value(from@[1])))
            } else {
                None
            }),
    {
        if from.unicode_len() != 2 {
            return None;
        }
        let first = from.get_char(0);
        let c = from.get_char(1);
        if (first as u32) >= 128 {
            return None;
        }
        let v: u8 = if '0' <= c && c <= '9' {
            (c as u32 - '0' as u32) as u8
        } else if 'a' <= c && c <= 'f' {
            (c as u32 - 'a' as u32 + 10) as u8
        } else if 'A' <= c && c <= 'F' {
            (c as u32 - 'A' as u32 + 10) as u8
        } else {
            return None;
        };
        Self::from_byte_checked(v)
    }
}

} // verus!
