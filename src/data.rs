use vstd::prelude::*;

verus! {

/// The high four bits of a byte.
pub open spec fn high_nibble(b: u8) -> u8 {
    b / 16
}

/// The low four bits of a byte.
pub open spec fn low_nibble(b: u8) -> u8 {
    b % 16
}

pub proof fn lemma_byte_split(b: u8)
    ensures
        b >> 4u8 == b / 16,
        b & 15u8 == b % 16,
{
    assert(b >> 4u8 == b / 16 && b & 15u8 == b % 16) by (bit_vector);
}

pub proof fn lemma_byte_join(h: u8, l: u8)
    requires
        h < 16,
        l < 16,
    ensures
        (h << 4u8) | l == h * 16 + l,
        h * 16 + l < 256,
{
    assert((h << 4u8) | l == h * 16 + l && h * 16 + l < 256) by (bit_vector)
        requires
            h < 16,
            l < 16,
    ;
}

/// An 8-bit value held in a register, a timer or a memory cell.
#[derive(Debug, Copy, Clone, PartialEq, Eq, Hash, PartialOrd, Ord, Structural)]
pub struct Datum(pub u8);

/// A 4-bit value; always below 16.
#[derive(Debug, Copy, Clone, PartialEq, Eq, Hash, PartialOrd, Ord, Structural)]
pub struct Nibble(u8);

impl Nibble {
    #[verifier::type_invariant]
    spec fn inv(self) -> bool {
        self.0 < 16
    }

    /// The value of the nibble.
    pub closed spec fn view(self) -> u8 {
        self.0
    }

    pub fn new_from_half_byte(byte: u8) -> (r: Self)
        requires
            byte < 16,
        ensures
            r@ == byte,
    {
        Nibble(byte)
    }

    pub fn as_half_byte(&self) -> (r: u8)
        ensures
            r == self@,
            r < 16,
    {
        proof {
            use_type_invariant(self);
        }
        self.0
    }

    /// The byte whose high nibble is `self` and whose low nibble is `other`.
    pub fn byte_with(self, other: Self) -> (r: u8)
        ensures
            r == self@ * 16 + other@,
            high_nibble(r) == self@,
            low_nibble(r) == other@,
    {
        proof {
            use_type_invariant(self);
            use_type_invariant(other);
            lemma_byte_join(self.0, other.0);
        }
        (self.0 << 4u8) | other.0
    }
}

impl Datum {
    /// The high and the low nibble, in that order.
    pub fn as_nibbles(self) -> (r: [Nibble; 2])
        ensures
            r[0]@ == high_nibble(self.0),
            r[1]@ == low_nibble(self.0),
    {
        proof {
            lemma_byte_split(self.0);
        }
        [Nibble::new_from_half_byte(self.0 >> 4u8), Nibble::new_from_half_byte(self.0 & 15u8)]
    }

    /// Moves the value one step towards zero; tells whether it moved.
    pub fn towards_zero(&mut self) -> (moved: bool)
        ensures
            moved == (old(self).0 > 0),
            final(self).0 == if old(self).0 > 0 { (old(self).0 - 1) as u8 } else { 0u8 },
    {
        if self.0 > 0 {
            self.0 = self.0 - 1;
            true
        } else {
            false
        }
    }

    pub fn inner(self) -> (r: u8)
        ensures
            r == self.0,
    {
        self.0
    }

    pub fn bitor(self, rhs: Datum) -> (r: Datum)
        ensures
            r.0 == self.0 | rhs.0,
    {
        Datum(self.0 | rhs.0)
    }

    pub fn bitand(self, rhs: Datum) -> (r: Datum)
        ensures
            r.0 == self.0 & rhs.0,
    {
        Datum(self.0 & rhs.0)
    }

    pub fn bitxor(self, rhs: Datum) -> (r: Datum)
        ensures
            r.0 == self.0 ^ rhs.0,
    {
        Datum(self.0 ^ rhs.0)
    }
}

} // verus!
