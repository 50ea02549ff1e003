use vstd::prelude::*;

verus! {

/// The highest address of the 12-bit address space.
pub const ADDRESS_MAX: u16 = 0xFFF;

/// How many addresses there are.
pub const NUMBER_OF_ADDRESSES: usize = 4096;

/// Where a loaded program starts; the bytes below hold the font table.
pub const PROGRAM_START_INDEX: usize = 0x200;

/// A memory address, always in `[0, ADDRESS_MAX]`.
#[derive(Debug, Copy, Clone, PartialEq, Eq, Hash, PartialOrd, Ord, Structural)]
pub struct Address(u16);

impl Address {
    #[verifier::type_invariant]
    pub open spec fn inv(self) -> bool {
        self@ <= ADDRESS_MAX
    }

    /// The numeric value of the address.
    pub closed spec fn view(self) -> u16 {
        self.0
    }

    /// The address with value `v`, in specifications.
    pub closed spec fn spec_new(v: u16) -> Address {
        Address(v)
    }

    pub proof fn lemma_spec_new(v: u16)
        ensures
            Self::spec_new(v)@ == v,
    {
    }

    /// Two addresses with one value are one address.
    pub proof fn lemma_view_injective(a: Address, b: Address)
        requires
            a@ == b@,
        ensures
            a == b,
    {
    }

    pub fn new(at: u16) -> (r: Self)
        requires
            at <= ADDRESS_MAX,
        ensures
            r@ == at,
            r == Self::spec_new(at),
    {
        Address(at)
    }

    /// The address `0x000`.
    pub fn zero() -> (r: Self)
        ensures
            r@ == 0,
            r == Self::spec_new(0),
    {
        Address(0)
    }

    /// The address at which a loaded program starts.
    pub fn program_start() -> (r: Self)
        ensures
            r@ == PROGRAM_START_INDEX,
            r == Self::spec_new(0x200),
    {
        Address(0x200)
    }

    /// The address whose three nibbles are `high`, `mid` and `low`.
    pub fn from_triplet(high: u8, mid: u8, low: u8) -> (r: Self)
        requires
            high < 16,
            mid < 16,
            low < 16,
        ensures
            r@ == high * 256 + mid * 16 + low,
            r == Self::spec_new((high * 256 + mid * 16 + low) as u16),
    {
        let inner: u16 = (high as u16) * 256 + (mid as u16) * 16 + (low as u16);
        Address(inner)
    }

    /// Moves to the next address. The last address has none.
    pub fn increment(&mut self)
        requires
            old(self)@ < ADDRESS_MAX,
        ensures
            final(self)@ == old(self)@ + 1,
    {
        let next = self.0 + 1;
        *self = Address(next);
    }

    /// The address as two big-endian bytes.
    pub fn to_bytes(self) -> (r: [u8; 2])
        ensures
            r[0] == self@ / 256,
            r[1] == self@ % 256,
    {
        proof {
            use_type_invariant(&self);
        }
        [(self.0 / 256) as u8, (self.0 % 256) as u8]
    }

    /// The three nibbles of the address, most significant first.
    pub fn to_nibbles(self) -> (r: [u8; 3])
        ensures
            r[0] == self@ / 256,
            r[1] == (self@ / 16) % 16,
            r[2] == self@ % 16,
            r[0] < 16 && r[1] < 16 && r[2] < 16,
    {
        proof {
            use_type_invariant(&self);
        }
        [(self.0 / 256) as u8, ((self.0 / 16) % 16) as u8, (self.0 % 16) as u8]
    }

    pub fn as_u16(self) -> (r: u16)
        ensures
            r == self@,
            r <= ADDRESS_MAX,
    {
        proof {
            use_type_invariant(&self);
        }
        self.0
    }
}

} // verus!
