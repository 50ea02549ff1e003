use vstd::prelude::*;

use crate::data::Datum;

verus! {

/// The set of keys held down, one bit per key `0x0..=0xF`.
#[derive(Debug, Copy, Clone, PartialEq, Eq, Structural)]
pub struct Keys(u16);

/// Whether bit `k` of `bits` is set.
pub open spec fn bit_set(bits: u16, k: u16) -> bool {
    (bits >> k) & 1u16 == 1u16
}

proof fn lemma_or_bit(x: u16, i: u16, j: u16)
    requires
        i < 16,
        j < 16,
    ensures
        bit_set(x | (1u16 << i), j) == (j == i || bit_set(x, j)),
{
    assert(((x | (1u16 << i)) >> j) & 1u16 == 1u16 <==> (j == i || (x >> j) & 1u16 == 1u16))
        by (bit_vector)
        requires
            i < 16,
            j < 16,
    ;
}

proof fn lemma_single_bit(x: u16, i: u16)
    requires
        i < 16,
    ensures
        x == (1u16 << i) <==> (forall|j: u16| j < 16 ==> (bit_set(x, j) <==> j == i)),
{
    assert forall|j: u16| j < 16 && x == (1u16 << i) implies (bit_set(x, j) <==> j == i) by {
        assert(x == (1u16 << i) ==> (((x >> j) & 1u16 == 1u16) <==> j == i)) by (bit_vector)
            requires
                i < 16,
                j < 16,
        ;
    }
    if forall|j: u16| j < 16 ==> (bit_set(x, j) <==> j == i) {
        let b0 = bit_set(x, 0u16);
        assert(bit_set(x, 0u16) == (0u16 == i) && bit_set(x, 1u16) == (1u16 == i)
            && bit_set(x, 2u16) == (2u16 == i) && bit_set(x, 3u16) == (3u16 == i)
            && bit_set(x, 4u16) == (4u16 == i) && bit_set(x, 5u16) == (5u16 == i)
            && bit_set(x, 6u16) == (6u16 == i) && bit_set(x, 7u16) == (7u16 == i)
            && bit_set(x, 8u16) == (8u16 == i) && bit_set(x, 9u16) == (9u16 == i)
            && bit_set(x, 10u16) == (10u16 == i) && bit_set(x, 11u16) == (11u16 == i)
            && bit_set(x, 12u16) == (12u16 == i) && bit_set(x, 13u16) == (13u16 == i)
            && bit_set(x, 14u16) == (14u16 == i) && bit_set(x, 15u16) == (15u16 == i));
        assert(x == (1u16 << i)) by (bit_vector)
            requires
                i < 16,
                ((x >> 0u16) & 1u16 == 1u16) == (0u16 == i),
                ((x >> 1u16) & 1u16 == 1u16) == (1u16 == i),
                ((x >> 2u16) & 1u16 == 1u16) == (2u16 == i),
                ((x >> 3u16) & 1u16 == 1u16) == (3u16 == i),
                ((x >> 4u16) & 1u16 == 1u16) == (4u16 == i),
                ((x >> 5u16) & 1u16 == 1u16) == (5u16 == i),
                ((x >> 6u16) & 1u16 == 1u16) == (6u16 == i),
                ((x >> 7u16) & 1u16 == 1u16) == (7u16 == i),
                ((x >> 8u16) & 1u16 == 1u16) == (8u16 == i),
                ((x >> 9u16) & 1u16 == 1u16) == (9u16 == i),
                ((x >> 10u16) & 1u16 == 1u16) == (10u16 == i),
                ((x >> 11u16) & 1u16 == 1u16) == (11u16 == i),
                ((x >> 12u16) & 1u16 == 1u16) == (12u16 == i),
                ((x >> 13u16) & 1u16 == 1u16) == (13u16 == i),
                ((x >> 14u16) & 1u16 == 1u16) == (14u16 == i),
                ((x >> 15u16) & 1u16 == 1u16) == (15u16 == i),
        ;
    }
}

pub proof fn lemma_and_single(x: u16, v: u16)
    requires
        v < 16,
    ensures
        (x & (1u16 << v) != 0) == bit_set(x, v),
{
    assert((x & (1u16 << v) != 0u16) == ((x >> v) & 1u16 == 1u16)) by (bit_vector)
        requires
            v < 16,
    ;
}

proof fn lemma_shift_injective(a: u16, b: u16)
    requires
        a < 16,
        b < 16,
        (1u16 << a) == (1u16 << b),
    ensures
        a == b,
{
    assert(a == b) by (bit_vector)
        requires
            a < 16,
            b < 16,
            (1u16 << a) == (1u16 << b),
    ;
}

impl Keys {
    /// No key, or two different keys, down: no single key. Exactly key `k`
    /// down: that key.
    pub proof fn lemma_one_key(self)
        ensures
            self@ == 0 ==> self.spec_one_key().is_none(),
            (exists|a: u16, b: u16| a < 16 && b < 16 && a != b && #[trigger] self.is_down(a) && #[trigger] self.is_down(b))
                ==> self.spec_one_key().is_none(),
            forall|k: u16| k < 16 && self@ == (1u16 << k) ==> #[trigger] self.spec_one_key() == Some(k as u8),
    {
        if exists|k: u16| k < 16 && self@ == (1u16 << k) {
            let c = choose|k: u16| k < 16 && self@ == (1u16 << k);
            let x = self@;
            assert(x != 0u16) by (bit_vector)
                requires
                    c < 16,
                    x == (1u16 << c),
            ;
            lemma_single_bit(x, c);
            assert forall|k: u16| k < 16 && self@ == (1u16 << k) implies self.spec_one_key() == Some(k as u8) by {
                lemma_shift_injective(c, k);
            }
        }
    }

    /// The bits of the set, bit `k` for key `k`.
    pub closed spec fn view(self) -> u16 {
        self.0
    }

    /// Whether key `k` is down.
    pub open spec fn is_down(self, k: u16) -> bool {
        bit_set(self@, k)
    }

    /// The key that is down, where exactly one is.
    pub open spec fn spec_one_key(self) -> Option<u8> {
        if exists|k: u16| k < 16 && self@ == (1u16 << k) {
            Some((choose|k: u16| k < 16 && self@ == (1u16 << k)) as u8)
        } else {
            None
        }
    }

    pub open spec fn spec_pressed(self) -> bool {
        self@ != 0
    }

    /// The keys that `raw` marks as down.
    pub fn from_raw(raw: [bool; 16]) -> (r: Self)
        ensures
            forall|k: u16| k < 16 ==> (#[trigger] r.is_down(k) <==> raw[k as int]),
    {
        let mut s: u16 = 0;
        let mut i: usize = 0;
        proof {
            assert forall|k: u16| k < 16 implies !bit_set(0u16, k) by {
                assert((0u16 >> k) & 1u16 == 0u16) by (bit_vector);
            }
        }
        while i < 16
            invariant
                i <= 16,
                forall|k: u16| k < 16 ==> (bit_set(s, k) <==> (k < i && raw[k as int])),
            decreases 16 - i,
        {
            let down = raw[i];
            if down {
                let bit: u16 = 1u16 << (i as u16);
                let next: u16 = s | bit;
                proof {
                    assert forall|k: u16| k < 16 implies bit_set(next, k) <==> (k < i + 1
                        && raw[k as int]) by {
                        lemma_or_bit(s, i as u16, k);
                    }
                }
                s = next;
            } else {
                assert forall|k: u16| k < 16 implies bit_set(s, k) <==> (k < i + 1 && raw[k as int]) by {
                    if k == i {
                        assert(!raw[k as int]);
                    }
                }
            }
            i = i + 1;
        }
        Keys(s)
    }

    /// The single key `value`.
    pub fn from_number(value: u8) -> (r: Self)
        requires
            value < 16,
        ensures
            r@ == 1u16 << value,
            r.spec_one_key() == Some(value),
    {
        let r = Keys(1u16 << (value as u16));
        proof {
            let k = value as u16;
            assert(r.0 == 1u16 << k);
            let c = choose|j: u16| j < 16 && r@ == (1u16 << j);
            lemma_single_bit(r.0, c);
            lemma_single_bit(r.0, k);
            assert(bit_set(r.0, k));
        }
        r
    }

    /// The single key named by a register value.
    pub fn from_datum(datum: Datum) -> (r: Self)
        requires
            datum.0 < 16,
        ensures
            r@ == 1u16 << datum.0,
            r.spec_one_key() == Some(datum.0),
    {
        Self::from_number(datum.0)
    }

    /// Whether any key is down.
    pub fn pressed(&self) -> (r: bool)
        ensures
            r == self.spec_pressed(),
    {
        self.0 != 0
    }

    /// The key that is down, where exactly one is; `None` where no key or
    /// more than one is down.
    pub fn one_key(&self) -> (r: Option<Datum>)
        ensures
            r == (match self.spec_one_key() {
                Some(k) => Some(Datum(k)),
                None => None,
            }),
    {
        let mut i: u16 = 0;
        while i < 16
            invariant
                i <= 16,
                forall|j: u16| j < i ==> self.0 != (1u16 << j),
            decreases 16 - i,
        {
            if self.0 == (1u16 << i) {
                proof {
                    let c = choose|k: u16| k < 16 && self@ == (1u16 << k);
                    lemma_single_bit(self.0, c);
                    lemma_single_bit(self.0, i);
                    assert(bit_set(self.0, i));
                }
                return Some(Datum(i as u8));
            }
            i = i + 1;
        }
        None
    }

    /// The keys down in both sets.
    pub fn bitand(self, rhs: Self) -> (r: Self)
        ensures
            r@ == self@ & rhs@,
    {
        Keys(self.0 & rhs.0)
    }
}

} // verus!
