//! 128-bit service identifiers, compared by full byte equality.

use vstd::prelude::*;
use vstd::bytes::lemma_auto_spec_u16_to_from_le_bytes;
use vstd::bytes::lemma_auto_spec_u32_to_from_le_bytes;
use vstd::bytes::spec_u16_to_le_bytes;
use vstd::bytes::spec_u32_to_le_bytes;

verus! {

/// A 128-bit service identifier: a 32-bit field, two 16-bit fields, and eight
/// explicit bytes, matching the wire layout mandated by the firmware
/// specification.  Identifiers are compared by full byte equality only.
#[derive(Clone, Copy, Debug, Eq, Hash)]
pub struct Guid {
    pub a: u32,
    pub b: u16,
    pub c: u16,
    pub d: [u8; 8],
}

impl PartialEq for Guid {
    fn eq(&self, o: &Guid) -> (r: bool) {
        let r = self.a == o.a && self.b == o.b && self.c == o.c && self.d[0] == o.d[0] && self.d[1]
            == o.d[1] && self.d[2] == o.d[2] && self.d[3] == o.d[3] && self.d[4] == o.d[4]
            && self.d[5] == o.d[5] && self.d[6] == o.d[6] && self.d[7] == o.d[7];
        proof {
            broadcast use vstd::array::axiom_array_ext_equal;

            if r {
                assert forall|i: int| 0 <= i < 8 implies self.d[i] == o.d[i] by {}
                assert(self.d =~= o.d);
            }
        }
        r
    }
}

impl vstd::std_specs::cmp::PartialEqSpecImpl for Guid {
    open spec fn obeys_eq_spec() -> bool {
        true
    }

    open spec fn eq_spec(&self, o: &Guid) -> bool {
        *self == *o
    }
}

impl Guid {
    /// The identifier's 16-byte wire image: the three integer fields in
    /// little-endian order followed by the eight explicit bytes.
    pub open spec fn bytes(self) -> Seq<u8> {
        spec_u32_to_le_bytes(self.a) + spec_u16_to_le_bytes(self.b) + spec_u16_to_le_bytes(self.c)
            + self.d@
    }

    pub fn new(a: u32, b: u16, c: u16, d: [u8; 8]) -> (g: Guid)
        ensures
            g == (Guid { a, b, c, d }),
    {
        Guid { a, b, c, d }
    }
}

/// Identifier equality is reflexive and symmetric.
pub proof fn lemma_guid_eq_reflexive_symmetric(g1: Guid, g2: Guid)
    ensures
        g1 == g1,
        (g1 == g2) <==> (g2 == g1),
{
}

/// Identifier equality is exact-byte: two identifiers are equal exactly when
/// their 16-byte wire images agree, so identifiers differing in any single
/// byte are unequal, and an identifier equals itself field for field.
pub proof fn lemma_guid_eq_bytes(g1: Guid, g2: Guid)
    ensures
        (g1 == g2) <==> (g1.bytes() == g2.bytes()),
        g1.bytes().len() == 16,
{
    lemma_auto_spec_u32_to_from_le_bytes();
    lemma_auto_spec_u16_to_from_le_bytes();
    assert(g1.bytes().len() == 16);
    if g1.bytes() == g2.bytes() {
        assert(spec_u32_to_le_bytes(g1.a) =~= g1.bytes().subrange(0, 4));
        assert(spec_u16_to_le_bytes(g1.b) =~= g1.bytes().subrange(4, 6));
        assert(spec_u16_to_le_bytes(g1.c) =~= g1.bytes().subrange(6, 8));
        assert(g1.d@ =~= g1.bytes().subrange(8, 16));
        assert(spec_u32_to_le_bytes(g2.a) =~= g2.bytes().subrange(0, 4));
        assert(spec_u16_to_le_bytes(g2.b) =~= g2.bytes().subrange(4, 6));
        assert(spec_u16_to_le_bytes(g2.c) =~= g2.bytes().subrange(6, 8));
        assert(g2.d@ =~= g2.bytes().subrange(8, 16));
        assert(g1.a == g2.a) by {
            assert(spec_u32_to_le_bytes(g1.a) == spec_u32_to_le_bytes(g2.a));
        }
        assert(g1.d =~= g2.d);
    }
    if g1 == g2 {
        assert(g1.bytes() =~= g2.bytes());
    }
}

/// Two identifiers whose wire images differ in any single byte are unequal.
pub proof fn lemma_guid_single_byte_difference(g1: Guid, g2: Guid, i: int)
    requires
        0 <= i < 16,
        g1.bytes()[i] != g2.bytes()[i],
    ensures
        g1 != g2,
{
    lemma_guid_eq_bytes(g1, g2);
}

} // verus!
