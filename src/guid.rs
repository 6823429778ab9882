//! 128-bit protocol identifiers.
use vstd::prelude::*;

verus! {

/// The canonical 16-byte encoding of a GUID from its four field groups:
/// a 32-bit and two 16-bit little-endian integers, then eight bytes as given.
pub open spec fn guid_encoding(d1: u32, d2: u16, d3: u16, d4: Seq<u8>) -> Seq<u8> {
    seq![
        (d1 & 0xff) as u8,
        ((d1 >> 8) & 0xff) as u8,
        ((d1 >> 16) & 0xff) as u8,
        ((d1 >> 24) & 0xff) as u8,
        (d2 & 0xff) as u8,
        ((d2 >> 8) & 0xff) as u8,
        (d3 & 0xff) as u8,
        ((d3 >> 8) & 0xff) as u8,
    ] + d4
}

/// A globally unique identifier naming a firmware interface.
///
/// Immutable once built; two GUIDs name the same protocol exactly when their
/// sixteen bytes are equal.
#[derive(Clone, Copy, Debug)]
pub struct Guid {
    bytes: [u8; 16],
}

impl View for Guid {
    type V = Seq<u8>;

    closed spec fn view(&self) -> Seq<u8> {
        self.bytes@
    }
}

impl Guid {
    /// Every GUID is sixteen bytes long.
    pub proof fn lemma_len(self)
        ensures
            self@.len() == 16,
    {
    }

    /// Two GUIDs with the same bytes are the same value.
    pub proof fn lemma_view_injective(a: Guid, b: Guid)
        requires
            a@ == b@,
        ensures
            a == b,
    {
        assert(a.bytes =~= b.bytes);
    }

    /// Builds a GUID from its canonical field groups.
    pub fn new(d1: u32, d2: u16, d3: u16, d4: [u8; 8]) -> (g: Guid)
        ensures
            g@ == guid_encoding(d1, d2, d3, d4@),
    {
        let g = Guid {
            bytes: [
                (d1 & 0xff) as u8,
                ((d1 >> 8) & 0xff) as u8,
                ((d1 >> 16) & 0xff) as u8,
                ((d1 >> 24) & 0xff) as u8,
                (d2 & 0xff) as u8,
                ((d2 >> 8) & 0xff) as u8,
                (d3 & 0xff) as u8,
                ((d3 >> 8) & 0xff) as u8,
                d4[0],
                d4[1],
                d4[2],
                d4[3],
                d4[4],
                d4[5],
                d4[6],
                d4[7],
            ],
        };
        assert(g@ =~= guid_encoding(d1, d2, d3, d4@));
        g
    }

    /// Builds a GUID from its sixteen bytes in canonical order.
    pub fn from_bytes(bytes: [u8; 16]) -> (g: Guid)
        ensures
            g@ == bytes@,
    {
        Guid { bytes }
    }

    /// The sixteen bytes of this GUID in canonical order.
    pub fn to_bytes(&self) -> (r: [u8; 16])
        ensures
            r@ == self@,
    {
        self.bytes
    }

    /// Byte-wise equality: whether both GUIDs name the same protocol.
    pub fn same_as(&self, other: &Guid) -> (r: bool)
        ensures
            r == (self@ == other@),
    {
        let mut i: usize = 0;
        while i < 16
            invariant
                i <= 16,
                self@.len() == 16,
                other@.len() == 16,
                forall|j: int| 0 <= j < i ==> self@[j] == other@[j],
            decreases 16 - i,
        {
            if self.bytes[i] != other.bytes[i] {
                return false;
            }
            i = i + 1;
        }
        assert(self@ =~= other@);
        true
    }
}

impl PartialEq for Guid {
    fn eq(&self, other: &Guid) -> (r: bool) {
        self.same_as(other)
    }
}

impl vstd::std_specs::cmp::PartialEqSpecImpl for Guid {
    open spec fn obeys_eq_spec() -> bool {
        true
    }

    open spec fn eq_spec(&self, other: &Guid) -> bool {
        self@ == other@
    }
}

impl Eq for Guid {
}

} // verus!
