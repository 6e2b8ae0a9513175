//! Account addresses.

use vstd::prelude::*;
use vstd::std_specs::cmp::PartialEqSpecImpl;

verus! {

/// The address of an account: 32 bytes.
#[derive(Clone, Copy, Debug)]
pub struct Address {
    pub bytes: [u8; 32],
}

impl View for Address {
    type V = Seq<u8>;

    open spec fn view(&self) -> Seq<u8> {
        self.bytes@
    }
}

impl PartialEq for Address {
    fn eq(&self, other: &Address) -> (r: bool) {
        let mut i: usize = 0;
        while i < 32
            invariant
                i <= 32,
                forall|j: int| 0 <= j < i ==> self.bytes@[j] == other.bytes@[j],
            decreases 32 - i,
        {
            if self.bytes[i] != other.bytes[i] {
                return false;
            }
            i = i + 1;
        }
        assert(self.bytes@ =~= other.bytes@);
        true
    }
}

impl Eq for Address {

}

impl PartialEqSpecImpl for Address {
    open spec fn obeys_eq_spec() -> bool {
        true
    }

    open spec fn eq_spec(&self, other: &Address) -> bool {
        self@ == other@
    }
}

impl Address {
    /// The address made of `bytes`.
    pub fn new(bytes: [u8; 32]) -> (r: Address)
        ensures
            r.bytes == bytes,
    {
        Address { bytes }
    }

    /// Addresses with the same bytes are the same address.
    pub proof fn same_bytes(self, other: Address)
        requires
            self@ == other@,
        ensures
            self == other,
    {
        assert(self.bytes =~= other.bytes);
    }
}

/// The bytes of the address under which the program is deployed.
pub open spec fn program_id_bytes() -> Seq<u8> {
    seq![
        101u8, 234, 91, 93, 171, 24, 187, 57, 165, 8, 188, 75, 10, 132, 204, 203,
        151, 6, 30, 58, 101, 56, 194, 200, 112, 101, 128, 71, 42, 46, 204, 12,
    ]
}

/// The address under which the program is deployed, written
/// `7rqSkHiGHGJEbTNsQsDKEfkdxdqcx9EyTPdKW3Vju7um` in base 58.
pub fn program_id() -> (r: Address)
    ensures
        r@ == program_id_bytes(),
{
    let r = Address {
        bytes: [
            101, 234, 91, 93, 171, 24, 187, 57, 165, 8, 188, 75, 10, 132, 204, 203,
            151, 6, 30, 58, 101, 56, 194, 200, 112, 101, 128, 71, 42, 46, 204, 12,
        ],
    };
    assert(r@ =~= program_id_bytes());
    r
}

} // verus!
