//! Public identities: 32-byte public keys, compared byte for byte.

use vstd::prelude::*;

verus! {

broadcast use vstd::array::group_array_axioms;

/// A public cryptographic key naming a transaction participant, and also
/// the address of a record's storage. Always exactly 32 bytes.
#[derive(Clone, Copy, Debug)]
pub struct Pubkey {
    pub bytes: [u8; 32],
}

impl View for Pubkey {
    type V = Seq<u8>;

    open spec fn view(&self) -> Seq<u8> {
        self.bytes@
    }
}

impl PartialEq for Pubkey {
    fn eq(&self, other: &Pubkey) -> (r: bool) {
        let mut i: usize = 0;
        while i < 32
            invariant
                i <= 32,
                forall|j: int| 0 <= j < i ==> self.bytes@[j] == other.bytes@[j],
            decreases 32 - i,
        {
            if self.bytes[i] != other.bytes[i] {
                return false;
            }
            i = i + 1;
        }
        proof {
            assert(self.bytes@ =~= other.bytes@);
        }
        true
    }
}

impl vstd::std_specs::cmp::PartialEqSpecImpl for Pubkey {
    open spec fn obeys_eq_spec() -> bool {
        true
    }

    open spec fn eq_spec(&self, other: &Pubkey) -> bool {
        self@ == other@
    }
}

/// The bytes of the single fixed identity naming this program to the host.
pub open spec fn program_id_bytes() -> Seq<u8> {
    seq![
        218u8, 7u8, 92u8, 178u8, 255u8, 94u8, 198u8, 129u8, 118u8, 19u8, 222u8, 83u8, 11u8, 105u8,
        42u8, 135u8, 53u8, 71u8, 119u8, 105u8, 218u8, 71u8, 67u8, 12u8, 189u8, 129u8, 84u8, 51u8,
        92u8, 74u8, 131u8, 39u8,
    ]
}

/// The program's fixed identity: the 32 bytes that the base58 form
/// `Fg6PaFpoGXkYsidMpWTK6W2BeZ7FEfcYkg476zPFsLnS` decodes to.
pub fn program_id() -> (r: Pubkey)
    ensures
        r@ == program_id_bytes(),
{
    let bytes: [u8; 32] = [
        218, 7, 92, 178, 255, 94, 198, 129, 118, 19, 222, 83, 11, 105, 42, 135, 53, 71, 119, 105,
        218, 71, 67, 12, 189, 129, 84, 51, 92, 74, 131, 39,
    ];
    proof {
        assert(bytes@ =~= program_id_bytes());
    }
    Pubkey { bytes }
}

} // verus!
