//! Deterministic derivation of a record's storage address.
//!
//! Each identity owns at most one counter record, stored at the address
//! derived from the fixed label `"base_account"`, the identity's public
//! key, and the program's identity. The derivation itself is the host
//! ecosystem's one-way hash search; this module names its result and
//! builds the seeds this program uses.

use vstd::prelude::*;

use crate::identity::Pubkey;

verus! {

/// What program-address derivation returns for given seeds and program
/// identity: the 32-byte derived address and the disambiguating bump the
/// search settled on, or `None` in the statistically improbable event
/// that no bump yields a valid address. The outcome is a pure function
/// of the seeds and the program identity.
pub uninterp spec fn derive_result(seeds: Seq<Seq<u8>>, program_id: Seq<u8>) -> Option<
    (Seq<u8>, u8),
>;

/// Relies on solana_pubkey::Pubkey::try_find_program_address: a
/// deterministic search over bump values, hashing the seeds, the bump and
/// the program id, whose result depends on those inputs alone and which
/// returns `None` rather than panicking when no bump works.
#[verifier::external_body]
fn try_find_program_address(seeds: &Vec<Vec<u8>>, program_id: &Pubkey) -> (r: Option<(Pubkey, u8)>)
    ensures
        (match r {
            Some(p) => derive_result(seeds.deep_view(), program_id@) == Some((p.0@, p.1)),
            None => derive_result(seeds.deep_view(), program_id@) is None,
        }),
{
    let seed_slices: Vec<&[u8]> = seeds.iter().map(|s| s.as_slice()).collect();
    let pid = solana_pubkey::Pubkey::new_from_array(program_id.bytes);
    solana_pubkey::Pubkey::try_find_program_address(&seed_slices, &pid).map(
        |p: (solana_pubkey::Pubkey, u8)| (Pubkey { bytes: p.0.to_bytes() }, p.1),
    )
}

/// The fixed seed label `"base_account"`, as ASCII bytes.
pub open spec fn base_account_label() -> Seq<u8> {
    seq![98u8, 97u8, 115u8, 101u8, 95u8, 97u8, 99u8, 99u8, 111u8, 117u8, 110u8, 116u8]
}

/// The seeds a record's address is derived from: the fixed label, then
/// the creating identity's public key bytes.
pub open spec fn base_account_seeds(user: Seq<u8>) -> Seq<Seq<u8>> {
    seq![base_account_label(), user]
}

fn base_account_label_bytes() -> (r: Vec<u8>)
    ensures
        r@ == base_account_label(),
{
    let mut v: Vec<u8> = Vec::new();
    v.push(98u8);
    v.push(97u8);
    v.push(115u8);
    v.push(101u8);
    v.push(95u8);
    v.push(97u8);
    v.push(99u8);
    v.push(99u8);
    v.push(111u8);
    v.push(117u8);
    v.push(110u8);
    v.push(116u8);
    proof {
        assert(v@ =~= base_account_label());
    }
    v
}

/// The canonical storage address of `user`'s counter record under the
/// program named by `program_id`, with the bump that disambiguates it.
pub fn derive_base_account_address(user: &Pubkey, program_id: &Pubkey) -> (r: Option<(Pubkey, u8)>)
    ensures
        (match r {
            Some(p) => derive_result(base_account_seeds(user@), program_id@) == Some((p.0@, p.1)),
            None => derive_result(base_account_seeds(user@), program_id@) is None,
        }),
{
    let label = base_account_label_bytes();
    let user_bytes = vstd::slice::slice_to_vec(user.bytes.as_slice());
    let mut seeds: Vec<Vec<u8>> = Vec::new();
    seeds.push(label);
    seeds.push(user_bytes);
    proof {
        assert(seeds.deep_view() =~~= base_account_seeds(user@));
    }
    try_find_program_address(&seeds, program_id)
}

} // verus!
