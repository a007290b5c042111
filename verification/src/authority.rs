//! Authority derivation: the protocol-controlled vault authority is derived
//! deterministically from a fixed, publicly known seed and the protocol's own
//! identity. No party holds a private key for the derived address; only the
//! protocol logic, by reproducing the derivation, can act as it.

use vstd::prelude::*;

use crate::account::AccountId;

verus! {

/// The fixed seed from which the vault authority is derived: the ASCII
/// bytes of "escrow".
pub open spec fn escrow_seed_spec() -> Seq<u8> {
    seq![101u8, 115u8, 99u8, 114u8, 111u8, 119u8]
}

/// The seed bytes of the derivation.
pub fn escrow_seed() -> (s: Vec<u8>)
    ensures
        s@ == escrow_seed_spec(),
{
    let mut s: Vec<u8> = Vec::new();
    s.push(101);
    s.push(115);
    s.push(99);
    s.push(114);
    s.push(111);
    s.push(119);
    proof {
        assert(s@ =~= escrow_seed_spec());
    }
    s
}

/// What the host's authority derivation returns for a seed and a program
/// identity: a derived address with its bump discriminant, or nothing in the
/// statistically improbable event that no viable bump exists. The derivation
/// depends on its two arguments alone.
pub uninterp spec fn derived_authority(seed: Seq<u8>, program_id: Seq<u8>) -> Option<(Seq<u8>, u8)>;

/// Relies on solana_program's `Pubkey::try_find_program_address`: a pure
/// search over bump discriminants whose result depends only on the seed and
/// the program id; a returned address is a 32-byte key, and `None` comes
/// back only when no viable bump exists.
#[verifier::external_body]
fn find_authority(seed: &Vec<u8>, program_id: &AccountId) -> (r: Option<(AccountId, u8)>)
    requires
        program_id@.len() == 32,
    ensures
        match r {
            Some(p) => derived_authority(seed@, program_id@) == Some((p.0@, p.1))
                && p.0@.len() == 32,
            None => derived_authority(seed@, program_id@) is None,
        },
{
    let pid = solana_program::pubkey::Pubkey::try_from(program_id.bytes.as_slice()).unwrap();
    match solana_program::pubkey::Pubkey::try_find_program_address(&[seed.as_slice()], &pid) {
        Some((addr, bump)) => Some((AccountId { bytes: addr.to_bytes().to_vec() }, bump)),
        None => None,
    }
}

/// The vault authority for a program identity: the keyless address that
/// holds custody of the vault while an escrow is open, with its bump.
pub open spec fn vault_authority_of(program_id: Seq<u8>) -> Option<(Seq<u8>, u8)> {
    derived_authority(escrow_seed_spec(), program_id)
}

/// Recomputes the vault authority address for a program identity. The
/// derivation is pure and repeatable: the same identity always yields the
/// same address.
pub fn vault_authority(program_id: &AccountId) -> (r: Option<AccountId>)
    requires
        program_id@.len() == 32,
    ensures
        match r {
            Some(a) => (vault_authority_of(program_id@) matches Some(p) && p.0 == a@)
                && a@.len() == 32,
            None => vault_authority_of(program_id@) is None,
        },
{
    let seed = escrow_seed();
    match find_authority(&seed, program_id) {
        Some((a, _bump)) => Some(a),
        None => None,
    }
}

} // verus!
