//! Identities and the derived vault authority.
//!
//! The escrow logic reads an account identity only for equality, so a key is
//! modelled as a plain integer identity: distinct values are distinct
//! signers. The vault authority is the key-less controller of the custody
//! account: a value derived from the program identity and the escrow
//! creator's key, which the escrow logic alone constructs when it authorizes
//! the payout.

use vstd::prelude::*;

verus! {

/// A participant's public key, reduced to what the escrow reads of it:
/// an identity compared for equality.
#[derive(Clone, Copy, PartialEq, Eq, Structural, Debug)]
pub struct Pubkey {
    pub id: u64,
}

/// The disambiguation byte the derivation rule chooses; every derived
/// address is valid in this model, so the canonical first candidate is
/// always taken.
pub const CANONICAL_BUMP: u8 = 255;

/// The key-less signing capability bound to one escrow: deterministically
/// derived from the program identity and the creator's key, with the bump
/// byte that disambiguates the derivation.
#[derive(Clone, Copy, PartialEq, Eq, Structural, Debug)]
pub struct VaultAuthority {
    pub program_id: u64,
    pub owner: Pubkey,
    pub bump: u8,
}

/// What a token account demands of a transfer out of it: either a
/// participant's own signature or the program-derived vault authority.
#[derive(Clone, Copy, PartialEq, Eq, Structural, Debug)]
pub enum Authority {
    Key(Pubkey),
    Vault(VaultAuthority),
}

/// The derivation rule: the same program identity and owner always yield the
/// same authority, and the canonical bump byte.
pub open spec fn spec_derive_authority(program_id: u64, owner: Pubkey) -> VaultAuthority {
    VaultAuthority { program_id, owner, bump: CANONICAL_BUMP }
}

/// Derives the vault authority for an escrow opened by `owner` under the
/// program identified by `program_id`. Deterministic: the same inputs
/// always yield the same authority.
pub fn derive_authority(program_id: u64, owner: Pubkey) -> (r: VaultAuthority)
    ensures
        r == spec_derive_authority(program_id, owner),
{
    VaultAuthority { program_id, owner, bump: CANONICAL_BUMP }
}

} // verus!
