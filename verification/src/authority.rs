//! Derivation of the program authority address.
//!
//! The authority is a deterministic, key-less identity computed from
//! static seed bytes and the program's own identity, together with the
//! disambiguation nonce found during the search. It is the recorded owner
//! of custodied balances: only this program's logic can produce it as a
//! transaction signer, by supplying the seed and nonce.

use vstd::prelude::*;

verus! {

/// The derived authority address and the nonce that reproduces it.
#[derive(Clone, Copy, Debug, PartialEq, Eq)]
pub struct Authority {
    /// The derived address.
    pub address: [u8; 32],
    /// The disambiguation nonce the derivation settled on.
    pub nonce: u8,
}

/// The address and nonce that the ledger runtime's derivation yields for
/// a seed and a program identity, or nothing in the statistically
/// improbable event that no viable nonce exists. The result depends on
/// the two arguments alone.
pub uninterp spec fn derived_authority(seed: Seq<u8>, program_id: Seq<u8>) -> Option<(Seq<u8>, u8)>;

/// The address/nonce view of a derivation result.
pub open spec fn authority_view(r: Option<Authority>) -> Option<(Seq<u8>, u8)> {
    match r {
        Some(a) => Some((a.address@, a.nonce)),
        None => None,
    }
}

/// Relies on `Pubkey::try_find_program_address`: searches nonces for an
/// off-curve address derived from the seed and program identity; the
/// result is a pure function of its arguments, and `None` is returned
/// instead of panicking when no nonce works.
#[verifier::external_body]
fn find_authority(seed: &[u8], program_id: &[u8; 32]) -> (r: Option<Authority>)
    ensures
        authority_view(r) == derived_authority(seed@, program_id@),
{
    let pid = solana_program::pubkey::Pubkey::new_from_array(*program_id);
    match solana_program::pubkey::Pubkey::try_find_program_address(&[seed], &pid) {
        Some((address, nonce)) => Some(Authority { address: address.to_bytes(), nonce }),
        None => None,
    }
}

/// The static seed of the escrow service's authority.
pub open spec fn escrow_seed() -> Seq<u8> {
    seq![101u8, 115u8, 99u8, 114u8, 111u8, 119u8]
}

/// The static seed of the faucet service's authority.
pub open spec fn faucet_seed() -> Seq<u8> {
    seq![102u8, 97u8, 117u8, 99u8, 101u8, 116u8]
}

/// The escrow seed, `b"escrow"`.
pub fn escrow_seed_bytes() -> (r: [u8; 6])
    ensures
        r@ == escrow_seed(),
{
    let r: [u8; 6] = [101, 115, 99, 114, 111, 119];
    assert(r@ =~= escrow_seed());
    r
}

/// The faucet seed, `b"faucet"`.
pub fn faucet_seed_bytes() -> (r: [u8; 6])
    ensures
        r@ == faucet_seed(),
{
    let r: [u8; 6] = [102, 97, 117, 99, 101, 116];
    assert(r@ =~= faucet_seed());
    r
}

/// Derives the program authority for a seed and a program identity.
pub fn derive_authority(seed: &[u8], program_id: &[u8; 32]) -> (r: Option<Authority>)
    ensures
        authority_view(r) == derived_authority(seed@, program_id@),
{
    find_authority(seed, program_id)
}

/// Derives the escrow service's authority for a program identity.
pub fn escrow_authority(program_id: &[u8; 32]) -> (r: Option<Authority>)
    ensures
        authority_view(r) == derived_authority(escrow_seed(), program_id@),
{
    let seed = escrow_seed_bytes();
    find_authority(seed.as_slice(), program_id)
}

/// Derives the faucet service's authority for a program identity.
pub fn faucet_authority(program_id: &[u8; 32]) -> (r: Option<Authority>)
    ensures
        authority_view(r) == derived_authority(faucet_seed(), program_id@),
{
    let seed = faucet_seed_bytes();
    find_authority(seed.as_slice(), program_id)
}

} // verus!
