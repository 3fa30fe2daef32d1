//! The trusted boundary to the token ledger service's client library.
//!
//! Two things cross it: reading a mint's current issuing authority out
//! of the raw mint record kept by the ledger, and building the runtime
//! instructions that carry delegated operations to the ledger. The built
//! instruction is opaque to the core; the caller hands it to the runtime
//! unchanged.

use vstd::prelude::*;

use solana_program::instruction::Instruction;
use solana_program::program_error::ProgramError;
use solana_program::program_option::COption;
use solana_program::program_pack::Pack;
use solana_program::pubkey::Pubkey;
use spl_token::instruction::AuthorityType;

use crate::error::FaucetFault;
use crate::ops::{AuthorityKind, DelegatedOp};

verus! {

/// The runtime instruction type of the hosting ledger runtime, opaque to
/// the core.
#[verifier::external_type_specification]
#[verifier::external_body]
pub struct ExInstruction(solana_program::instruction::Instruction);

/// Whether the token ledger client library accepts an identity as its
/// own program identity: the verdict of `spl_token::check_program_account`,
/// a pure function of the identity.
pub uninterp spec fn spl_program_check(id: Seq<u8>) -> bool;

// ---------------------------------------------------------------------
// The mint record, as the token ledger lays it out
// ---------------------------------------------------------------------

/// Whether four bytes at `off` are a valid optional-key tag: a
/// little-endian 0 or 1.
pub open spec fn coption_tag_valid(d: Seq<u8>, off: int) -> bool {
    (d[off] == 0 || d[off] == 1) && d[off + 1] == 0 && d[off + 2] == 0 && d[off + 3] == 0
}

/// Whether a buffer is a well-formed 82-byte mint record: a valid
/// issuing-authority tag at offset 0, an initialization byte of 0 or 1
/// at offset 45, and a valid freeze-authority tag at offset 46.
pub open spec fn mint_data_well_formed(d: Seq<u8>) -> bool {
    &&& d.len() == 82
    &&& coption_tag_valid(d, 0)
    &&& d[45] == 0 || d[45] == 1
    &&& coption_tag_valid(d, 46)
}

/// Whether a well-formed mint record is marked initialized.
pub open spec fn mint_data_initialized(d: Seq<u8>) -> bool {
    d[45] == 1
}

/// The issuing authority stored in a mint record: the 32 bytes after
/// the tag, when the tag says one is present.
pub open spec fn mint_data_authority(d: Seq<u8>) -> Option<Seq<u8>> {
    if d[0] == 1 {
        Some(d.subrange(4, 36))
    } else {
        None
    }
}

/// The fault reported for a mint record that does not read back: a
/// malformed buffer is invalid account data; a well-formed but
/// uninitialized one is an uninitialized account.
pub open spec fn mint_read_err(d: Seq<u8>) -> FaucetFault {
    if !mint_data_well_formed(d) {
        FaucetFault::InvalidAccountData
    } else {
        FaucetFault::UninitializedAccount
    }
}

/// Relies on `spl_token::state::Mint::unpack`: reads the 82-byte mint
/// record laid out as above, failing on any other length, a bad tag or
/// initialization byte, or an uninitialized record.
#[verifier::external_body]
pub(crate) fn read_mint_authority(data: &[u8]) -> (r: Result<Option<[u8; 32]>, FaucetFault>)
    ensures
        match r {
            Ok(auth) => {
                &&& mint_data_well_formed(data@)
                &&& mint_data_initialized(data@)
                &&& match (auth, mint_data_authority(data@)) {
                    (Some(a), Some(s)) => a@ == s,
                    (None, None) => true,
                    _ => false,
                }
            },
            Err(e) => !(mint_data_well_formed(data@) && mint_data_initialized(data@)) && e
                == mint_read_err(data@),
        },
{
    match spl_token::state::Mint::unpack(data) {
        Ok(m) => Ok(match m.mint_authority {
            COption::Some(k) => Some(k.to_bytes()),
            COption::None => None,
        }),
        Err(ProgramError::UninitializedAccount) => {
            Err(FaucetFault::UninitializedAccount)
        },
        Err(_) => Err(FaucetFault::InvalidAccountData),
    }
}

// ---------------------------------------------------------------------
// Instruction builders
// ---------------------------------------------------------------------

/// Relies on `spl_token::instruction::set_authority`: builds the
/// reassignment instruction; it fails exactly when the supplied token
/// program identity is not the ledger service's own.
#[verifier::external_body]
fn spl_set_authority(
    token_program: &[u8; 32],
    account: &[u8; 32],
    new_authority: &[u8; 32],
    kind: AuthorityKind,
    current_authority: &[u8; 32],
) -> (r: Option<Instruction>)
    ensures
        r is Some <==> spl_program_check(token_program@),
{
    spl_token::instruction::set_authority(
        &Pubkey::new_from_array(*token_program),
        &Pubkey::new_from_array(*account),
        Some(&Pubkey::new_from_array(*new_authority)),
        match kind {
            AuthorityKind::HoldingOwner => AuthorityType::AccountOwner,
            AuthorityKind::MintIssuer => AuthorityType::MintTokens,
        },
        &Pubkey::new_from_array(*current_authority),
        &[],
    ).ok()
}

/// Relies on `spl_token::instruction::transfer`: builds the transfer
/// instruction; it fails exactly when the supplied token program
/// identity is not the ledger service's own.
#[verifier::external_body]
fn spl_transfer(
    token_program: &[u8; 32],
    from: &[u8; 32],
    to: &[u8; 32],
    authority: &[u8; 32],
    amount: u64,
) -> (r: Option<Instruction>)
    ensures
        r is Some <==> spl_program_check(token_program@),
{
    #[allow(deprecated)]
    spl_token::instruction::transfer(
        &Pubkey::new_from_array(*token_program),
        &Pubkey::new_from_array(*from),
        &Pubkey::new_from_array(*to),
        &Pubkey::new_from_array(*authority),
        &[],
        amount,
    ).ok()
}

/// Relies on `spl_token::instruction::close_account`: builds the close
/// instruction; it fails exactly when the supplied token program
/// identity is not the ledger service's own.
#[verifier::external_body]
fn spl_close_account(
    token_program: &[u8; 32],
    account: &[u8; 32],
    refund_destination: &[u8; 32],
    authority: &[u8; 32],
) -> (r: Option<Instruction>)
    ensures
        r is Some <==> spl_program_check(token_program@),
{
    spl_token::instruction::close_account(
        &Pubkey::new_from_array(*token_program),
        &Pubkey::new_from_array(*account),
        &Pubkey::new_from_array(*refund_destination),
        &Pubkey::new_from_array(*authority),
        &[],
    ).ok()
}

/// Relies on `spl_token::instruction::mint_to`: builds the mint
/// instruction; it fails exactly when the supplied token program
/// identity is not the ledger service's own.
#[verifier::external_body]
fn spl_mint_to(
    token_program: &[u8; 32],
    mint: &[u8; 32],
    destination: &[u8; 32],
    authority: &[u8; 32],
    amount: u64,
) -> (r: Option<Instruction>)
    ensures
        r is Some <==> spl_program_check(token_program@),
{
    spl_token::instruction::mint_to(
        &Pubkey::new_from_array(*token_program),
        &Pubkey::new_from_array(*mint),
        &Pubkey::new_from_array(*destination),
        &Pubkey::new_from_array(*authority),
        &[],
        amount,
    ).ok()
}

/// Builds the runtime instruction carrying one delegated operation to
/// the given token program. The caller issues it within the same atomic
/// call, signing with the derived authority's seed and nonce where the
/// operation says so.
pub fn realize(op: &DelegatedOp, token_program: &[u8; 32]) -> (r: Option<Instruction>)
    ensures
        r is Some <==> spl_program_check(token_program@),
{
    match op {
        DelegatedOp::ReassignAuthority { account, new_authority, kind, current_authority } => {
            let signer = current_authority.address();
            spl_set_authority(token_program, account, new_authority, *kind, &signer)
        },
        DelegatedOp::Transfer { amount, from, to, authorizing_signer } => {
            let signer = authorizing_signer.address();
            spl_transfer(token_program, from, to, &signer, *amount)
        },
        DelegatedOp::CloseAccount { account, refund_destination, authorizing_signer } => {
            let signer = authorizing_signer.address();
            spl_close_account(token_program, account, refund_destination, &signer)
        },
        DelegatedOp::Mint { amount, mint, destination, authorizing_signer } => {
            let signer = authorizing_signer.address();
            spl_mint_to(token_program, mint, destination, &signer, *amount)
        },
    }
}

} // verus!
