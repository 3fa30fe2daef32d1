//! Laws of the two services, proved from the handlers' outcome
//! specifications.
//!
//! Each law is stated over the same specification functions the
//! handlers' contracts use, so what is proved here holds of every call
//! the handlers accept. The round-trip laws of the record codecs live
//! beside the codecs themselves.

use vstd::prelude::*;

use crate::account::{balance_view, storage_bytes, AccountHandle};
use crate::ledger::{mint_data_authority, mint_data_initialized, mint_data_well_formed};
use crate::authority::{derived_authority, escrow_seed, faucet_seed};
use crate::error::{EscrowError, EscrowFault, FaucetError, FaucetFault};
use crate::escrow::{
    exchange_fault, init_escrow_fault, init_escrow_ok_post, init_escrow_record,
    key_is_derived_address,
};
use crate::ops::DelegatedOp;
use crate::processor::{
    close_faucet_fault, init_faucet_fault, mint_fault, mint_privileged,
};
use crate::state::{
    escrow_record_valid, faucet_record_valid, lemma_escrow_record_round_trip,
    stored_escrow_amount, stored_escrow_destination, stored_escrow_initialized,
    stored_escrow_initiator, stored_escrow_source_holding, stored_faucet_admin,
    stored_faucet_amount, stored_faucet_initialized, stored_faucet_mint, ESCROW_RECORD_LEN,
    FAUCET_RECORD_LEN,
};

verus! {

// ---------------------------------------------------------------------
// Escrow initiation stores what it was asked to store
// ---------------------------------------------------------------------

/// Law: a successful InitEscrow persists a record whose expected amount
/// is exactly the requested amount, and its one delegated operation
/// hands authority over the source holding to the derived authority
/// address.
pub proof fn lemma_init_escrow_custody(
    pre: Seq<AccountHandle>,
    post: Seq<AccountHandle>,
    ops: Seq<DelegatedOp>,
    amount: u64,
    pid: Seq<u8>,
)
    requires
        init_escrow_ok_post(pre, post, ops, amount, pid),
    ensures
        storage_bytes(post[3].content) matches Some(d) && stored_escrow_amount(d) == amount
            && stored_escrow_initialized(d) && escrow_record_valid(d),
        ops.len() == 1,
        ops[0] matches DelegatedOp::ReassignAuthority { account, new_authority, kind, .. }
            && account == pre[1].key && key_is_derived_address(new_authority, escrow_seed(), pid),
{
    lemma_escrow_record_round_trip(init_escrow_record(pre, amount));
}

// ---------------------------------------------------------------------
// Exchange succeeds exactly when the six ordered checks pass
// ---------------------------------------------------------------------

/// The checks of Exchange on funds and records, in their order:
/// the arity, signer and derivation preconditions, both holdings'
/// service membership and ownership, the taker's confirmation of the
/// custodied balance, the record's state, and the cross-check of the
/// persisted expectation against the taker's deposit.
pub open spec fn exchange_funds_checks(
    accounts: Seq<AccountHandle>,
    amount: u64,
    pid: Seq<u8>,
) -> bool {
    &&& accounts.len() >= 8
    &&& accounts[0].is_signer
    &&& derived_authority(escrow_seed(), pid) is Some
    &&& accounts[1].owner@ == accounts[7].key@
    &&& balance_view(accounts[1].content) is Some
    &&& balance_view(accounts[1].content).unwrap().owner@ == accounts[0].key@
    &&& accounts[2].owner@ == accounts[7].key@
    &&& balance_view(accounts[3].content) is Some
    &&& balance_view(accounts[3].content).unwrap().owner@ == derived_authority(
        escrow_seed(),
        pid,
    ).unwrap().0
    &&& balance_view(accounts[3].content).unwrap().amount == amount
    &&& accounts[6].owner@ == pid
    &&& storage_bytes(accounts[6].content) is Some
    &&& storage_bytes(accounts[6].content).unwrap().len() == ESCROW_RECORD_LEN
    &&& escrow_record_valid(storage_bytes(accounts[6].content).unwrap())
    &&& stored_escrow_initialized(storage_bytes(accounts[6].content).unwrap())
    &&& stored_escrow_amount(storage_bytes(accounts[6].content).unwrap()) == balance_view(
        accounts[1].content,
    ).unwrap().amount
}

/// The last check of Exchange: the supplied holding, destination and
/// initiator accounts are the identities persisted at initiation.
pub open spec fn exchange_identity_checks(accounts: Seq<AccountHandle>) -> bool {
    &&& stored_escrow_source_holding(storage_bytes(accounts[6].content).unwrap())
        == accounts[3].key@
    &&& stored_escrow_destination(storage_bytes(accounts[6].content).unwrap())
        == accounts[5].key@
    &&& stored_escrow_initiator(storage_bytes(accounts[6].content).unwrap())
        == accounts[4].key@
}

/// All the ordered checks of Exchange, as one conjunction.
pub open spec fn exchange_checks_pass(
    accounts: Seq<AccountHandle>,
    amount: u64,
    pid: Seq<u8>,
) -> bool {
    exchange_funds_checks(accounts, amount, pid) && exchange_identity_checks(accounts)
}

/// Law: Exchange reports no fault exactly when every one of its ordered
/// checks passes; any violated check leaves it with the fault that the
/// outcome specification maps to the first violation.
pub proof fn lemma_exchange_succeeds_iff(accounts: Seq<AccountHandle>, amount: u64, pid: Seq<u8>)
    ensures
        exchange_fault(accounts, amount, pid) is None <==> exchange_checks_pass(
            accounts,
            amount,
            pid,
        ),
{
}

/// Law: a taker whose expectation disagrees with the custodied balance
/// is turned away with precisely ExpectedFundsMismatch — the
/// confirmation that the initiator's offer has not changed.
pub proof fn lemma_exchange_taker_confirmation(
    accounts: Seq<AccountHandle>,
    amount: u64,
    pid: Seq<u8>,
)
    requires
        exchange_checks_pass(
            accounts,
            balance_view(accounts[3].content).unwrap().amount,
            pid,
        ),
        amount != balance_view(accounts[3].content).unwrap().amount,
    ensures
        exchange_fault(accounts, amount, pid) == Some(
            EscrowFault::Escrow(EscrowError::ExpectedFundsMismatch),
        ),
{
}

/// Law: with every funds check passing, supplying any account other
/// than the identities persisted at initiation is turned away with
/// precisely UnknownAccount — the guard against redirecting funds to
/// substituted accounts.
pub proof fn lemma_exchange_rejects_substituted_accounts(
    accounts: Seq<AccountHandle>,
    amount: u64,
    pid: Seq<u8>,
)
    requires
        exchange_funds_checks(accounts, amount, pid),
        !exchange_identity_checks(accounts),
    ensures
        exchange_fault(accounts, amount, pid) == Some(
            EscrowFault::Escrow(EscrowError::UnknownAccount),
        ),
{
}

// ---------------------------------------------------------------------
// Re-initialization always fails and overwrites nothing
// ---------------------------------------------------------------------

/// The checks of InitEscrow that precede the record decode.
pub open spec fn init_escrow_prechecks(accounts: Seq<AccountHandle>, pid: Seq<u8>) -> bool {
    &&& accounts.len() >= 5
    &&& accounts[0].is_signer
    &&& accounts[1].owner@ == accounts[4].key@
    &&& balance_view(accounts[1].content) is Some
    &&& balance_view(accounts[1].content).unwrap().owner@ == accounts[0].key@
    &&& accounts[2].owner@ == accounts[4].key@
    &&& accounts[3].owner@ == pid
}

/// Law: InitEscrow on a storage account that already holds an initiated
/// record never succeeds; and when every earlier check passes, it fails
/// with precisely AccountAlreadyInitialized. (That no byte of the
/// record is overwritten on failure is part of the handler's contract:
/// on any fault the account list is returned unchanged.)
pub proof fn lemma_reinit_escrow_fails(accounts: Seq<AccountHandle>, pid: Seq<u8>, d: Seq<u8>)
    requires
        storage_bytes(accounts[3].content) == Some(d),
        d.len() == ESCROW_RECORD_LEN,
        escrow_record_valid(d),
        stored_escrow_initialized(d),
    ensures
        init_escrow_fault(accounts, pid) is Some,
        init_escrow_prechecks(accounts, pid) ==> init_escrow_fault(accounts, pid) == Some(
            EscrowFault::Escrow(EscrowError::AccountAlreadyInitialized),
        ),
{
}

/// The checks of InitFaucet that precede the record decode: the mint
/// record reads back and its issuing authority is the derived authority
/// address.
pub open spec fn init_faucet_prechecks(accounts: Seq<AccountHandle>, pid: Seq<u8>) -> bool {
    &&& accounts.len() >= 3
    &&& derived_authority(faucet_seed(), pid) is Some
    &&& storage_bytes(accounts[0].content) is Some
    &&& mint_data_well_formed(storage_bytes(accounts[0].content).unwrap())
    &&& mint_data_initialized(storage_bytes(accounts[0].content).unwrap())
    &&& mint_data_authority(storage_bytes(accounts[0].content).unwrap()) == Some(
        derived_authority(faucet_seed(), pid).unwrap().0,
    )
}

/// Law: InitFaucet on a storage account that already holds an initiated
/// record never succeeds; and when every earlier check passes, it fails
/// with precisely AccountAlreadyInUse. (That no byte of the record is
/// overwritten on failure is part of the handler's contract: on any
/// fault the account list is returned unchanged.)
pub proof fn lemma_reinit_faucet_fails(
    accounts: Seq<AccountHandle>,
    pid: Seq<u8>,
    d: Seq<u8>,
    rent_exempt: bool,
)
    requires
        accounts.len() >= 2,
        storage_bytes(accounts[1].content) == Some(d),
        d.len() == FAUCET_RECORD_LEN,
        faucet_record_valid(d),
        stored_faucet_initialized(d),
    ensures
        init_faucet_fault(accounts, pid, rent_exempt) is Some,
        init_faucet_prechecks(accounts, pid) ==> init_faucet_fault(accounts, pid, rent_exempt)
            == Some(FaucetFault::Faucet(FaucetError::AccountAlreadyInUse)),
{
}

// ---------------------------------------------------------------------
// The per-call cap binds exactly the unprivileged
// ---------------------------------------------------------------------

/// The checks of MintTokens that precede the cap decision.
pub open spec fn mint_prechecks(accounts: Seq<AccountHandle>, pid: Seq<u8>, fd: Seq<u8>) -> bool {
    &&& accounts.len() >= 5
    &&& derived_authority(faucet_seed(), pid) matches Some(auth) && auth.0 == accounts[0].key@
    &&& storage_bytes(accounts[4].content) == Some(fd)
    &&& faucet_record_valid(fd)
    &&& stored_faucet_mint(fd) == accounts[1].key@
}

/// Law: once MintTokens' earlier checks pass, an unprivileged call
/// succeeds exactly when the amount stays within the per-call cap,
/// failing with RequestingTooManyTokens above it; a call whose supplied
/// admin signed and matches the stored admin succeeds at any amount.
pub proof fn lemma_mint_cap(accounts: Seq<AccountHandle>, amount: u64, pid: Seq<u8>, fd: Seq<u8>)
    requires
        mint_prechecks(accounts, pid, fd),
    ensures
        !mint_privileged(accounts, fd) && amount > stored_faucet_amount(fd) ==> mint_fault(
            accounts,
            amount,
            pid,
        ) == Some(FaucetFault::Faucet(FaucetError::RequestingTooManyTokens)),
        !mint_privileged(accounts, fd) && amount <= stored_faucet_amount(fd) ==> mint_fault(
            accounts,
            amount,
            pid,
        ) is None,
        mint_privileged(accounts, fd) ==> mint_fault(accounts, amount, pid) is None,
{
}

// ---------------------------------------------------------------------
// Closure is gated on the stored admin
// ---------------------------------------------------------------------

/// The checks of CloseFaucet that precede the admin decision: the
/// record reads back initiated and the first account signed the call.
pub open spec fn close_prechecks(accounts: Seq<AccountHandle>, fd: Seq<u8>) -> bool {
    &&& accounts.len() >= 2
    &&& storage_bytes(accounts[1].content) == Some(fd)
    &&& fd.len() == FAUCET_RECORD_LEN
    &&& faucet_record_valid(fd)
    &&& stored_faucet_initialized(fd)
    &&& accounts[0].is_signer
}

/// Law: once CloseFaucet's earlier checks pass, a faucet that stores no
/// admin fails with NonClosableFaucetClosureAttempt, and a signer other
/// than the stored admin fails with NonAdminClosureAttempt. (That on
/// success the storage account's balance drops to zero and the
/// destination gains exactly that balance is part of the handler's
/// contract.)
pub proof fn lemma_close_gating(accounts: Seq<AccountHandle>, pid: Seq<u8>, fd: Seq<u8>)
    requires
        close_prechecks(accounts, fd),
    ensures
        stored_faucet_admin(fd) is None ==> close_faucet_fault(accounts, pid) == Some(
            FaucetFault::Faucet(FaucetError::NonClosableFaucetClosureAttempt),
        ),
        stored_faucet_admin(fd) matches Some(a) && a != accounts[0].key@ ==> close_faucet_fault(
            accounts,
            pid,
        ) == Some(FaucetFault::Faucet(FaucetError::NonAdminClosureAttempt)),
{
}

} // verus!
