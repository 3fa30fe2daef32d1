//! The escrow processor.
//!
//! States of one escrow storage account: uninitialized, initiated, and
//! settled. InitEscrow persists the record and hands authority over the
//! initiator's source holding to the derived program authority — the
//! custody mechanism: the program never takes physical custody of
//! funds, it acquires delegated spending authority. Exchange validates
//! six ordered checks and, on success, returns the three delegated
//! operations that settle the swap, zeroing the record to retire it (an
//! all-zero buffer is the uninitialized encoding, so a settled record
//! reads back as consumed). Cancel is declared in the protocol surface
//! with no specified effect; it is processed as an explicit no-op.
//!
//! Each handler validates in a fixed order and reports the first failing
//! check; nothing is mutated and no operation is issued unless every
//! check passes.

use vstd::prelude::*;

use crate::account::{
    balance_view, same_but_content, set_storage, storage_bytes, AccountHandle,
};
use crate::authority::{derived_authority, escrow_authority, escrow_seed};
use crate::error::{EscrowError, EscrowFault};
use crate::instruction::{parse_escrow_instruction, EscrowInstruction};
use crate::key_eq;
use crate::ops::{AuthorityKind, DelegatedOp, OpSigner};
use crate::state::{
    escrow_record_bytes, escrow_record_valid, stored_escrow_amount, stored_escrow_destination,
    stored_escrow_initialized, stored_escrow_initiator, stored_escrow_source_holding,
    EscrowRecord, ESCROW_RECORD_LEN,
};

verus! {

/// The escrow request handler.
pub struct EscrowProcessor;

/// Whether `k` is the derived authority address of `seed` for program
/// `pid`.
pub open spec fn key_is_derived_address(k: [u8; 32], seed: Seq<u8>, pid: Seq<u8>) -> bool {
    derived_authority(seed, pid) matches Some(a) && a.0 == k@
}

/// Whether an operation's signer is the derived authority of `seed` for
/// program `pid`, nonce included.
pub open spec fn escrow_signer_is_derived(s: OpSigner, pid: Seq<u8>) -> bool {
    s matches OpSigner::Derived(a) && derived_authority(escrow_seed(), pid) == Some(
        (a.address@, a.nonce),
    )
}

/// The all-zero buffer that a settled record leaves behind.
pub open spec fn retired_escrow_bytes() -> Seq<u8> {
    Seq::new(ESCROW_RECORD_LEN as nat, |i: int| 0u8)
}

// ---------------------------------------------------------------------
// InitEscrow
// ---------------------------------------------------------------------

/// The record InitEscrow persists.
pub open spec fn init_escrow_record(accounts: Seq<AccountHandle>, amount: u64) -> EscrowRecord {
    EscrowRecord {
        initialized: true,
        initiator_identity: accounts[0].key,
        source_holding_identity: accounts[1].key,
        destination_identity: accounts[2].key,
        expected_amount: amount,
    }
}

/// The first failing check of InitEscrow, or `None` when every check
/// passes. Account positions: 0 the initiator, 1 the source holding, 2
/// the initiator's destination, 3 the escrow storage account, 4 the
/// token ledger program.
pub open spec fn init_escrow_fault(
    accounts: Seq<AccountHandle>,
    pid: Seq<u8>,
) -> Option<EscrowFault> {
    if accounts.len() < 5 {
        Some(EscrowFault::MissingAccount)
    } else if !accounts[0].is_signer {
        Some(EscrowFault::MissingRequiredSignature)
    } else if accounts[1].owner@ != accounts[4].key@ {
        Some(EscrowFault::NotOwnedByLedgerService)
    } else {
        match balance_view(accounts[1].content) {
            None => Some(EscrowFault::InvalidAccountData),
            Some(bv) => if bv.owner@ != accounts[0].key@ {
                Some(EscrowFault::WrongHoldingAuthority)
            } else if accounts[2].owner@ != accounts[4].key@ {
                Some(EscrowFault::NotOwnedByLedgerService)
            } else if accounts[3].owner@ != pid {
                Some(EscrowFault::StorageNotProgramOwned)
            } else {
                match storage_bytes(accounts[3].content) {
                    None => Some(EscrowFault::InvalidAccountData),
                    Some(d) => if d.len() != ESCROW_RECORD_LEN {
                        Some(EscrowFault::InvalidAccountData)
                    } else if !escrow_record_valid(d) {
                        Some(EscrowFault::Escrow(EscrowError::MissingInitializationData))
                    } else if stored_escrow_initialized(d) {
                        Some(EscrowFault::Escrow(EscrowError::AccountAlreadyInitialized))
                    } else {
                        match derived_authority(escrow_seed(), pid) {
                            None => Some(EscrowFault::AuthorityUnavailable),
                            Some(auth) => None,
                        }
                    },
                }
            },
        }
    }
}

/// What a successful InitEscrow leaves behind: only the escrow storage
/// account changes, its buffer now holding the initiated record, and
/// one delegated reassignment hands authority over the source holding
/// from the initiator to the derived authority address.
pub open spec fn init_escrow_ok_post(
    pre: Seq<AccountHandle>,
    post: Seq<AccountHandle>,
    ops: Seq<DelegatedOp>,
    amount: u64,
    pid: Seq<u8>,
) -> bool {
    &&& post.len() == pre.len()
    &&& forall|j: int| 0 <= j < pre.len() && j != 3 ==> post[j] == pre[j]
    &&& same_but_content(pre[3], post[3])
    &&& storage_bytes(post[3].content) == Some(
        escrow_record_bytes(init_escrow_record(pre, amount)),
    )
    &&& ops.len() == 1
    &&& (ops[0] matches DelegatedOp::ReassignAuthority {
        account,
        new_authority,
        kind,
        current_authority,
    } && account == pre[1].key && key_is_derived_address(new_authority, escrow_seed(), pid)
        && kind == AuthorityKind::HoldingOwner && current_authority == OpSigner::Holder(
        pre[0].key,
    ))
}

// ---------------------------------------------------------------------
// Exchange
// ---------------------------------------------------------------------

/// The first failing check of Exchange, or `None` when every check
/// passes — the six ordered checks of the protocol, preceded by the
/// arity, signer and derivation preconditions. Account positions: 0 the
/// taker, 1 the taker's temporary holding, 2 the taker's destination, 3
/// the program-authority-held holding, 4 the initiator, 5 the
/// initiator's destination, 6 the escrow storage account, 7 the token
/// ledger program.
pub open spec fn exchange_fault(
    accounts: Seq<AccountHandle>,
    amount: u64,
    pid: Seq<u8>,
) -> Option<EscrowFault> {
    if accounts.len() < 8 {
        Some(EscrowFault::MissingAccount)
    } else if !accounts[0].is_signer {
        Some(EscrowFault::MissingRequiredSignature)
    } else {
        match derived_authority(escrow_seed(), pid) {
            None => Some(EscrowFault::AuthorityUnavailable),
            Some(auth) => if accounts[1].owner@ != accounts[7].key@ {
                Some(EscrowFault::NotOwnedByLedgerService)
            } else {
                match balance_view(accounts[1].content) {
                    None => Some(EscrowFault::InvalidAccountData),
                    Some(taker_bv) => if taker_bv.owner@ != accounts[0].key@ {
                        Some(EscrowFault::WrongHoldingAuthority)
                    } else if accounts[2].owner@ != accounts[7].key@ {
                        Some(EscrowFault::NotOwnedByLedgerService)
                    } else {
                        match balance_view(accounts[3].content) {
                            None => Some(EscrowFault::InvalidAccountData),
                            Some(held_bv) => if held_bv.owner@ != auth.0 {
                                Some(EscrowFault::WrongHoldingAuthority)
                            } else if held_bv.amount != amount {
                                Some(EscrowFault::Escrow(EscrowError::ExpectedFundsMismatch))
                            } else if accounts[6].owner@ != pid {
                                Some(EscrowFault::StorageNotProgramOwned)
                            } else {
                                match storage_bytes(accounts[6].content) {
                                    None => Some(EscrowFault::InvalidAccountData),
                                    Some(d) => if d.len() != ESCROW_RECORD_LEN {
                                        Some(EscrowFault::InvalidAccountData)
                                    } else if !escrow_record_valid(d) {
                                        Some(
                                            EscrowFault::Escrow(
                                                EscrowError::MissingInitializationData,
                                            ),
                                        )
                                    } else if !stored_escrow_initialized(d) {
                                        Some(EscrowFault::NotInitiated)
                                    } else if stored_escrow_amount(d) != taker_bv.amount {
                                        Some(
                                            EscrowFault::Escrow(EscrowError::ExpectedFundsMismatch),
                                        )
                                    } else if stored_escrow_source_holding(d) != accounts[3].key@
                                        || stored_escrow_destination(d) != accounts[5].key@
                                        || stored_escrow_initiator(d) != accounts[4].key@ {
                                        Some(EscrowFault::Escrow(EscrowError::UnknownAccount))
                                    } else {
                                        None
                                    },
                                }
                            },
                        }
                    },
                }
            },
        }
    }
}

/// What a successful Exchange leaves behind: the record is zeroed to
/// retire it, nothing else changes, and three delegated operations
/// settle the swap in order — the taker's deposit moves to the
/// initiator's destination, the taker's emptied holding is closed with
/// its storage deposit refunded to the taker, and the full
/// program-authority-held balance moves to the taker's destination,
/// signed by the derived authority.
pub open spec fn exchange_ok_post(
    pre: Seq<AccountHandle>,
    post: Seq<AccountHandle>,
    ops: Seq<DelegatedOp>,
    pid: Seq<u8>,
) -> bool {
    &&& post.len() == pre.len()
    &&& forall|j: int| 0 <= j < pre.len() && j != 6 ==> post[j] == pre[j]
    &&& same_but_content(pre[6], post[6])
    &&& storage_bytes(post[6].content) == Some(retired_escrow_bytes())
    &&& ops.len() == 3
    &&& (ops[0] matches DelegatedOp::Transfer { amount, from, to, authorizing_signer } && Some(
        amount,
    ) == taker_deposit(pre) && from == pre[1].key && to == pre[5].key && authorizing_signer
        == OpSigner::Holder(pre[0].key))
    &&& (ops[1] matches DelegatedOp::CloseAccount {
        account,
        refund_destination,
        authorizing_signer,
    } && account == pre[1].key && refund_destination == pre[0].key && authorizing_signer
        == OpSigner::Holder(pre[0].key))
    &&& (ops[2] matches DelegatedOp::Transfer { amount, from, to, authorizing_signer } && Some(
        amount,
    ) == held_balance(pre) && from == pre[3].key && to == pre[2].key && escrow_signer_is_derived(
        authorizing_signer,
        pid,
    ))
}

/// The taker's deposited balance, read from the temporary holding.
pub open spec fn taker_deposit(accounts: Seq<AccountHandle>) -> Option<u64> {
    match balance_view(accounts[1].content) {
        Some(bv) => Some(bv.amount),
        None => None,
    }
}

/// The program-authority-held balance.
pub open spec fn held_balance(accounts: Seq<AccountHandle>) -> Option<u64> {
    match balance_view(accounts[3].content) {
        Some(bv) => Some(bv.amount),
        None => None,
    }
}

// ---------------------------------------------------------------------
// Handlers
// ---------------------------------------------------------------------

impl EscrowProcessor {
    /// Opens an escrow: the initiator must sign; the source holding
    /// must belong to the token ledger service and be owned by the
    /// initiator; the destination must belong to the ledger service;
    /// the storage account must be owned by this program and
    /// uninitialized. Persists the record and returns the delegated
    /// reassignment that hands the source holding to the derived
    /// authority.
    pub fn process_init_escrow(
        accounts: &mut Vec<AccountHandle>,
        amount: u64,
        program_id: &[u8; 32],
    ) -> (r: Result<Vec<DelegatedOp>, EscrowFault>)
        ensures
            match r {
                Ok(ops) => init_escrow_fault(old(accounts)@, program_id@) is None
                    && init_escrow_ok_post(old(accounts)@, final(accounts)@, ops@, amount,
                    program_id@),
                Err(e) => init_escrow_fault(old(accounts)@, program_id@) == Some(e)
                    && final(accounts)@ == old(accounts)@,
            },
    {
        if accounts.len() < 5 {
            return Err(EscrowFault::MissingAccount);
        }
        if !accounts[0].is_signer {
            return Err(EscrowFault::MissingRequiredSignature);
        }
        if !key_eq(&accounts[1].owner, &accounts[4].key) {
            return Err(EscrowFault::NotOwnedByLedgerService);
        }
        let holding = match accounts[1].balance() {
            Some(b) => *b,
            None => {
                return Err(EscrowFault::InvalidAccountData);
            },
        };
        if !key_eq(&holding.owner, &accounts[0].key) {
            return Err(EscrowFault::WrongHoldingAuthority);
        }
        if !key_eq(&accounts[2].owner, &accounts[4].key) {
            return Err(EscrowFault::NotOwnedByLedgerService);
        }
        if !key_eq(&accounts[3].owner, program_id) {
            return Err(EscrowFault::StorageNotProgramOwned);
        }
        let rec_r = match accounts[3].storage() {
            Some(data) => EscrowRecord::unpack_unchecked(data.as_slice()),
            None => {
                return Err(EscrowFault::InvalidAccountData);
            },
        };
        let rec = match rec_r {
            Ok(rec) => rec,
            Err(e) => {
                return Err(e);
            },
        };
        if rec.initialized {
            return Err(EscrowFault::Escrow(EscrowError::AccountAlreadyInitialized));
        }
        let auth = match escrow_authority(program_id) {
            Some(a) => a,
            None => {
                return Err(EscrowFault::AuthorityUnavailable);
            },
        };
        let record = EscrowRecord {
            initialized: true,
            initiator_identity: accounts[0].key,
            source_holding_identity: accounts[1].key,
            destination_identity: accounts[2].key,
            expected_amount: amount,
        };
        let data = record.to_vec();
        let holder = accounts[0].key;
        let source = accounts[1].key;
        set_storage(accounts, 3, data);
        let mut ops: Vec<DelegatedOp> = Vec::new();
        ops.push(
            DelegatedOp::ReassignAuthority {
                account: source,
                new_authority: auth.address,
                kind: AuthorityKind::HoldingOwner,
                current_authority: OpSigner::Holder(holder),
            },
        );
        Ok(ops)
    }

    /// Settles an escrow: validates the six ordered checks of the
    /// protocol, retires the record, and returns the three delegated
    /// operations of the swap.
    pub fn process_exchange(
        accounts: &mut Vec<AccountHandle>,
        amount: u64,
        program_id: &[u8; 32],
    ) -> (r: Result<Vec<DelegatedOp>, EscrowFault>)
        ensures
            match r {
                Ok(ops) => exchange_fault(old(accounts)@, amount, program_id@) is None
                    && exchange_ok_post(old(accounts)@, final(accounts)@, ops@, program_id@),
                Err(e) => exchange_fault(old(accounts)@, amount, program_id@) == Some(e)
                    && final(accounts)@ == old(accounts)@,
            },
    {
        if accounts.len() < 8 {
            return Err(EscrowFault::MissingAccount);
        }
        if !accounts[0].is_signer {
            return Err(EscrowFault::MissingRequiredSignature);
        }
        let auth = match escrow_authority(program_id) {
            Some(a) => a,
            None => {
                return Err(EscrowFault::AuthorityUnavailable);
            },
        };
        if !key_eq(&accounts[1].owner, &accounts[7].key) {
            return Err(EscrowFault::NotOwnedByLedgerService);
        }
        let taker_holding = match accounts[1].balance() {
            Some(b) => *b,
            None => {
                return Err(EscrowFault::InvalidAccountData);
            },
        };
        if !key_eq(&taker_holding.owner, &accounts[0].key) {
            return Err(EscrowFault::WrongHoldingAuthority);
        }
        if !key_eq(&accounts[2].owner, &accounts[7].key) {
            return Err(EscrowFault::NotOwnedByLedgerService);
        }
        let held = match accounts[3].balance() {
            Some(b) => *b,
            None => {
                return Err(EscrowFault::InvalidAccountData);
            },
        };
        if !key_eq(&held.owner, &auth.address) {
            return Err(EscrowFault::WrongHoldingAuthority);
        }
        if held.amount != amount {
            return Err(EscrowFault::Escrow(EscrowError::ExpectedFundsMismatch));
        }
        if !key_eq(&accounts[6].owner, program_id) {
            return Err(EscrowFault::StorageNotProgramOwned);
        }
        let rec_r = match accounts[6].storage() {
            Some(data) => EscrowRecord::unpack_unchecked(data.as_slice()),
            None => {
                return Err(EscrowFault::InvalidAccountData);
            },
        };
        let rec = match rec_r {
            Ok(rec) => rec,
            Err(e) => {
                return Err(e);
            },
        };
        if !rec.initialized {
            return Err(EscrowFault::NotInitiated);
        }
        if rec.expected_amount != taker_holding.amount {
            return Err(EscrowFault::Escrow(EscrowError::ExpectedFundsMismatch));
        }
        if !key_eq(&rec.source_holding_identity, &accounts[3].key) || !key_eq(
            &rec.destination_identity,
            &accounts[5].key,
        ) || !key_eq(&rec.initiator_identity, &accounts[4].key) {
            return Err(EscrowFault::Escrow(EscrowError::UnknownAccount));
        }
        let taker = accounts[0].key;
        let taker_source = accounts[1].key;
        let taker_destination = accounts[2].key;
        let held_account = accounts[3].key;
        let initiator_destination = accounts[5].key;
        let mut retired: Vec<u8> = Vec::new();
        let mut i: usize = 0;
        while i < ESCROW_RECORD_LEN
            invariant
                0 <= i <= ESCROW_RECORD_LEN,
                retired@.len() == i,
                forall|j: int| 0 <= j < i ==> retired@[j] == 0u8,
            decreases ESCROW_RECORD_LEN - i,
        {
            retired.push(0);
            i += 1;
        }
        assert(retired@ =~= retired_escrow_bytes());
        set_storage(accounts, 6, retired);
        let mut ops: Vec<DelegatedOp> = Vec::new();
        ops.push(
            DelegatedOp::Transfer {
                amount: taker_holding.amount,
                from: taker_source,
                to: initiator_destination,
                authorizing_signer: OpSigner::Holder(taker),
            },
        );
        ops.push(
            DelegatedOp::CloseAccount {
                account: taker_source,
                refund_destination: taker,
                authorizing_signer: OpSigner::Holder(taker),
            },
        );
        ops.push(
            DelegatedOp::Transfer {
                amount: held.amount,
                from: held_account,
                to: taker_destination,
                authorizing_signer: OpSigner::Derived(auth),
            },
        );
        Ok(ops)
    }

    /// Decodes an escrow payload and runs the command it carries.
    /// Cancel is an explicit no-op: it mutates nothing and issues no
    /// operation.
    pub fn process(
        program_id: &[u8; 32],
        accounts: &mut Vec<AccountHandle>,
        input: &[u8],
    ) -> (r: Result<Vec<DelegatedOp>, EscrowFault>)
        ensures
            match parse_escrow_instruction(input@) {
                Err(e) => r matches Err(f) && f == EscrowFault::Escrow(e) && final(accounts)@
                    == old(accounts)@,
                Ok(EscrowInstruction::InitEscrow { amount }) => match r {
                    Ok(ops) => init_escrow_fault(old(accounts)@, program_id@) is None
                        && init_escrow_ok_post(old(accounts)@, final(accounts)@, ops@, amount,
                        program_id@),
                    Err(e) => init_escrow_fault(old(accounts)@, program_id@) == Some(e)
                        && final(accounts)@ == old(accounts)@,
                },
                Ok(EscrowInstruction::Exchange { amount }) => match r {
                    Ok(ops) => exchange_fault(old(accounts)@, amount, program_id@) is None
                        && exchange_ok_post(old(accounts)@, final(accounts)@, ops@, program_id@),
                    Err(e) => exchange_fault(old(accounts)@, amount, program_id@) == Some(e)
                        && final(accounts)@ == old(accounts)@,
                },
                Ok(EscrowInstruction::Cancel) => r matches Ok(ops) && ops@.len() == 0
                    && final(accounts)@ == old(accounts)@,
            },
    {
        let instruction = match EscrowInstruction::unpack(input) {
            Ok(i) => i,
            Err(e) => {
                return Err(EscrowFault::Escrow(e));
            },
        };
        match instruction {
            EscrowInstruction::InitEscrow { amount } => {
                Self::process_init_escrow(accounts, amount, program_id)
            },
            EscrowInstruction::Exchange { amount } => {
                Self::process_exchange(accounts, amount, program_id)
            },
            EscrowInstruction::Cancel => Ok(Vec::new()),
        }
    }
}

} // verus!
