//! The faucet processor.
//!
//! States of one faucet storage account: uninitialized, initiated, and
//! closed. InitFaucet persists the record once the mint's issuing
//! authority is already the derived program authority; MintTokens issues
//! a delegated mint bounded by the per-call cap unless the stored admin
//! signed the call; CloseFaucet — only reachable when an admin was
//! stored — sweeps the storage account's native balance to a destination
//! and hands the mint's issuing authority back to the admin.
//!
//! Each handler validates in a fixed order and reports the first failing
//! check; nothing is mutated and no operation is issued unless every
//! check passes.

use vstd::prelude::*;

use crate::account::{
    same_but_content, same_but_lamports, set_lamports, set_storage, storage_bytes, AccountHandle,
};
use crate::authority::{derived_authority, faucet_authority, faucet_seed};
use crate::error::{FaucetError, FaucetFault};
use crate::instruction::{parse_faucet_instruction, FaucetInstruction};
use crate::key_eq;
use crate::ledger::{
    mint_data_authority, mint_data_initialized, mint_data_well_formed, mint_read_err,
    read_mint_authority,
};
use crate::ops::{AuthorityKind, DelegatedOp, OpSigner};
use crate::state::{
    faucet_record_bytes, faucet_record_err, faucet_record_valid, stored_faucet_admin,
    stored_faucet_amount, stored_faucet_initialized, stored_faucet_mint, Faucet,
    FAUCET_RECORD_LEN,
};

verus! {

/// The faucet request handler.
pub struct Processor;

/// Whether an operation's signer is the derived authority of `seed` for
/// program `pid`, nonce included.
pub open spec fn signer_is_derived_authority(s: OpSigner, seed: Seq<u8>, pid: Seq<u8>) -> bool {
    s matches OpSigner::Derived(a) && derived_authority(seed, pid) == Some((a.address@, a.nonce))
}

// ---------------------------------------------------------------------
// InitFaucet
// ---------------------------------------------------------------------

/// The admin stored at initialization: the key of the optional trailing
/// account. Its presence is sufficient; it need not sign.
pub open spec fn init_faucet_admin(accounts: Seq<AccountHandle>) -> Option<[u8; 32]> {
    if accounts.len() >= 4 {
        Some(accounts[3].key)
    } else {
        None
    }
}

/// The record InitFaucet persists.
pub open spec fn init_faucet_record(accounts: Seq<AccountHandle>, amount: u64) -> Faucet {
    Faucet {
        is_initialized: true,
        admin: init_faucet_admin(accounts),
        mint: accounts[0].key,
        amount,
    }
}

/// The first failing check of InitFaucet, or `None` when every check
/// passes. Account positions: 0 the mint, 1 the faucet storage account,
/// 2 the storage-economics sysvar, 3 the optional admin.
pub open spec fn init_faucet_fault(
    accounts: Seq<AccountHandle>,
    pid: Seq<u8>,
    rent_exempt: bool,
) -> Option<FaucetFault> {
    match derived_authority(faucet_seed(), pid) {
        None => Some(FaucetFault::AuthorityUnavailable),
        Some(auth) => if accounts.len() < 1 {
            Some(FaucetFault::MissingAccount)
        } else {
            match storage_bytes(accounts[0].content) {
                None => Some(FaucetFault::InvalidAccountData),
                Some(md) => if !(mint_data_well_formed(md) && mint_data_initialized(md)) {
                    Some(mint_read_err(md))
                } else {
                    match mint_data_authority(md) {
                        None => Some(FaucetFault::InvalidAccountData),
                        Some(ma) => if ma != auth.0 {
                            Some(FaucetFault::Faucet(FaucetError::IncorrectMintAuthority))
                        } else if accounts.len() < 2 {
                            Some(FaucetFault::MissingAccount)
                        } else {
                            match storage_bytes(accounts[1].content) {
                                None => Some(FaucetFault::InvalidAccountData),
                                Some(fd) => if fd.len() != FAUCET_RECORD_LEN {
                                    Some(FaucetFault::InvalidAccountData)
                                } else if !faucet_record_valid(fd) {
                                    Some(faucet_record_err(fd))
                                } else if stored_faucet_initialized(fd) {
                                    Some(FaucetFault::Faucet(FaucetError::AccountAlreadyInUse))
                                } else if accounts.len() < 3 {
                                    Some(FaucetFault::MissingAccount)
                                } else if !rent_exempt {
                                    Some(FaucetFault::Faucet(FaucetError::AccountNotRentExempt))
                                } else {
                                    None
                                },
                            }
                        },
                    }
                },
            }
        },
    }
}

/// What a successful InitFaucet leaves behind: only the faucet storage
/// account changes, its buffer now holding the initiated record; no
/// delegated operation is issued.
pub open spec fn init_faucet_ok_post(
    pre: Seq<AccountHandle>,
    post: Seq<AccountHandle>,
    ops: Seq<DelegatedOp>,
    amount: u64,
) -> bool {
    &&& post.len() == pre.len()
    &&& forall|j: int| 0 <= j < pre.len() && j != 1 ==> post[j] == pre[j]
    &&& same_but_content(pre[1], post[1])
    &&& storage_bytes(post[1].content) == Some(
        faucet_record_bytes(init_faucet_record(pre, amount)),
    )
    &&& ops.len() == 0
}

// ---------------------------------------------------------------------
// MintTokens
// ---------------------------------------------------------------------

/// Whether a mint call is unrestricted: the record stores an admin, an
/// admin account was supplied, it signed the call, and it matches the
/// stored key.
pub open spec fn mint_privileged(accounts: Seq<AccountHandle>, fd: Seq<u8>) -> bool {
    &&& stored_faucet_admin(fd) is Some
    &&& accounts.len() >= 6
    &&& accounts[5].is_signer
    &&& stored_faucet_admin(fd) == Some(accounts[5].key@)
}

/// The first failing check of MintTokens, or `None` when every check
/// passes. Account positions: 0 the derived authority, 1 the mint, 2 the
/// destination, 3 the token ledger program, 4 the faucet storage
/// account, 5 the optional admin.
pub open spec fn mint_fault(
    accounts: Seq<AccountHandle>,
    amount: u64,
    pid: Seq<u8>,
) -> Option<FaucetFault> {
    if accounts.len() < 1 {
        Some(FaucetFault::MissingAccount)
    } else {
        match derived_authority(faucet_seed(), pid) {
            None => Some(FaucetFault::AuthorityUnavailable),
            Some(auth) => if auth.0 != accounts[0].key@ {
                Some(FaucetFault::InvalidAccountData)
            } else if accounts.len() < 5 {
                Some(FaucetFault::MissingAccount)
            } else {
                match storage_bytes(accounts[4].content) {
                    None => Some(FaucetFault::InvalidAccountData),
                    Some(fd) => if !faucet_record_valid(fd) {
                        Some(faucet_record_err(fd))
                    } else if stored_faucet_mint(fd) != accounts[1].key@ {
                        Some(FaucetFault::Faucet(FaucetError::InvalidMint))
                    } else if !mint_privileged(accounts, fd) && amount > stored_faucet_amount(fd) {
                        Some(FaucetFault::Faucet(FaucetError::RequestingTooManyTokens))
                    } else {
                        None
                    },
                }
            },
        }
    }
}

/// What a successful MintTokens returns: one delegated mint of the
/// requested amount, drawn on the supplied mint, credited to the
/// supplied destination, signed by the derived authority.
pub open spec fn mint_ok_post(
    accounts: Seq<AccountHandle>,
    ops: Seq<DelegatedOp>,
    amount: u64,
    pid: Seq<u8>,
) -> bool {
    &&& ops.len() == 1
    &&& (ops[0] matches DelegatedOp::Mint { amount: a, mint, destination, authorizing_signer }
        && a == amount && mint == accounts[1].key && destination == accounts[2].key
        && signer_is_derived_authority(authorizing_signer, faucet_seed(), pid))
}

// ---------------------------------------------------------------------
// CloseFaucet
// ---------------------------------------------------------------------

/// The first failing check of CloseFaucet, or `None` when every check
/// passes. Account positions: 0 the admin, 1 the faucet storage account,
/// 2 the destination of the swept balance, 3 the mint, 4 the token
/// ledger program, 5 the derived authority.
pub open spec fn close_faucet_fault(accounts: Seq<AccountHandle>, pid: Seq<u8>) -> Option<
    FaucetFault,
> {
    if accounts.len() < 2 {
        Some(FaucetFault::MissingAccount)
    } else {
        match storage_bytes(accounts[1].content) {
            None => Some(FaucetFault::InvalidAccountData),
            Some(fd) => if fd.len() != FAUCET_RECORD_LEN {
                Some(FaucetFault::InvalidAccountData)
            } else if !faucet_record_valid(fd) {
                Some(faucet_record_err(fd))
            } else if !stored_faucet_initialized(fd) {
                Some(FaucetFault::UninitializedAccount)
            } else if !accounts[0].is_signer {
                Some(FaucetFault::MissingRequiredSignature)
            } else {
                match stored_faucet_admin(fd) {
                    None => Some(FaucetFault::Faucet(FaucetError::NonClosableFaucetClosureAttempt)),
                    Some(a) => if a != accounts[0].key@ {
                        Some(FaucetFault::Faucet(FaucetError::NonAdminClosureAttempt))
                    } else if accounts.len() < 3 {
                        Some(FaucetFault::MissingAccount)
                    } else if accounts[2].lamports + accounts[1].lamports > u64::MAX {
                        Some(FaucetFault::Faucet(FaucetError::Overflow))
                    } else if accounts.len() < 6 {
                        Some(FaucetFault::MissingAccount)
                    } else {
                        match derived_authority(faucet_seed(), pid) {
                            None => Some(FaucetFault::AuthorityUnavailable),
                            Some(auth) => if auth.0 != accounts[5].key@ {
                                Some(FaucetFault::InvalidAccountData)
                            } else {
                                None
                            },
                        }
                    },
                }
            },
        }
    }
}

/// What a successful CloseFaucet leaves behind: the faucet storage
/// account's native balance drops to zero, the destination gains exactly
/// that balance, nothing else changes, and one delegated reassignment
/// hands the mint's issuing authority from the derived authority back to
/// the admin.
pub open spec fn close_faucet_ok_post(
    pre: Seq<AccountHandle>,
    post: Seq<AccountHandle>,
    ops: Seq<DelegatedOp>,
    pid: Seq<u8>,
) -> bool {
    &&& post.len() == pre.len()
    &&& forall|j: int| 0 <= j < pre.len() && j != 1 && j != 2 ==> post[j] == pre[j]
    &&& same_but_lamports(pre[1], post[1])
    &&& post[1].lamports == 0
    &&& same_but_lamports(pre[2], post[2])
    &&& post[2].lamports == pre[2].lamports + pre[1].lamports
    &&& ops.len() == 1
    &&& (ops[0] matches DelegatedOp::ReassignAuthority {
        account,
        new_authority,
        kind,
        current_authority,
    } && account == pre[3].key && new_authority == pre[0].key && kind
        == AuthorityKind::MintIssuer && signer_is_derived_authority(
        current_authority,
        faucet_seed(),
        pid,
    ))
}

// ---------------------------------------------------------------------
// Handlers
// ---------------------------------------------------------------------

impl Processor {
    /// Initializes a faucet: requires the mint's issuing authority to
    /// already be the derived program authority, the storage account to
    /// be uninitialized and exempt from storage decay, and persists the
    /// record; the optional fourth account becomes the stored admin.
    pub fn process_init_faucet(
        accounts: &mut Vec<AccountHandle>,
        amount: u64,
        program_id: &[u8; 32],
        rent_exempt: bool,
    ) -> (r: Result<Vec<DelegatedOp>, FaucetFault>)
        ensures
            match r {
                Ok(ops) => init_faucet_fault(old(accounts)@, program_id@, rent_exempt) is None
                    && init_faucet_ok_post(old(accounts)@, final(accounts)@, ops@, amount),
                Err(e) => init_faucet_fault(old(accounts)@, program_id@, rent_exempt) == Some(e)
                    && final(accounts)@ == old(accounts)@,
            },
    {
        let auth = match faucet_authority(program_id) {
            Some(a) => a,
            None => {
                return Err(FaucetFault::AuthorityUnavailable);
            },
        };
        if accounts.len() < 1 {
            return Err(FaucetFault::MissingAccount);
        }
        let mint_authority_r = match accounts[0].storage() {
            Some(data) => read_mint_authority(data.as_slice()),
            None => {
                return Err(FaucetFault::InvalidAccountData);
            },
        };
        let mint_authority = match mint_authority_r {
            Ok(Some(k)) => k,
            Ok(None) => {
                return Err(FaucetFault::InvalidAccountData);
            },
            Err(e) => {
                return Err(e);
            },
        };
        if !key_eq(&mint_authority, &auth.address) {
            return Err(FaucetFault::Faucet(FaucetError::IncorrectMintAuthority));
        }
        if accounts.len() < 2 {
            return Err(FaucetFault::MissingAccount);
        }
        let rec_r = match accounts[1].storage() {
            Some(data) => Faucet::unpack_unchecked(data.as_slice()),
            None => {
                return Err(FaucetFault::InvalidAccountData);
            },
        };
        let rec = match rec_r {
            Ok(f) => f,
            Err(e) => {
                return Err(e);
            },
        };
        if rec.is_initialized {
            return Err(FaucetFault::Faucet(FaucetError::AccountAlreadyInUse));
        }
        if accounts.len() < 3 {
            return Err(FaucetFault::MissingAccount);
        }
        if !rent_exempt {
            return Err(FaucetFault::Faucet(FaucetError::AccountNotRentExempt));
        }
        let admin: Option<[u8; 32]> = if accounts.len() >= 4 {
            Some(accounts[3].key)
        } else {
            None
        };
        let record = Faucet { is_initialized: true, admin, mint: accounts[0].key, amount };
        let data = record.to_vec();
        set_storage(accounts, 1, data);
        Ok(Vec::new())
    }

    /// Mints tokens: the supplied authority account must be the derived
    /// authority and the supplied mint must match the stored one; unless
    /// the stored admin signed the call, the amount must not exceed the
    /// per-call cap. Returns the delegated mint to issue.
    pub fn process_mint_tokens(
        accounts: &Vec<AccountHandle>,
        amount: u64,
        program_id: &[u8; 32],
    ) -> (r: Result<Vec<DelegatedOp>, FaucetFault>)
        ensures
            match r {
                Ok(ops) => mint_fault(accounts@, amount, program_id@) is None && mint_ok_post(
                    accounts@,
                    ops@,
                    amount,
                    program_id@,
                ),
                Err(e) => mint_fault(accounts@, amount, program_id@) == Some(e),
            },
    {
        if accounts.len() < 1 {
            return Err(FaucetFault::MissingAccount);
        }
        let auth = match faucet_authority(program_id) {
            Some(a) => a,
            None => {
                return Err(FaucetFault::AuthorityUnavailable);
            },
        };
        if !key_eq(&auth.address, &accounts[0].key) {
            return Err(FaucetFault::InvalidAccountData);
        }
        if accounts.len() < 5 {
            return Err(FaucetFault::MissingAccount);
        }
        let rec_r = match accounts[4].storage() {
            Some(data) => Faucet::unpack_from_slice(data.as_slice()),
            None => {
                return Err(FaucetFault::InvalidAccountData);
            },
        };
        let rec = match rec_r {
            Ok(f) => f,
            Err(e) => {
                return Err(e);
            },
        };
        if !key_eq(&rec.mint, &accounts[1].key) {
            return Err(FaucetFault::Faucet(FaucetError::InvalidMint));
        }
        let privileged = match &rec.admin {
            Some(stored) => accounts.len() >= 6 && accounts[5].is_signer && key_eq(
                stored,
                &accounts[5].key,
            ),
            None => false,
        };
        if !privileged && amount > rec.amount {
            return Err(FaucetFault::Faucet(FaucetError::RequestingTooManyTokens));
        }
        let mut ops: Vec<DelegatedOp> = Vec::new();
        ops.push(
            DelegatedOp::Mint {
                amount,
                mint: accounts[1].key,
                destination: accounts[2].key,
                authorizing_signer: OpSigner::Derived(auth),
            },
        );
        Ok(ops)
    }

    /// Closes a faucet: only the stored admin, signing the call, may do
    /// so. Sweeps the storage account's native balance to the
    /// destination and returns the delegated reassignment that hands the
    /// mint's issuing authority back to the admin.
    pub fn process_close_faucet(
        accounts: &mut Vec<AccountHandle>,
        program_id: &[u8; 32],
    ) -> (r: Result<Vec<DelegatedOp>, FaucetFault>)
        ensures
            match r {
                Ok(ops) => close_faucet_fault(old(accounts)@, program_id@) is None
                    && close_faucet_ok_post(old(accounts)@, final(accounts)@, ops@, program_id@),
                Err(e) => close_faucet_fault(old(accounts)@, program_id@) == Some(e)
                    && final(accounts)@ == old(accounts)@,
            },
    {
        if accounts.len() < 2 {
            return Err(FaucetFault::MissingAccount);
        }
        let rec_r = match accounts[1].storage() {
            Some(data) => Faucet::unpack(data.as_slice()),
            None => {
                return Err(FaucetFault::InvalidAccountData);
            },
        };
        let rec = match rec_r {
            Ok(f) => f,
            Err(e) => {
                return Err(e);
            },
        };
        if !accounts[0].is_signer {
            return Err(FaucetFault::MissingRequiredSignature);
        }
        let admin_key = match rec.admin {
            None => {
                return Err(FaucetFault::Faucet(FaucetError::NonClosableFaucetClosureAttempt));
            },
            Some(a) => a,
        };
        if !key_eq(&admin_key, &accounts[0].key) {
            return Err(FaucetFault::Faucet(FaucetError::NonAdminClosureAttempt));
        }
        if accounts.len() < 3 {
            return Err(FaucetFault::MissingAccount);
        }
        let dest_lamports = accounts[2].lamports;
        let faucet_lamports = accounts[1].lamports;
        if faucet_lamports > u64::MAX - dest_lamports {
            return Err(FaucetFault::Faucet(FaucetError::Overflow));
        }
        if accounts.len() < 6 {
            return Err(FaucetFault::MissingAccount);
        }
        let auth = match faucet_authority(program_id) {
            Some(a) => a,
            None => {
                return Err(FaucetFault::AuthorityUnavailable);
            },
        };
        if !key_eq(&auth.address, &accounts[5].key) {
            return Err(FaucetFault::InvalidAccountData);
        }
        let mint_key = accounts[3].key;
        let admin_acc_key = accounts[0].key;
        set_lamports(accounts, 2, dest_lamports + faucet_lamports);
        set_lamports(accounts, 1, 0);
        let mut ops: Vec<DelegatedOp> = Vec::new();
        ops.push(
            DelegatedOp::ReassignAuthority {
                account: mint_key,
                new_authority: admin_acc_key,
                kind: AuthorityKind::MintIssuer,
                current_authority: OpSigner::Derived(auth),
            },
        );
        Ok(ops)
    }

    /// Decodes a faucet payload and runs the command it carries.
    /// `rent_exempt` is the hosting runtime's storage-economics verdict
    /// on the faucet storage account, consulted only by InitFaucet.
    pub fn process(
        program_id: &[u8; 32],
        accounts: &mut Vec<AccountHandle>,
        input: &[u8],
        rent_exempt: bool,
    ) -> (r: Result<Vec<DelegatedOp>, FaucetFault>)
        ensures
            match parse_faucet_instruction(input@) {
                Err(e) => r matches Err(f) && f == FaucetFault::Faucet(e) && final(accounts)@
                    == old(accounts)@,
                Ok(FaucetInstruction::InitFaucet { amount }) => match r {
                    Ok(ops) => init_faucet_fault(old(accounts)@, program_id@, rent_exempt) is None
                        && init_faucet_ok_post(old(accounts)@, final(accounts)@, ops@, amount),
                    Err(e) => init_faucet_fault(old(accounts)@, program_id@, rent_exempt)
                        == Some(e) && final(accounts)@ == old(accounts)@,
                },
                Ok(FaucetInstruction::MintTokens { amount }) => final(accounts)@ == old(accounts)@
                    && match r {
                    Ok(ops) => mint_fault(old(accounts)@, amount, program_id@) is None
                        && mint_ok_post(old(accounts)@, ops@, amount, program_id@),
                    Err(e) => mint_fault(old(accounts)@, amount, program_id@) == Some(e),
                },
                Ok(FaucetInstruction::CloseFaucet) => match r {
                    Ok(ops) => close_faucet_fault(old(accounts)@, program_id@) is None
                        && close_faucet_ok_post(old(accounts)@, final(accounts)@, ops@,
                        program_id@),
                    Err(e) => close_faucet_fault(old(accounts)@, program_id@) == Some(e)
                        && final(accounts)@ == old(accounts)@,
                },
            },
    {
        let instruction = match FaucetInstruction::unpack(input) {
            Ok(i) => i,
            Err(e) => {
                return Err(FaucetFault::Faucet(e));
            },
        };
        match instruction {
            FaucetInstruction::InitFaucet { amount } => {
                Self::process_init_faucet(accounts, amount, program_id, rent_exempt)
            },
            FaucetInstruction::MintTokens { amount } => {
                Self::process_mint_tokens(accounts, amount, program_id)
            },
            FaucetInstruction::CloseFaucet => Self::process_close_faucet(accounts, program_id),
        }
    }
}

} // verus!
