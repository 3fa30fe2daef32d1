//! Typed failure reasons for the two custody services.
//!
//! Each service has a closed taxonomy of its own errors, plus a fault type
//! that adds the runtime-level failures (missing accounts, missing
//! signatures, malformed account contents) that abort a call before the
//! service-specific rules are even reached.

use vstd::prelude::*;

verus! {

/// Failure reasons of the faucet service.
#[derive(Clone, Copy, Debug, PartialEq, Eq, Structural)]
pub enum FaucetError {
    /// The instruction payload could not be decoded.
    InvalidInstruction,
    /// A persisted faucet record was malformed or too short.
    IncorrectInitializationData,
    /// The faucet storage account is not exempt from storage decay.
    AccountNotRentExempt,
    /// The faucet storage account already holds an initiated record.
    AccountAlreadyInUse,
    /// A non-admin caller asked for more than the per-call cap.
    RequestingTooManyTokens,
    /// The closing signer does not match the stored admin.
    NonAdminClosureAttempt,
    /// Closure was attempted on a faucet that has no admin.
    NonClosableFaucetClosureAttempt,
    /// An addition on native balances overflowed.
    Overflow,
    /// The supplied mint does not match the persisted mint identity.
    InvalidMint,
    /// The mint's current authority is not the derived authority address.
    IncorrectMintAuthority,
}

impl FaucetError {
    /// The stable numeric code under which the error is surfaced to the
    /// hosting runtime, in declaration order.
    pub open spec fn spec_code(self) -> u32 {
        match self {
            FaucetError::InvalidInstruction => 0,
            FaucetError::IncorrectInitializationData => 1,
            FaucetError::AccountNotRentExempt => 2,
            FaucetError::AccountAlreadyInUse => 3,
            FaucetError::RequestingTooManyTokens => 4,
            FaucetError::NonAdminClosureAttempt => 5,
            FaucetError::NonClosableFaucetClosureAttempt => 6,
            FaucetError::Overflow => 7,
            FaucetError::InvalidMint => 8,
            FaucetError::IncorrectMintAuthority => 9,
        }
    }

    /// Numeric code of the error.
    pub fn code(&self) -> (r: u32)
        ensures
            r == self.spec_code(),
    {
        match self {
            FaucetError::InvalidInstruction => 0,
            FaucetError::IncorrectInitializationData => 1,
            FaucetError::AccountNotRentExempt => 2,
            FaucetError::AccountAlreadyInUse => 3,
            FaucetError::RequestingTooManyTokens => 4,
            FaucetError::NonAdminClosureAttempt => 5,
            FaucetError::NonClosableFaucetClosureAttempt => 6,
            FaucetError::Overflow => 7,
            FaucetError::InvalidMint => 8,
            FaucetError::IncorrectMintAuthority => 9,
        }
    }
}

/// Failure reasons of the escrow service.
#[derive(Clone, Copy, Debug, PartialEq, Eq, Structural)]
pub enum EscrowError {
    /// The instruction payload could not be decoded.
    InvalidInstruction,
    /// A persisted escrow record was malformed or too short.
    MissingInitializationData,
    /// The program-authority-held balance does not match what the taker
    /// expects, or the persisted expectation does not match the taker's
    /// deposit.
    ExpectedFundsMismatch,
    /// The accounts supplied to an exchange do not match the identities
    /// persisted at initiation.
    UnknownAccount,
    /// An addition on amounts overflowed. No current transition sums
    /// token amounts — every check is an equality — so the variant is
    /// reserved for arithmetic the taxonomy must be able to name.
    AmountOverflow,
    /// The escrow storage account already holds an initiated record.
    AccountAlreadyInitialized,
}

/// A faucet call's failure: either a reason from the faucet taxonomy or a
/// runtime-level fault.
#[derive(Clone, Copy, Debug, PartialEq, Eq, Structural)]
pub enum FaucetFault {
    /// A failure from the faucet's own taxonomy.
    Faucet(FaucetError),
    /// The ordered account list is shorter than the instruction requires.
    MissingAccount,
    /// An account's contents are not what the instruction requires at its
    /// position (wrong kind of contents, malformed ledger data, or a
    /// derived-authority mismatch).
    InvalidAccountData,
    /// A record or ledger structure that must be initiated is not.
    UninitializedAccount,
    /// A required signature is absent.
    MissingRequiredSignature,
    /// No authority address could be derived for this program identity.
    AuthorityUnavailable,
}

/// An escrow call's failure: either a reason from the escrow taxonomy or a
/// runtime-level fault.
#[derive(Clone, Copy, Debug, PartialEq, Eq, Structural)]
pub enum EscrowFault {
    /// A failure from the escrow's own taxonomy.
    Escrow(EscrowError),
    /// The ordered account list is shorter than the instruction requires.
    MissingAccount,
    /// A required signature is absent.
    MissingRequiredSignature,
    /// An account that must belong to the token ledger service does not.
    NotOwnedByLedgerService,
    /// A ledger balance is not held by the authority the protocol requires.
    WrongHoldingAuthority,
    /// The storage account is not owned by this program.
    StorageNotProgramOwned,
    /// An account's contents are not what the instruction requires at its
    /// position.
    InvalidAccountData,
    /// The escrow record is not in the Initiated state.
    NotInitiated,
    /// No authority address could be derived for this program identity.
    AuthorityUnavailable,
}

} // verus!
