//! Delegated ledger operations.
//!
//! The processors never move value themselves: on success they return
//! the ordered list of operations the caller must issue to the token
//! ledger service within the same atomic call. Each operation names its
//! authorizing signer explicitly — either a party that signed the call,
//! or the derived program authority, whose signature is reproduced from
//! the static seed and nonce.

use vstd::prelude::*;

use crate::authority::Authority;

verus! {

/// The signer that authorizes a delegated operation.
#[derive(Clone, Copy, Debug, PartialEq, Eq)]
pub enum OpSigner {
    /// A party whose signature the runtime verified on this call.
    Holder([u8; 32]),
    /// The derived program authority.
    Derived(Authority),
}

/// Which authority record of the token ledger a reassignment targets.
#[derive(Clone, Copy, Debug, PartialEq, Eq)]
pub enum AuthorityKind {
    /// The owner of a token balance.
    HoldingOwner,
    /// The issuer of a mint.
    MintIssuer,
}

/// One delegated operation issued to the token ledger service.
#[derive(Clone, Copy, Debug, PartialEq, Eq)]
pub enum DelegatedOp {
    /// Hand an account's authority to a new holder.
    ReassignAuthority {
        /// The account whose authority record changes.
        account: [u8; 32],
        /// The authority the account is handed to.
        new_authority: [u8; 32],
        /// Which authority record is reassigned.
        kind: AuthorityKind,
        /// The current authority, which must authorize the change.
        current_authority: OpSigner,
    },
    /// Move tokens between two ledger accounts.
    Transfer {
        /// The amount moved.
        amount: u64,
        /// The account debited.
        from: [u8; 32],
        /// The account credited.
        to: [u8; 32],
        /// The authority over the debited account.
        authorizing_signer: OpSigner,
    },
    /// Close an emptied ledger account, refunding its storage deposit.
    CloseAccount {
        /// The account closed.
        account: [u8; 32],
        /// Where the storage deposit is refunded.
        refund_destination: [u8; 32],
        /// The authority over the closed account.
        authorizing_signer: OpSigner,
    },
    /// Mint new tokens to a ledger account.
    Mint {
        /// The amount minted.
        amount: u64,
        /// The mint drawn on.
        mint: [u8; 32],
        /// The account credited.
        destination: [u8; 32],
        /// The mint's issuing authority.
        authorizing_signer: OpSigner,
    },
}

impl OpSigner {
    /// The address under which this signer appears to the ledger.
    pub open spec fn spec_address(self) -> [u8; 32] {
        match self {
            OpSigner::Holder(k) => k,
            OpSigner::Derived(a) => a.address,
        }
    }

    /// The address under which this signer appears to the ledger.
    pub fn address(&self) -> (r: [u8; 32])
        ensures
            r == self.spec_address(),
    {
        match self {
            OpSigner::Holder(k) => *k,
            OpSigner::Derived(a) => a.address,
        }
    }
}

} // verus!
