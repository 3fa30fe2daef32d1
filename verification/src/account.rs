//! The account-handle model.
//!
//! The hosting runtime hands every call an ordered list of account
//! handles. Each carries an address, the signer and writable flags, the
//! identity of the service that owns the account at the ledger level, its
//! native balance, and its contents: a raw byte buffer for storage
//! accounts, or a structured balance view for accounts kept by the token
//! ledger service.

use vstd::prelude::*;

verus! {

/// The balance record the token ledger service keeps for one of its
/// accounts, as visible to this core: the authority that may move it, the
/// mint it counts, and the amount held.
#[derive(Clone, Copy, Debug, PartialEq, Eq)]
pub struct BalanceView {
    /// The authority currently entitled to move this balance.
    pub owner: [u8; 32],
    /// The mint whose tokens this balance counts.
    pub mint: [u8; 32],
    /// The amount of tokens held.
    pub amount: u64,
}

/// What an account handle gives access to.
#[derive(Clone, Debug, PartialEq, Eq)]
pub enum AccountContent {
    /// Nothing this core reads: program accounts, sysvars, and other
    /// accounts that are only named, never inspected.
    Opaque,
    /// The raw byte buffer of a storage account.
    Storage(Vec<u8>),
    /// The structured balance view of a token ledger account.
    Balance(BalanceView),
}

/// One entry of the ordered account list supplied with a call.
#[derive(Clone, Debug, PartialEq, Eq)]
pub struct AccountHandle {
    /// The account's address.
    pub key: [u8; 32],
    /// Whether the runtime verified a signature for this account.
    pub is_signer: bool,
    /// Whether the runtime allows this call to mutate the account.
    pub is_writable: bool,
    /// The service that owns the account at the ledger level.
    pub owner: [u8; 32],
    /// The account's native balance.
    pub lamports: u64,
    /// The account's contents.
    pub content: AccountContent,
}

/// The raw bytes of a storage account's buffer, if the handle carries one.
pub open spec fn storage_bytes(c: AccountContent) -> Option<Seq<u8>> {
    match c {
        AccountContent::Storage(d) => Some(d@),
        _ => None,
    }
}

/// The balance view of a ledger account, if the handle carries one.
pub open spec fn balance_view(c: AccountContent) -> Option<BalanceView> {
    match c {
        AccountContent::Balance(b) => Some(b),
        _ => None,
    }
}

/// Whether `b` differs from `a` at most in its contents.
pub open spec fn same_but_content(a: AccountHandle, b: AccountHandle) -> bool {
    &&& b.key == a.key
    &&& b.is_signer == a.is_signer
    &&& b.is_writable == a.is_writable
    &&& b.owner == a.owner
    &&& b.lamports == a.lamports
}

/// Whether `b` differs from `a` at most in its native balance.
pub open spec fn same_but_lamports(a: AccountHandle, b: AccountHandle) -> bool {
    &&& b.key == a.key
    &&& b.is_signer == a.is_signer
    &&& b.is_writable == a.is_writable
    &&& b.owner == a.owner
    &&& b.content == a.content
}

/// Replaces the storage buffer of the account at position `i`.
pub fn set_storage(accounts: &mut Vec<AccountHandle>, i: usize, data: Vec<u8>)
    requires
        i < old(accounts)@.len(),
    ensures
        final(accounts)@.len() == old(accounts)@.len(),
        forall|j: int|
            0 <= j < old(accounts)@.len() && j != i ==> final(accounts)@[j] == old(accounts)@[j],
        same_but_content(old(accounts)@[i as int], final(accounts)@[i as int]),
        storage_bytes(final(accounts)@[i as int].content) == Some(data@),
{
    let mut h = accounts.remove(i);
    h.content = AccountContent::Storage(data);
    accounts.insert(i, h);
    assert(accounts@ =~= old(accounts)@.update(i as int, accounts@[i as int]));
}

/// Sets the native balance of the account at position `i`.
pub fn set_lamports(accounts: &mut Vec<AccountHandle>, i: usize, lamports: u64)
    requires
        i < old(accounts)@.len(),
    ensures
        final(accounts)@.len() == old(accounts)@.len(),
        forall|j: int|
            0 <= j < old(accounts)@.len() && j != i ==> final(accounts)@[j] == old(accounts)@[j],
        same_but_lamports(old(accounts)@[i as int], final(accounts)@[i as int]),
        final(accounts)@[i as int].lamports == lamports,
{
    let mut h = accounts.remove(i);
    h.lamports = lamports;
    accounts.insert(i, h);
    assert(accounts@ =~= old(accounts)@.update(i as int, accounts@[i as int]));
}

impl AccountHandle {
    /// Reads the storage buffer, or reports that the handle carries none.
    pub fn storage(&self) -> (r: Option<&Vec<u8>>)
        ensures
            match r {
                Some(d) => storage_bytes(self.content) == Some(d@),
                None => storage_bytes(self.content) is None,
            },
    {
        match &self.content {
            AccountContent::Storage(d) => Some(d),
            _ => None,
        }
    }

    /// Reads the balance view, or reports that the handle carries none.
    pub fn balance(&self) -> (r: Option<&BalanceView>)
        ensures
            match r {
                Some(b) => balance_view(self.content) == Some(*b),
                None => balance_view(self.content) is None,
            },
    {
        match &self.content {
            AccountContent::Balance(b) => Some(b),
            _ => None,
        }
    }
}

} // verus!
