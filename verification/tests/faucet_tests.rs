use solana_program::program_option::COption;
use solana_program::program_pack::Pack;
use solana_program::pubkey::Pubkey;

use token_custody::account::{AccountContent, AccountHandle, BalanceView};
use token_custody::authority::Authority;
use token_custody::error::{FaucetError, FaucetFault};
use token_custody::ops::{AuthorityKind, DelegatedOp, OpSigner};
use token_custody::processor::Processor;
use token_custody::state::Faucet;

const PROGRAM_ID: [u8; 32] = [11u8; 32];
const MINT_KEY: [u8; 32] = [20u8; 32];
const FAUCET_KEY: [u8; 32] = [21u8; 32];
const RENT_KEY: [u8; 32] = [22u8; 32];
const ADMIN_KEY: [u8; 32] = [23u8; 32];
const DEST_KEY: [u8; 32] = [24u8; 32];
const TOKEN_PROGRAM_KEY: [u8; 32] = [25u8; 32];
const DEST_OWNER: [u8; 32] = [26u8; 32];

fn faucet_pda() -> ([u8; 32], u8) {
    let (pk, nonce) =
        Pubkey::find_program_address(&[b"faucet"], &Pubkey::new_from_array(PROGRAM_ID));
    (pk.to_bytes(), nonce)
}

fn mint_data(authority: Option<[u8; 32]>) -> Vec<u8> {
    let mint = spl_token::state::Mint {
        mint_authority: match authority {
            Some(k) => COption::Some(Pubkey::new_from_array(k)),
            None => COption::None,
        },
        supply: 0,
        decimals: 9,
        is_initialized: true,
        freeze_authority: COption::None,
    };
    let mut buf = vec![0u8; 82];
    spl_token::state::Mint::pack(mint, &mut buf).unwrap();
    buf
}

fn handle(key: [u8; 32]) -> AccountHandle {
    AccountHandle {
        key,
        is_signer: false,
        is_writable: true,
        owner: [0u8; 32],
        lamports: 0,
        content: AccountContent::Opaque,
    }
}

fn init_accounts(mint_authority: [u8; 32], with_admin: bool) -> Vec<AccountHandle> {
    let mut mint_acc = handle(MINT_KEY);
    mint_acc.content = AccountContent::Storage(mint_data(Some(mint_authority)));
    let mut faucet_acc = handle(FAUCET_KEY);
    faucet_acc.content = AccountContent::Storage(vec![0u8; 77]);
    let mut accounts = vec![mint_acc, faucet_acc, handle(RENT_KEY)];
    if with_admin {
        accounts.push(handle(ADMIN_KEY));
    }
    accounts
}

fn stored_faucet(accounts: &[AccountHandle], i: usize) -> Faucet {
    match &accounts[i].content {
        AccountContent::Storage(d) => Faucet::unpack_from_slice(d).unwrap(),
        other => panic!("expected a storage buffer, found {:?}", other),
    }
}

fn mint_accounts(
    record_admin: Option<[u8; 32]>,
    cap: u64,
    supplied_admin: Option<([u8; 32], bool)>,
) -> Vec<AccountHandle> {
    let (pda, _) = faucet_pda();
    let record = Faucet { is_initialized: true, admin: record_admin, mint: MINT_KEY, amount: cap };
    let mut dest = handle(DEST_KEY);
    dest.content = AccountContent::Balance(BalanceView {
        owner: DEST_OWNER,
        mint: MINT_KEY,
        amount: 0,
    });
    let mut faucet_acc = handle(FAUCET_KEY);
    faucet_acc.content = AccountContent::Storage(record.to_vec());
    let mut accounts = vec![
        handle(pda),
        handle(MINT_KEY),
        dest,
        handle(TOKEN_PROGRAM_KEY),
        faucet_acc,
    ];
    if let Some((key, signed)) = supplied_admin {
        let mut admin = handle(key);
        admin.is_signer = signed;
        accounts.push(admin);
    }
    accounts
}

/// The collaborator mock: applies a delegated mint to the destination's
/// balance view, as the token ledger would.
fn apply_mint(accounts: &mut Vec<AccountHandle>, op: &DelegatedOp) {
    match op {
        DelegatedOp::Mint { amount, destination, .. } => {
            for acc in accounts.iter_mut() {
                if acc.key == *destination {
                    match &mut acc.content {
                        AccountContent::Balance(bv) => bv.amount += amount,
                        other => panic!("expected a balance view, found {:?}", other),
                    }
                }
            }
        },
        other => panic!("expected a mint operation, found {:?}", other),
    }
}

fn dest_balance(accounts: &[AccountHandle], i: usize) -> u64 {
    match &accounts[i].content {
        AccountContent::Balance(bv) => bv.amount,
        other => panic!("expected a balance view, found {:?}", other),
    }
}

fn close_accounts(
    record_admin: Option<[u8; 32]>,
    signer_key: [u8; 32],
    signed: bool,
) -> Vec<AccountHandle> {
    let (pda, _) = faucet_pda();
    let record = Faucet { is_initialized: true, admin: record_admin, mint: MINT_KEY, amount: 10 };
    let mut admin_acc = handle(signer_key);
    admin_acc.is_signer = signed;
    let mut faucet_acc = handle(FAUCET_KEY);
    faucet_acc.content = AccountContent::Storage(record.to_vec());
    faucet_acc.lamports = 1426800;
    let mut dest = handle(DEST_KEY);
    dest.lamports = 11;
    vec![
        admin_acc,
        faucet_acc,
        dest,
        handle(MINT_KEY),
        handle(TOKEN_PROGRAM_KEY),
        handle(pda),
    ]
}

#[test]
fn test_happy_flow_init_faucet_no_admin() {
    let (pda, _) = faucet_pda();
    let mut accounts = init_accounts(pda, false);
    let ops = Processor::process_init_faucet(&mut accounts, 1, &PROGRAM_ID, true).unwrap();
    assert!(ops.is_empty());
    let stored = stored_faucet(&accounts, 1);
    assert_eq!(stored.admin, None);
    assert!(stored.is_initialized);
    assert_eq!(stored.mint, MINT_KEY);
    assert_eq!(stored.amount, 1);
}

#[test]
fn test_happy_flow_init_faucet_with_admin() {
    let (pda, _) = faucet_pda();
    let mut accounts = init_accounts(pda, true);
    let ops = Processor::process_init_faucet(&mut accounts, 1, &PROGRAM_ID, true).unwrap();
    assert!(ops.is_empty());
    let stored = stored_faucet(&accounts, 1);
    assert_eq!(stored.admin, Some(ADMIN_KEY));
    assert!(stored.is_initialized);
}

#[test]
fn test_mint_authority_not_owned_by_pda() {
    let mut accounts = init_accounts([99u8; 32], false);
    let before = accounts.clone();
    let r = Processor::process_init_faucet(&mut accounts, 1, &PROGRAM_ID, true);
    assert_eq!(r, Err(FaucetFault::Faucet(FaucetError::IncorrectMintAuthority)));
    assert_eq!(FaucetError::IncorrectMintAuthority.code(), 0x09);
    assert_eq!(accounts, before);
}

#[test]
fn test_faucet_already_initialized() {
    let (pda, _) = faucet_pda();
    let mut accounts = init_accounts(pda, false);
    Processor::process_init_faucet(&mut accounts, 1, &PROGRAM_ID, true).unwrap();
    let before = accounts.clone();
    let r = Processor::process_init_faucet(&mut accounts, 1, &PROGRAM_ID, true);
    assert_eq!(r, Err(FaucetFault::Faucet(FaucetError::AccountAlreadyInUse)));
    assert_eq!(FaucetError::AccountAlreadyInUse.code(), 0x03);
    // nothing of the record was overwritten
    assert_eq!(accounts, before);
}

#[test]
fn test_init_faucet_not_rent_exempt() {
    let (pda, _) = faucet_pda();
    let mut accounts = init_accounts(pda, false);
    let r = Processor::process_init_faucet(&mut accounts, 1, &PROGRAM_ID, false);
    assert_eq!(r, Err(FaucetFault::Faucet(FaucetError::AccountNotRentExempt)));
}

#[test]
fn test_happy_flow_mint_tokens() {
    let (pda, nonce) = faucet_pda();
    let mut accounts = mint_accounts(None, 10, None);
    let ops = Processor::process_mint_tokens(&accounts, 5, &PROGRAM_ID).unwrap();
    assert_eq!(
        ops,
        vec![DelegatedOp::Mint {
            amount: 5,
            mint: MINT_KEY,
            destination: DEST_KEY,
            authorizing_signer: OpSigner::Derived(Authority { address: pda, nonce }),
        }]
    );
    apply_mint(&mut accounts, &ops[0]);
    assert_eq!(5, dest_balance(&accounts, 2));
}

#[test]
fn test_mint_too_many_tokens() {
    let accounts = mint_accounts(None, 10, None);
    let r = Processor::process_mint_tokens(&accounts, 11, &PROGRAM_ID);
    assert_eq!(r, Err(FaucetFault::Faucet(FaucetError::RequestingTooManyTokens)));
    assert_eq!(FaucetError::RequestingTooManyTokens.code(), 0x04);
    // no operation was issued, so the destination balance stays put
    assert_eq!(0, dest_balance(&accounts, 2));
}

#[test]
fn test_mint_happy_flow_admin_may_mint_too_many_tokens() {
    let mut accounts = mint_accounts(Some(ADMIN_KEY), 10, Some((ADMIN_KEY, true)));
    let ops = Processor::process_mint_tokens(&accounts, 11, &PROGRAM_ID).unwrap();
    assert_eq!(ops.len(), 1);
    apply_mint(&mut accounts, &ops[0]);
    assert_eq!(11, dest_balance(&accounts, 2));
}

#[test]
fn test_mint_tokens_admin_included_but_didnt_sign() {
    let accounts = mint_accounts(Some(ADMIN_KEY), 10, Some((ADMIN_KEY, false)));
    let r = Processor::process_mint_tokens(&accounts, 11, &PROGRAM_ID);
    assert_eq!(r, Err(FaucetFault::Faucet(FaucetError::RequestingTooManyTokens)));
    assert_eq!(0, dest_balance(&accounts, 2));
}

#[test]
fn test_mint_tokens_impostor_admin_included_and_signed() {
    let accounts = mint_accounts(Some(ADMIN_KEY), 10, Some(([42u8; 32], true)));
    let r = Processor::process_mint_tokens(&accounts, 11, &PROGRAM_ID);
    assert_eq!(r, Err(FaucetFault::Faucet(FaucetError::RequestingTooManyTokens)));
    assert_eq!(0, dest_balance(&accounts, 2));
}

#[test]
fn test_mint_tokens_invalid_mint() {
    let mut accounts = mint_accounts(Some(ADMIN_KEY), 10, Some((ADMIN_KEY, true)));
    // the supplied mint is not the one the record stores
    accounts[1].key = [77u8; 32];
    let r = Processor::process_mint_tokens(&accounts, 11, &PROGRAM_ID);
    assert_eq!(r, Err(FaucetFault::Faucet(FaucetError::InvalidMint)));
    assert_eq!(FaucetError::InvalidMint.code(), 0x08);
    assert_eq!(0, dest_balance(&accounts, 2));
}

#[test]
fn test_happy_flow_close_faucet() {
    let (pda, nonce) = faucet_pda();
    let mut accounts = close_accounts(Some(ADMIN_KEY), ADMIN_KEY, true);
    let prior_faucet = accounts[1].lamports;
    let prior_dest = accounts[2].lamports;
    let ops = Processor::process_close_faucet(&mut accounts, &PROGRAM_ID).unwrap();
    assert_eq!(accounts[1].lamports, 0);
    assert_eq!(accounts[2].lamports, prior_dest + prior_faucet);
    assert_eq!(
        ops,
        vec![DelegatedOp::ReassignAuthority {
            account: MINT_KEY,
            new_authority: ADMIN_KEY,
            kind: AuthorityKind::MintIssuer,
            current_authority: OpSigner::Derived(Authority { address: pda, nonce }),
        }]
    );
}

#[test]
fn test_close_faucet_admin_didnt_sign() {
    let mut accounts = close_accounts(Some(ADMIN_KEY), ADMIN_KEY, false);
    let before = accounts.clone();
    let r = Processor::process_close_faucet(&mut accounts, &PROGRAM_ID);
    assert_eq!(r, Err(FaucetFault::MissingRequiredSignature));
    assert_eq!(accounts, before);
}

#[test]
fn test_close_faucet_admin_sign_not_closable() {
    let mut accounts = close_accounts(None, ADMIN_KEY, true);
    let r = Processor::process_close_faucet(&mut accounts, &PROGRAM_ID);
    assert_eq!(
        r,
        Err(FaucetFault::Faucet(FaucetError::NonClosableFaucetClosureAttempt))
    );
    assert_eq!(FaucetError::NonClosableFaucetClosureAttempt.code(), 0x06);
}

#[test]
fn test_close_faucet_impostor_admin() {
    let mut accounts = close_accounts(Some(ADMIN_KEY), [42u8; 32], true);
    let r = Processor::process_close_faucet(&mut accounts, &PROGRAM_ID);
    assert_eq!(r, Err(FaucetFault::Faucet(FaucetError::NonAdminClosureAttempt)));
    assert_eq!(FaucetError::NonAdminClosureAttempt.code(), 0x05);
}

#[test]
fn test_close_faucet_overflow() {
    let mut accounts = close_accounts(Some(ADMIN_KEY), ADMIN_KEY, true);
    accounts[2].lamports = u64::MAX;
    let r = Processor::process_close_faucet(&mut accounts, &PROGRAM_ID);
    assert_eq!(r, Err(FaucetFault::Faucet(FaucetError::Overflow)));
}

#[test]
fn test_faucet_cap_scenario() {
    // A faucet initialized with cap 10 and no admin: a request for 11
    // is refused, a request for 5 from the same unprivileged caller
    // succeeds and credits the destination with exactly 5.
    let (pda, _) = faucet_pda();
    let mut accounts = init_accounts(pda, false);
    Processor::process_init_faucet(&mut accounts, 10, &PROGRAM_ID, true).unwrap();
    let record = stored_faucet(&accounts, 1);
    assert_eq!(record.amount, 10);

    let mut accounts = mint_accounts(record.admin, record.amount, None);
    let r = Processor::process_mint_tokens(&accounts, 11, &PROGRAM_ID);
    assert_eq!(r, Err(FaucetFault::Faucet(FaucetError::RequestingTooManyTokens)));
    assert_eq!(0, dest_balance(&accounts, 2));

    let ops = Processor::process_mint_tokens(&accounts, 5, &PROGRAM_ID).unwrap();
    apply_mint(&mut accounts, &ops[0]);
    assert_eq!(5, dest_balance(&accounts, 2));
}

#[test]
fn test_process_dispatches_by_discriminant() {
    let (pda, _) = faucet_pda();
    let mut accounts = init_accounts(pda, false);
    let mut data = vec![0u8];
    data.extend_from_slice(&u64::to_le_bytes(10));
    Processor::process(&PROGRAM_ID, &mut accounts, &data, true).unwrap();
    assert_eq!(stored_faucet(&accounts, 1).amount, 10);

    let mut accounts = mint_accounts(None, 10, None);
    let mut data = vec![1u8];
    data.extend_from_slice(&u64::to_le_bytes(5));
    let ops = Processor::process(&PROGRAM_ID, &mut accounts, &data, false).unwrap();
    assert_eq!(ops.len(), 1);

    let r = Processor::process(&PROGRAM_ID, &mut accounts, &[9], false);
    assert_eq!(r, Err(FaucetFault::Faucet(FaucetError::InvalidInstruction)));
}

#[test]
fn test_missing_accounts_are_reported() {
    let mut accounts: Vec<AccountHandle> = Vec::new();
    let r = Processor::process_init_faucet(&mut accounts, 1, &PROGRAM_ID, true);
    assert_eq!(r, Err(FaucetFault::MissingAccount));
    let r = Processor::process_mint_tokens(&accounts, 1, &PROGRAM_ID);
    assert_eq!(r, Err(FaucetFault::MissingAccount));
    let r = Processor::process_close_faucet(&mut accounts, &PROGRAM_ID);
    assert_eq!(r, Err(FaucetFault::MissingAccount));
}

#[test]
fn test_faucet_record_pack_checks_the_buffer_length() {
    let record = Faucet {
        is_initialized: true,
        admin: Some(ADMIN_KEY),
        mint: MINT_KEY,
        amount: 10,
    };
    let mut short = vec![0u8; 76];
    assert_eq!(
        Faucet::pack(record, &mut short),
        Err(FaucetFault::InvalidAccountData)
    );
    let mut exact = vec![0u8; 77];
    Faucet::pack(record, &mut exact).unwrap();
    assert_eq!(exact, record.to_vec());
}
