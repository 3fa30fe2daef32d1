use token_custody::error::{EscrowError, EscrowFault, FaucetError, FaucetFault};
use token_custody::instruction::{EscrowInstruction, FaucetInstruction};
use token_custody::state::{EscrowRecord, Faucet};

#[test]
fn test_instruction_unpacking() {
    // 1 tag, 1 admin, 8 amount
    let check = FaucetInstruction::unpack(&[0, 7, 3, 0, 0, 0, 0, 0, 0]).unwrap();
    assert_eq!(FaucetInstruction::InitFaucet { amount: 775 }, check);
    // 1 tag,  8 amount
    let check = FaucetInstruction::unpack(&[1, 7, 3, 0, 0, 0, 0, 0, 0]).unwrap();
    assert_eq!(FaucetInstruction::MintTokens { amount: 775 }, check);

    // 1 tag
    let check = FaucetInstruction::unpack(&[2]).unwrap();
    assert_eq!(FaucetInstruction::CloseFaucet, check);
}

#[test]
fn test_instruction_packing() {
    let check = FaucetInstruction::InitFaucet { amount: 900 };

    let packed = check.pack();
    let mut expect = vec![0];
    expect.extend_from_slice(&u64::to_le_bytes(900));
    assert_eq!(packed, expect);

    let check = FaucetInstruction::MintTokens { amount: 900 };

    let packed = check.pack();
    let mut expect = vec![1];
    expect.extend_from_slice(&u64::to_le_bytes(900));
    assert_eq!(packed, expect);

    let check = FaucetInstruction::CloseFaucet;

    let packed = check.pack();
    assert_eq!(packed, vec![2]);
}

#[test]
fn test_instruction_unpacking_rejects_garbage() {
    assert_eq!(
        FaucetInstruction::unpack(&[]),
        Err(FaucetError::InvalidInstruction)
    );
    assert_eq!(
        FaucetInstruction::unpack(&[3, 0, 0, 0, 0, 0, 0, 0, 0]),
        Err(FaucetError::InvalidInstruction)
    );
    // an amount field shorter than 8 bytes
    assert_eq!(
        FaucetInstruction::unpack(&[0, 7, 3]),
        Err(FaucetError::InvalidInstruction)
    );
    assert_eq!(
        FaucetInstruction::unpack(&[1, 7, 3, 0, 0, 0, 0, 0]),
        Err(FaucetError::InvalidInstruction)
    );
}

#[test]
fn test_escrow_instruction_unpacking() {
    let check = EscrowInstruction::unpack(&[0, 1, 1, 0, 0, 0, 0, 0, 0]).unwrap();
    assert_eq!(EscrowInstruction::InitEscrow { amount: 257 }, check);
    let check = EscrowInstruction::unpack(&[1, 255, 0, 0, 0, 0, 0, 0, 0]).unwrap();
    assert_eq!(EscrowInstruction::Exchange { amount: 255 }, check);
    let check = EscrowInstruction::unpack(&[2]).unwrap();
    assert_eq!(EscrowInstruction::Cancel, check);
    assert_eq!(
        EscrowInstruction::unpack(&[0, 1]),
        Err(EscrowError::InvalidInstruction)
    );
    assert_eq!(
        EscrowInstruction::unpack(&[9]),
        Err(EscrowError::InvalidInstruction)
    );
}

#[test]
fn test_faucet_record_round_trip_with_admin() {
    let record = Faucet {
        is_initialized: true,
        admin: Some([7u8; 32]),
        mint: [9u8; 32],
        amount: 123_456_789,
    };
    let bytes = record.to_vec();
    assert_eq!(bytes.len(), 77);
    let back = Faucet::unpack_from_slice(&bytes).unwrap();
    assert_eq!(back, record);
}

#[test]
fn test_faucet_record_round_trip_without_admin() {
    let record = Faucet {
        is_initialized: false,
        admin: None,
        mint: [1u8; 32],
        amount: 0,
    };
    let bytes = record.to_vec();
    assert_eq!(bytes.len(), 77);
    let back = Faucet::unpack_from_slice(&bytes).unwrap();
    assert_eq!(back, record);
}

#[test]
fn test_faucet_record_layout() {
    // 1 flag + 36 optional key + 8 amount + 32 mint = 77 bytes.
    let record = Faucet {
        is_initialized: true,
        admin: Some([0xAB; 32]),
        mint: [0xCD; 32],
        amount: 775,
    };
    let bytes = record.to_vec();
    assert_eq!(bytes[0], 1);
    assert_eq!(&bytes[1..5], &[1, 0, 0, 0]);
    assert_eq!(&bytes[5..37], &[0xAB; 32]);
    assert_eq!(&bytes[37..45], &u64::to_le_bytes(775));
    assert_eq!(&bytes[45..77], &[0xCD; 32]);
}

#[test]
fn test_faucet_record_decode_failures() {
    // shorter than the fixed length
    assert_eq!(
        Faucet::unpack_from_slice(&[0u8; 76]),
        Err(FaucetFault::Faucet(FaucetError::IncorrectInitializationData))
    );
    // a flag byte that is neither 0 nor 1
    let mut bad_flag = vec![0u8; 77];
    bad_flag[0] = 2;
    assert_eq!(
        Faucet::unpack_from_slice(&bad_flag),
        Err(FaucetFault::Faucet(FaucetError::IncorrectInitializationData))
    );
    // a malformed optional-key tag
    let mut bad_tag = vec![0u8; 77];
    bad_tag[1] = 2;
    assert_eq!(
        Faucet::unpack_from_slice(&bad_tag),
        Err(FaucetFault::InvalidAccountData)
    );
    // the checked reader insists on the exact length
    assert_eq!(
        Faucet::unpack(&[0u8; 78]),
        Err(FaucetFault::InvalidAccountData)
    );
    // ... and on an initiated record
    assert_eq!(
        Faucet::unpack(&[0u8; 77]),
        Err(FaucetFault::UninitializedAccount)
    );
}

#[test]
fn test_escrow_record_round_trip() {
    let record = EscrowRecord {
        initialized: true,
        initiator_identity: [3u8; 32],
        source_holding_identity: [4u8; 32],
        destination_identity: [5u8; 32],
        expected_amount: u64::MAX,
    };
    let bytes = record.to_vec();
    assert_eq!(bytes.len(), 105);
    let back = EscrowRecord::unpack_from_slice(&bytes).unwrap();
    assert_eq!(back, record);
}

#[test]
fn test_escrow_record_layout() {
    // 1 flag + 32 + 32 + 32 + 8 = 105 bytes.
    let record = EscrowRecord {
        initialized: true,
        initiator_identity: [1u8; 32],
        source_holding_identity: [2u8; 32],
        destination_identity: [3u8; 32],
        expected_amount: 900,
    };
    let bytes = record.to_vec();
    assert_eq!(bytes[0], 1);
    assert_eq!(&bytes[1..33], &[1u8; 32]);
    assert_eq!(&bytes[33..65], &[2u8; 32]);
    assert_eq!(&bytes[65..97], &[3u8; 32]);
    assert_eq!(&bytes[97..105], &u64::to_le_bytes(900));
}

#[test]
fn test_escrow_record_decode_failures() {
    assert_eq!(
        EscrowRecord::unpack_from_slice(&[0u8; 104]),
        Err(EscrowFault::Escrow(EscrowError::MissingInitializationData))
    );
    let mut bad_flag = vec![0u8; 105];
    bad_flag[0] = 7;
    assert_eq!(
        EscrowRecord::unpack_from_slice(&bad_flag),
        Err(EscrowFault::Escrow(EscrowError::MissingInitializationData))
    );
    assert_eq!(
        EscrowRecord::unpack_unchecked(&[0u8; 106]),
        Err(EscrowFault::InvalidAccountData)
    );
}

#[test]
fn test_faucet_error_codes() {
    assert_eq!(FaucetError::InvalidInstruction.code(), 0);
    assert_eq!(FaucetError::IncorrectInitializationData.code(), 1);
    assert_eq!(FaucetError::AccountNotRentExempt.code(), 2);
    assert_eq!(FaucetError::AccountAlreadyInUse.code(), 3);
    assert_eq!(FaucetError::RequestingTooManyTokens.code(), 4);
    assert_eq!(FaucetError::NonAdminClosureAttempt.code(), 5);
    assert_eq!(FaucetError::NonClosableFaucetClosureAttempt.code(), 6);
    assert_eq!(FaucetError::Overflow.code(), 7);
    assert_eq!(FaucetError::InvalidMint.code(), 8);
    assert_eq!(FaucetError::IncorrectMintAuthority.code(), 9);
}
