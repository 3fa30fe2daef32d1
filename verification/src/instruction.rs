//! Binary codecs for the instruction payloads of both services.
//!
//! A payload is one discriminant byte, followed for the amount-carrying
//! commands by a little-endian `u64`. Trailing bytes beyond the fixed
//! layout are ignored, as the wire format allows.

use vstd::prelude::*;
use vstd::bytes::*;
use vstd::slice::slice_subrange;

use crate::error::{EscrowError, FaucetError};

verus! {

/// A decoded faucet command.
#[derive(Clone, Copy, Debug, PartialEq, Eq, Structural)]
pub enum FaucetInstruction {
    /// Initializes a faucet record; `amount` is the per-call cap that
    /// bounds every non-admin mint.
    InitFaucet { amount: u64 },
    /// Mints `amount` tokens to a destination account.
    MintTokens { amount: u64 },
    /// Closes the faucet; only reachable when an admin was stored.
    CloseFaucet,
}

/// A decoded escrow command.
#[derive(Clone, Copy, Debug, PartialEq, Eq, Structural)]
pub enum EscrowInstruction {
    /// Opens an escrow; `amount` is what the initiator expects to receive.
    InitEscrow { amount: u64 },
    /// Settles an escrow; `amount` is the balance the taker expects to
    /// find in the program-authority-held account.
    Exchange { amount: u64 },
    /// Declared in the protocol surface with no effect: processing it is
    /// an explicit no-op.
    Cancel,
}

/// What decoding a faucet payload yields.
pub open spec fn parse_faucet_instruction(input: Seq<u8>) -> Result<FaucetInstruction, FaucetError> {
    if input.len() == 0 {
        Err(FaucetError::InvalidInstruction)
    } else if input[0] == 0 {
        if input.len() >= 9 {
            Ok(FaucetInstruction::InitFaucet { amount: spec_u64_from_le_bytes(input.subrange(1, 9)) })
        } else {
            Err(FaucetError::InvalidInstruction)
        }
    } else if input[0] == 1 {
        if input.len() >= 9 {
            Ok(FaucetInstruction::MintTokens { amount: spec_u64_from_le_bytes(input.subrange(1, 9)) })
        } else {
            Err(FaucetError::InvalidInstruction)
        }
    } else if input[0] == 2 {
        Ok(FaucetInstruction::CloseFaucet)
    } else {
        Err(FaucetError::InvalidInstruction)
    }
}

/// The encoded form of a faucet command.
pub open spec fn faucet_instruction_bytes(ix: FaucetInstruction) -> Seq<u8> {
    match ix {
        FaucetInstruction::InitFaucet { amount } => seq![0u8] + spec_u64_to_le_bytes(amount),
        FaucetInstruction::MintTokens { amount } => seq![1u8] + spec_u64_to_le_bytes(amount),
        FaucetInstruction::CloseFaucet => seq![2u8],
    }
}

impl FaucetInstruction {
    /// Decodes a faucet command from an instruction payload.
    pub fn unpack(input: &[u8]) -> (r: Result<Self, FaucetError>)
        ensures
            r == parse_faucet_instruction(input@),
    {
        if input.len() == 0 {
            return Err(FaucetError::InvalidInstruction);
        }
        let tag = input[0];
        if tag == 0 || tag == 1 {
            if input.len() < 9 {
                return Err(FaucetError::InvalidInstruction);
            }
            let amount = u64_from_le_bytes(slice_subrange(input, 1, 9));
            if tag == 0 {
                Ok(FaucetInstruction::InitFaucet { amount })
            } else {
                Ok(FaucetInstruction::MintTokens { amount })
            }
        } else if tag == 2 {
            Ok(FaucetInstruction::CloseFaucet)
        } else {
            Err(FaucetError::InvalidInstruction)
        }
    }

    /// Encodes a faucet command into its payload bytes.
    pub fn pack(&self) -> (r: Vec<u8>)
        ensures
            r@ == faucet_instruction_bytes(*self),
    {
        let mut buf: Vec<u8> = Vec::new();
        match self {
            FaucetInstruction::InitFaucet { amount } => {
                buf.push(0);
                let mut tail = u64_to_le_bytes(*amount);
                buf.append(&mut tail);
            },
            FaucetInstruction::MintTokens { amount } => {
                buf.push(1);
                let mut tail = u64_to_le_bytes(*amount);
                buf.append(&mut tail);
            },
            FaucetInstruction::CloseFaucet => {
                buf.push(2);
            },
        }
        buf
    }
}

/// What decoding an escrow payload yields.
pub open spec fn parse_escrow_instruction(input: Seq<u8>) -> Result<EscrowInstruction, EscrowError> {
    if input.len() == 0 {
        Err(EscrowError::InvalidInstruction)
    } else if input[0] == 0 {
        if input.len() >= 9 {
            Ok(EscrowInstruction::InitEscrow { amount: spec_u64_from_le_bytes(input.subrange(1, 9)) })
        } else {
            Err(EscrowError::InvalidInstruction)
        }
    } else if input[0] == 1 {
        if input.len() >= 9 {
            Ok(EscrowInstruction::Exchange { amount: spec_u64_from_le_bytes(input.subrange(1, 9)) })
        } else {
            Err(EscrowError::InvalidInstruction)
        }
    } else if input[0] == 2 {
        Ok(EscrowInstruction::Cancel)
    } else {
        Err(EscrowError::InvalidInstruction)
    }
}

impl EscrowInstruction {
    /// Decodes an escrow command from an instruction payload.
    pub fn unpack(input: &[u8]) -> (r: Result<Self, EscrowError>)
        ensures
            r == parse_escrow_instruction(input@),
    {
        if input.len() == 0 {
            return Err(EscrowError::InvalidInstruction);
        }
        let tag = input[0];
        if tag == 0 || tag == 1 {
            if input.len() < 9 {
                return Err(EscrowError::InvalidInstruction);
            }
            let amount = u64_from_le_bytes(slice_subrange(input, 1, 9));
            if tag == 0 {
                Ok(EscrowInstruction::InitEscrow { amount })
            } else {
                Ok(EscrowInstruction::Exchange { amount })
            }
        } else if tag == 2 {
            Ok(EscrowInstruction::Cancel)
        } else {
            Err(EscrowError::InvalidInstruction)
        }
    }
}

} // verus!
