//! The instruction wire format: a closed set of typed variants encoded as a
//! one-byte tag followed by the variant's fixed-width fields, little-endian.

use vstd::prelude::*;

use crate::codec::{lemma_u64_le_round_trip, push_u64_le, read_u64_le, spec_u64_from_le_bytes,
    spec_u64_to_le_bytes};
use crate::error::StakingError;

verus! {

/// The instructions the program accepts.
///
/// Account list expected by each variant, positional and order-significant:
/// - `Initialize`: 0 signer (pool authority), 1 pool storage (writable).
/// - `CreateUser`: 0 signer (user), 1 user storage derived address (writable),
///   2 system allocator service, 3 pool storage (writable).
/// - `Stake`, `Unstake`, `Claim`: declared but not supported yet; the
///   processor rejects them.
#[derive(Clone, Copy, Debug, PartialEq, Eq, Structural)]
pub enum Instruction {
    Initialize { rewards_per_token: u64 },
    CreateUser {},
    Stake { amount: u64 },
    Unstake { amount: u64 },
    Claim {},
}

/// The serialized form of an instruction: its tag byte, then its fields.
pub open spec fn spec_encode_instruction(ix: Instruction) -> Seq<u8> {
    match ix {
        Instruction::Initialize { rewards_per_token } => seq![0u8] + spec_u64_to_le_bytes(
            rewards_per_token,
        ),
        Instruction::CreateUser {  } => seq![1u8],
        Instruction::Stake { amount } => seq![2u8] + spec_u64_to_le_bytes(amount),
        Instruction::Unstake { amount } => seq![3u8] + spec_u64_to_le_bytes(amount),
        Instruction::Claim {  } => seq![4u8],
    }
}

/// The instruction stored in `s`, or `None` when `s` is empty, its tag byte
/// names no variant, or its length does not match the tagged variant exactly.
pub open spec fn spec_decode_instruction(s: Seq<u8>) -> Option<Instruction> {
    if s.len() == 0 {
        None
    } else if s[0] == 0 && s.len() == 9 {
        Some(Instruction::Initialize { rewards_per_token: spec_u64_from_le_bytes(s.subrange(1, 9)) })
    } else if s[0] == 1 && s.len() == 1 {
        Some(Instruction::CreateUser {  })
    } else if s[0] == 2 && s.len() == 9 {
        Some(Instruction::Stake { amount: spec_u64_from_le_bytes(s.subrange(1, 9)) })
    } else if s[0] == 3 && s.len() == 9 {
        Some(Instruction::Unstake { amount: spec_u64_from_le_bytes(s.subrange(1, 9)) })
    } else if s[0] == 4 && s.len() == 1 {
        Some(Instruction::Claim {  })
    } else {
        None
    }
}

impl Instruction {
    /// Serializes this instruction into its wire format.
    pub fn serialize(&self) -> (r: Vec<u8>)
        ensures
            r@ == spec_encode_instruction(*self),
    {
        let mut out: Vec<u8> = Vec::new();
        match self {
            Instruction::Initialize { rewards_per_token } => {
                out.push(0);
                push_u64_le(&mut out, *rewards_per_token);
            },
            Instruction::CreateUser {  } => {
                out.push(1);
            },
            Instruction::Stake { amount } => {
                out.push(2);
                push_u64_le(&mut out, *amount);
            },
            Instruction::Unstake { amount } => {
                out.push(3);
                push_u64_le(&mut out, *amount);
            },
            Instruction::Claim {  } => {
                out.push(4);
            },
        }
        proof {
            assert(out@ =~= spec_encode_instruction(*self));
        }
        out
    }

    /// Decodes an instruction from its wire format. Any malformed buffer —
    /// empty, truncated, carrying trailing bytes, or tagged with no known
    /// variant — fails with `InvalidInstruction`.
    pub fn try_from_slice(data: &[u8]) -> (r: Result<Instruction, StakingError>)
        ensures
            match r {
                Ok(ix) => spec_decode_instruction(data@) == Some(ix),
                Err(e) => spec_decode_instruction(data@) is None && e
                    == StakingError::InvalidInstruction,
            },
    {
        if data.len() == 0 {
            return Err(StakingError::InvalidInstruction);
        }
        let tag = data[0];
        if tag == 0 && data.len() == 9 {
            Ok(Instruction::Initialize { rewards_per_token: read_u64_le(data, 1) })
        } else if tag == 1 && data.len() == 1 {
            Ok(Instruction::CreateUser {  })
        } else if tag == 2 && data.len() == 9 {
            Ok(Instruction::Stake { amount: read_u64_le(data, 1) })
        } else if tag == 3 && data.len() == 9 {
            Ok(Instruction::Unstake { amount: read_u64_le(data, 1) })
        } else if tag == 4 && data.len() == 1 {
            Ok(Instruction::Claim {  })
        } else {
            Err(StakingError::InvalidInstruction)
        }
    }
}

/// Encoding any instruction and decoding the bytes yields the instruction
/// back: the wire format is unambiguous.
pub proof fn lemma_instruction_round_trip(ix: Instruction)
    ensures
        spec_decode_instruction(spec_encode_instruction(ix)) == Some(ix),
{
    let s = spec_encode_instruction(ix);
    match ix {
        Instruction::Initialize { rewards_per_token } => {
            assert(s.subrange(1, 9) =~= spec_u64_to_le_bytes(rewards_per_token));
            lemma_u64_le_round_trip(rewards_per_token);
        },
        Instruction::CreateUser {  } => {},
        Instruction::Stake { amount } => {
            assert(s.subrange(1, 9) =~= spec_u64_to_le_bytes(amount));
            lemma_u64_le_round_trip(amount);
        },
        Instruction::Unstake { amount } => {
            assert(s.subrange(1, 9) =~= spec_u64_to_le_bytes(amount));
            lemma_u64_le_round_trip(amount);
        },
        Instruction::Claim {  } => {},
    }
}

} // verus!
