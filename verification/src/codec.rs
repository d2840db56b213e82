//! The wire codec: the fixed binary layout of the escrow record and of the
//! two instructions, as spec-level byte sequences, with executable encode
//! and decode functions proved against them.
//!
//! Layout of the record: one discriminant byte for the latch (0 or 1), then
//! each counter as eight little-endian bytes. Layout of an instruction: one
//! variant byte (0 for `Initialize`, 1 for `PlaceBet`), then the variant's
//! fields in order. Decoding demands the exact length and rejects any
//! discriminant byte other than 0 or 1.

use crate::state::{CoinFlipError, CoinFlipInstruction, CoinFlipState};
use vstd::bytes::{spec_u64_from_le_bytes, spec_u64_to_le_bytes, u64_from_le_bytes, u64_to_le_bytes};
use vstd::prelude::*;
use vstd::slice::{slice_index_get, slice_subrange};

verus! {

/// Encoded length of the escrow record.
pub const STATE_LEN: usize = 17;

/// Encoded length of the `Initialize` instruction.
pub const INITIALIZE_LEN: usize = 1;

/// Encoded length of the `PlaceBet` instruction.
pub const PLACE_BET_LEN: usize = 10;

/// The single byte a boolean encodes to.
pub open spec fn spec_bool_byte(b: bool) -> u8 {
    if b {
        1u8
    } else {
        0u8
    }
}

/// The byte sequence a record encodes to.
pub open spec fn spec_encode_state(s: CoinFlipState) -> Seq<u8> {
    seq![spec_bool_byte(s.is_initialized)] + spec_u64_to_le_bytes(s.total_bets)
        + spec_u64_to_le_bytes(s.total_amount_wagered)
}

/// What a byte buffer decodes to as a record: `Ok` exactly when the buffer
/// has the fixed length and a valid latch byte, `DecodeError` otherwise.
pub open spec fn spec_decode_state(bytes: Seq<u8>) -> Result<CoinFlipState, CoinFlipError> {
    if bytes.len() == STATE_LEN && (bytes[0] == 0u8 || bytes[0] == 1u8) {
        Ok(
            CoinFlipState {
                is_initialized: bytes[0] == 1u8,
                total_bets: spec_u64_from_le_bytes(bytes.subrange(1, 9)),
                total_amount_wagered: spec_u64_from_le_bytes(bytes.subrange(9, 17)),
            },
        )
    } else {
        Err(CoinFlipError::DecodeError)
    }
}

/// The byte sequence an instruction encodes to.
pub open spec fn spec_encode_instruction(ix: CoinFlipInstruction) -> Seq<u8> {
    match ix {
        CoinFlipInstruction::Initialize => seq![0u8],
        CoinFlipInstruction::PlaceBet { amount, side } => seq![1u8]
            + spec_u64_to_le_bytes(amount) + seq![spec_bool_byte(side)],
    }
}

/// What a byte buffer decodes to as an instruction: `Ok` exactly when the
/// buffer is a whole encoding of one variant, `DecodeError` on an unknown
/// variant byte, a bad side byte, or a wrong length.
pub open spec fn spec_decode_instruction(bytes: Seq<u8>) -> Result<
    CoinFlipInstruction,
    CoinFlipError,
> {
    if bytes.len() == INITIALIZE_LEN && bytes[0] == 0u8 {
        Ok(CoinFlipInstruction::Initialize)
    } else if bytes.len() == PLACE_BET_LEN && bytes[0] == 1u8 && (bytes[9] == 0u8 || bytes[9]
        == 1u8) {
        Ok(
            CoinFlipInstruction::PlaceBet {
                amount: spec_u64_from_le_bytes(bytes.subrange(1, 9)),
                side: bytes[9] == 1u8,
            },
        )
    } else {
        Err(CoinFlipError::DecodeError)
    }
}

impl CoinFlipState {
    /// Serialize the record to its fixed layout.
    pub fn encode(&self) -> (r: Vec<u8>)
        ensures
            r@ == spec_encode_state(*self),
            r@.len() == STATE_LEN,
    {
        let mut out: Vec<u8> = Vec::new();
        out.push(if self.is_initialized {
            1u8
        } else {
            0u8
        });
        let mut bets = u64_to_le_bytes(self.total_bets);
        out.append(&mut bets);
        let mut wagered = u64_to_le_bytes(self.total_amount_wagered);
        out.append(&mut wagered);
        proof {
            assert(out@ =~= spec_encode_state(*self));
        }
        out
    }

    /// Deserialize a record from a byte buffer.
    pub fn decode(data: &[u8]) -> (r: Result<CoinFlipState, CoinFlipError>)
        ensures
            r == spec_decode_state(data@),
    {
        if data.len() != STATE_LEN {
            return Err(CoinFlipError::DecodeError);
        }
        let latch = *slice_index_get(data, 0);
        if latch > 1 {
            return Err(CoinFlipError::DecodeError);
        }
        let total_bets = u64_from_le_bytes(slice_subrange(data, 1, 9));
        let total_amount_wagered = u64_from_le_bytes(slice_subrange(data, 9, 17));
        Ok(CoinFlipState { is_initialized: latch == 1, total_bets, total_amount_wagered })
    }
}

impl CoinFlipInstruction {
    /// Serialize the instruction to its fixed layout.
    pub fn encode(&self) -> (r: Vec<u8>)
        ensures
            r@ == spec_encode_instruction(*self),
    {
        match self {
            CoinFlipInstruction::Initialize => {
                let mut out: Vec<u8> = Vec::new();
                out.push(0u8);
                proof {
                    assert(out@ =~= spec_encode_instruction(*self));
                }
                out
            },
            CoinFlipInstruction::PlaceBet { amount, side } => {
                let mut out: Vec<u8> = Vec::new();
                out.push(1u8);
                let mut amount_bytes = u64_to_le_bytes(*amount);
                out.append(&mut amount_bytes);
                out.push(if *side {
                    1u8
                } else {
                    0u8
                });
                proof {
                    assert(out@ =~= spec_encode_instruction(*self));
                }
                out
            },
        }
    }

    /// Deserialize an instruction from a byte buffer.
    pub fn decode(data: &[u8]) -> (r: Result<CoinFlipInstruction, CoinFlipError>)
        ensures
            r == spec_decode_instruction(data@),
    {
        if data.len() == INITIALIZE_LEN {
            let tag = *slice_index_get(data, 0);
            if tag == 0 {
                Ok(CoinFlipInstruction::Initialize)
            } else {
                Err(CoinFlipError::DecodeError)
            }
        } else if data.len() == PLACE_BET_LEN {
            let tag = *slice_index_get(data, 0);
            let side_byte = *slice_index_get(data, 9);
            if tag != 1 || side_byte > 1 {
                return Err(CoinFlipError::DecodeError);
            }
            let amount = u64_from_le_bytes(slice_subrange(data, 1, 9));
            Ok(CoinFlipInstruction::PlaceBet { amount, side: side_byte == 1 })
        } else {
            Err(CoinFlipError::DecodeError)
        }
    }
}

} // verus!
