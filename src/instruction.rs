use vstd::bytes::{spec_u64_from_le_bytes, u64_from_le_bytes};
use vstd::prelude::*;
use vstd::slice::slice_subrange;

use crate::error::EscrowError;
use crate::make::MakeInstruction;
use crate::refund::RefundInstruction;
use crate::take::TakeInstruction;

verus! {

/// One of the engine's three operations with its data.
#[derive(Clone, Copy, Debug, PartialEq, Eq, Structural)]
pub enum EscrowInstruction {
    Make(MakeInstruction),
    Take(TakeInstruction),
    Refund(RefundInstruction),
}

/// The operation that `data` encodes: a first byte that names it (0 Make,
/// 1 Take, 2 Refund), then its fields, amounts as `u64` in little endian:
/// Make `amount, receive, seed`; Take `amount, seed`; Refund `seed`.
pub open spec fn instruction_of(data: Seq<u8>) -> Option<EscrowInstruction> {
    if data.len() == 18 && data[0] == 0 {
        Some(
            EscrowInstruction::Make(
                MakeInstruction {
                    amount: spec_u64_from_le_bytes(data.subrange(1, 9)),
                    receive: spec_u64_from_le_bytes(data.subrange(9, 17)),
                    seed: data[17],
                },
            ),
        )
    } else if data.len() == 10 && data[0] == 1 {
        Some(
            EscrowInstruction::Take(
                TakeInstruction { amount: spec_u64_from_le_bytes(data.subrange(1, 9)), seed: data[9] },
            ),
        )
    } else if data.len() == 2 && data[0] == 2 {
        Some(EscrowInstruction::Refund(RefundInstruction { seed: data[1] }))
    } else {
        None
    }
}

impl EscrowInstruction {
    /// Reads an operation from an instruction's data; data of any other
    /// shape is refused.
    pub fn decode(data: &[u8]) -> (r: Result<EscrowInstruction, EscrowError>)
        ensures
            match instruction_of(data@) {
                Some(i) => r == Ok::<EscrowInstruction, EscrowError>(i),
                None => r == Err::<EscrowInstruction, EscrowError>(EscrowError::InvalidInstructionData),
            },
    {
        let n = data.len();
        if n == 18 && data[0] == 0 {
            let amount = u64_from_le_bytes(slice_subrange(data, 1, 9));
            let receive = u64_from_le_bytes(slice_subrange(data, 9, 17));
            Ok(EscrowInstruction::Make(MakeInstruction { amount, receive, seed: data[17] }))
        } else if n == 10 && data[0] == 1 {
            let amount = u64_from_le_bytes(slice_subrange(data, 1, 9));
            Ok(EscrowInstruction::Take(TakeInstruction { amount, seed: data[9] }))
        } else if n == 2 && data[0] == 2 {
            Ok(EscrowInstruction::Refund(RefundInstruction { seed: data[1] }))
        } else {
            Err(EscrowError::InvalidInstructionData)
        }
    }
}

} // verus!
