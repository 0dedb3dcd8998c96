use vstd::prelude::*;

use crate::error::ProgramError;
use crate::instructions::make::Make;
use crate::instructions::refund::Refund;
use crate::instructions::take::Take;

verus! {

/// The three instructions of the program.
#[derive(Clone, Copy, Debug, PartialEq, Eq, Structural)]
pub enum EscrowInstruction {
    Make,
    Take,
    Refund,
}

/// The instruction a discriminator byte names: `0` make, `1` take,
/// `2` refund.
pub open spec fn instruction_of(discriminator: u8) -> Option<EscrowInstruction> {
    if discriminator == 0 {
        Some(EscrowInstruction::Make)
    } else if discriminator == 1 {
        Some(EscrowInstruction::Take)
    } else if discriminator == 2 {
        Some(EscrowInstruction::Refund)
    } else {
        None
    }
}

/// Splits instruction data into its leading discriminator byte and the
/// rest; empty data or an unknown discriminator is `InvalidInstructionData`.
pub fn parse_instruction(data: &[u8]) -> (r: Result<(EscrowInstruction, &[u8]), ProgramError>)
    ensures
        match r {
            Ok((ix, rest)) => data@.len() > 0 && instruction_of(data@[0]) == Some(ix) && rest@
                == data@.drop_first(),
            Err(e) => e == ProgramError::InvalidInstructionData && (data@.len() == 0
                || instruction_of(data@[0]) is None),
        },
{
    if data.len() == 0 {
        return Err(ProgramError::InvalidInstructionData);
    }
    let discriminator: u8 = data[0];
    let ix = if discriminator == Make::DISCRIMINATOR {
        EscrowInstruction::Make
    } else if discriminator == Take::DISCRIMINATOR {
        EscrowInstruction::Take
    } else if discriminator == Refund::DISCRIMINATOR {
        EscrowInstruction::Refund
    } else {
        return Err(ProgramError::InvalidInstructionData);
    };
    let rest = vstd::slice::slice_subrange(data, 1, data.len());
    assert(rest@ =~= data@.drop_first());
    Ok((ix, rest))
}

} // verus!
