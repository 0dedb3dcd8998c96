use vstd::prelude::*;

verus! {

/// The errors that the escrow program answers with.
#[derive(Clone, Copy, Debug, PartialEq, Eq, Structural)]
pub enum ProgramError {
    InvalidArgument,
    InvalidInstructionData,
    InvalidAccountData,
    NotEnoughAccountKeys,
    MissingRequiredSignature,
    InvalidAccountOwner,
    InvalidSeeds,
    ArithmeticOverflow,
}

/// The result of a check or of a step that yields nothing.
pub type ProgramResult = Result<(), ProgramError>;

} // verus!
