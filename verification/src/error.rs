use vstd::prelude::*;

verus! {

/// The errors the flash loan program answers a refused request with.
///
/// Each variant carries the meaning of the Solana runtime error of the same
/// name; the program's entrypoint hands the runtime the matching code.
#[derive(Debug, Clone, Copy, PartialEq, Eq, Structural)]
pub enum ProgramError {
    /// An argument, such as an index into an instruction's accounts, is out of range.
    InvalidArgument,
    /// The instruction data is malformed or refers to the wrong instruction.
    InvalidInstructionData,
    /// An account's data has the wrong size, owner or contents.
    InvalidAccountData,
    /// An account is not owned by the program that it should be owned by.
    InvalidAccountOwner,
    /// The instruction did not receive the accounts that it expects.
    NotEnoughAccountKeys,
    /// An account that must sign the transaction did not.
    MissingRequiredSignature,
    /// The account given as a sysvar is not that sysvar.
    UnsupportedSysvar,
    /// No program derived address could be found for the given seeds.
    InvalidSeeds,
}

} // verus!
