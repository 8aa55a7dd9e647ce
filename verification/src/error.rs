use solana_program_error::ProgramError;
use vstd::prelude::*;

verus! {

/// Errors produced by the verified readers and instruction builders.
///
/// Each variant mirrors the `ProgramError` variant that the on-chain program
/// reports for the same condition.
#[derive(Debug, PartialEq, Eq)]
pub enum TokenError {
    /// The arguments of an instruction do not fit its encoding.
    InvalidArgument,
    /// Account data does not hold a well-formed value.
    InvalidAccountData,
    /// The account is not owned by the expected program.
    InvalidAccountOwner,
    /// An error reported by the runtime or by an invoked program.
    Runtime(ProgramError),
}

} // verus!
