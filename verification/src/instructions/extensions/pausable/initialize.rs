use crate::error::TokenError;
use crate::instructions::extensions::pausable::initialize_pausable_data;
use crate::instructions::extensions::pausable::InitializePausable as SignedInitializePausable;
use crate::instructions::{AccountRole, Instruction, InstructionParts, SendsInstruction};
use crate::runtime::cpi_invoke;
use solana_account_view::AccountView;
use solana_address::Address;
use vstd::prelude::*;

verus! {

/// Initialize the pausable extension for a mint.
///
/// ### Accounts:
///   0. `[WRITE]` The mint to initialize.
pub struct InitializePausable<'a, 'b> {
    /// The mint to initialize the pausable config
    pub mint: &'a AccountView,
    /// The address bytes of the account that can pause or resume activity on the mint
    pub authority: [u8; 32],
    /// Token Program
    pub token_program: &'b Address,
}

impl<'a, 'b> InitializePausable<'a, 'b> {
    pub const DISCRIMINATOR: u8 = 0;

    /// The instruction data for the pause authority with address bytes
    /// `authority`.
    ///
    /// Layout:
    /// - `[0]`: token instruction discriminator (`Pausable`)
    /// - `[1]`: extension sub-instruction (`Initialize = 0`)
    /// - `[2..34]`: authority address (32 bytes)
    pub fn instruction_data(authority: &[u8; 32]) -> (r: Vec<u8>)
        ensures
            r@ == initialize_pausable_data(authority@),
    {
        SignedInitializePausable::instruction_data(authority)
    }

    /// The instruction that `invoke` hands to the runtime: it goes to
    /// `token_program` with the mint writable and the data that names
    /// `authority`.
    pub fn instruction(&self) -> (ix: Instruction<'a, 'b, 1>)
        ensures
            ix.program_id == self.token_program,
            ix.accounts@ == seq![self.mint],
            ix.roles@ == seq![AccountRole { writable: true, signer: false }],
            ix.data@ == initialize_pausable_data(self.authority@),
            ix.parts() == self.sent_instruction(),
    {
        let ix = Instruction {
            program_id: self.token_program,
            accounts: [self.mint],
            roles: SignedInitializePausable::instruction_accounts(),
            data: Self::instruction_data(&self.authority),
        };
        assert(ix.accounts@ =~= seq![self.mint]);
        ix
    }

    /// Invoke the `InitializePausable` instruction: `self.instruction()` is
    /// handed to the runtime with no signer seeds, and the result is that of
    /// the invocation.
    pub fn invoke(&self) -> (r: Result<(), TokenError>)
        ensures
            r matches Err(e) ==> e is Runtime,
    {
        let ix = self.instruction();
        match cpi_invoke(self, &ix) {
            Ok(()) => Ok(()),
            Err(e) => Err(TokenError::Runtime(e)),
        }
    }
}

impl<'a, 'b> SendsInstruction<'a, 'b> for InitializePausable<'a, 'b> {
    /// The mint, and the data that names the authority, to the token program.
    open spec fn sent_instruction(&self) -> InstructionParts<'a, 'b> {
        InstructionParts {
            program_id: self.token_program,
            accounts: seq![self.mint],
            roles: seq![AccountRole { writable: true, signer: false }],
            data: initialize_pausable_data(self.authority@),
        }
    }
}

} // verus!
