use crate::error::TokenError;
use crate::instructions::extensions::pausable::{
    authority_roles, lemma_authority_roles, multisig_authority_roles, multisig_instruction,
    pausable_data, pausable_instruction_data,
};
use crate::instructions::{
    AccountRole, BoundedInstruction, InstructionParts, SendsInstruction, MAX_MULTISIG_SIGNERS,
};
use crate::runtime::cpi_invoke_signed_with_bounds;
use solana_account_view::AccountView;
use solana_address::Address;
use solana_instruction_view::cpi::Signer;
use vstd::prelude::*;

verus! {

/// Pause a mint, preventing all token operations.
///
/// ### Accounts:
///
/// **Single authority**
///   0. `[WRITE]` The mint to pause.
///   1. `[SIGNER]` The mint's pause authority.
///
/// **Multisignature authority**
///   0. `[WRITE]` The mint to pause.
///   1. `[]` The multisig account that is the pause authority.
///   2. `[SIGNER]` M signer accounts (as required by the multisig).
pub struct Pause<'a, 'b, 'c> {
    /// The mint to pause
    pub mint: &'a AccountView,
    /// The mint's pause authority (single or multisig)
    pub pause_authority: &'a AccountView,
    /// Signer accounts if the authority is a multisig
    pub signers: &'c [&'a AccountView],
    /// Token Program
    pub token_program: &'b Address,
}

impl<'a, 'b, 'c> Pause<'a, 'b, 'c> {
    pub const DISCRIMINATOR: u8 = 1;

    /// The instruction data: the token instruction discriminator
    /// (`Pausable`), then the sub-instruction (`Pause = 1`).
    pub fn instruction_data() -> (r: Vec<u8>)
        ensures
            r@ == pausable_data(Self::DISCRIMINATOR),
    {
        pausable_instruction_data(Self::DISCRIMINATOR)
    }

    /// Roles of the mint, the pause authority and its `num_signers`
    /// multisignature signers, or `InvalidArgument` when there are more
    /// than `MAX_MULTISIG_SIGNERS` signers. The authority signs itself only
    /// when it has no signers.
    pub fn instruction_accounts(num_signers: usize) -> (r: Result<Vec<AccountRole>, TokenError>)
        ensures
            r is Err <==> num_signers > MAX_MULTISIG_SIGNERS,
            r matches Err(e) ==> e == TokenError::InvalidArgument,
            r matches Ok(roles) ==> roles@ == authority_roles(num_signers as nat),
    {
        multisig_authority_roles(num_signers)
    }

    /// The instruction that `invoke_signed` hands to the runtime: it goes to
    /// `token_program` with the `Pause` data; the accounts are the mint, the
    /// pause authority and its multisignature signers, in that order, with
    /// the roles of `instruction_accounts`; or `InvalidArgument` when there
    /// are more than `MAX_MULTISIG_SIGNERS` signers.
    pub fn instruction(&self) -> (r: Result<BoundedInstruction<'a, 'b>, TokenError>)
        ensures
            r is Err <==> self.signers@.len() > MAX_MULTISIG_SIGNERS,
            r matches Err(e) ==> e == TokenError::InvalidArgument,
            r matches Ok(ix) ==> {
                &&& ix.program_id == self.token_program
                &&& ix.accounts@ == seq![self.mint, self.pause_authority] + self.signers@
                &&& ix.roles@ == authority_roles(self.signers@.len())
                &&& ix.data@ == pausable_data(Self::DISCRIMINATOR)
                &&& ix.parts() == self.sent_instruction()
            },
    {
        multisig_instruction(
            Self::DISCRIMINATOR,
            self.mint,
            self.pause_authority,
            self.signers,
            self.token_program,
        )
    }

    /// Invoke the `Pause` instruction.
    pub fn invoke(&self) -> (r: Result<(), TokenError>)
        ensures
            r == Err::<(), TokenError>(TokenError::InvalidArgument) <==> self.signers@.len()
                > MAX_MULTISIG_SIGNERS,
            r matches Err(e) ==> e == TokenError::InvalidArgument || e is Runtime,
    {
        self.invoke_signed(&[])
    }

    /// Invoke the `Pause` instruction with signers.
    ///
    /// Fails with `InvalidArgument`, before any call, when there are more
    /// than `MAX_MULTISIG_SIGNERS` multisignature signers; otherwise
    /// `self.instruction()` is handed to the runtime, and the result is that
    /// of the invocation.
    pub fn invoke_signed(&self, signers: &[Signer]) -> (r: Result<(), TokenError>)
        ensures
            r == Err::<(), TokenError>(TokenError::InvalidArgument) <==> self.signers@.len()
                > MAX_MULTISIG_SIGNERS,
            r matches Err(e) ==> e == TokenError::InvalidArgument || e is Runtime,
    {
        let ix = self.instruction()?;
        match cpi_invoke_signed_with_bounds(self, &ix, signers) {
            Ok(()) => Ok(()),
            Err(e) => Err(TokenError::Runtime(e)),
        }
    }
}

impl<'a, 'b, 'c> SendsInstruction<'a, 'b> for Pause<'a, 'b, 'c> {
    /// The mint, the pause authority and its signers, with the `Pause` data,
    /// to the token program.
    open spec fn sent_instruction(&self) -> InstructionParts<'a, 'b> {
        InstructionParts {
            program_id: self.token_program,
            accounts: seq![self.mint, self.pause_authority] + self.signers@,
            roles: authority_roles(self.signers@.len()),
            data: pausable_data(Self::DISCRIMINATOR),
        }
    }
}

/// What `Pause` sends: the mint first (writable, not signing), then the
/// pause authority (read-only; it signs exactly when it has no
/// multisignature signers), then each signer in order (read-only signers),
/// with the `Pause` data, to the token program.
pub proof fn lemma_pause_sends(b: Pause)
    ensures
        ({
            let ix = b.sent_instruction();
            let n = b.signers@.len();
            &&& ix.program_id == b.token_program
            &&& ix.data == pausable_data(Pause::DISCRIMINATOR)
            &&& ix.accounts.len() == 2 + n && ix.roles.len() == 2 + n
            &&& ix.accounts[0] == b.mint
            &&& ix.roles[0] == AccountRole { writable: true, signer: false }
            &&& ix.accounts[1] == b.pause_authority
            &&& !ix.roles[1].writable
            &&& (ix.roles[1].signer <==> n == 0)
            &&& forall|i: int|
                0 <= i < n ==> #[trigger] ix.accounts[2 + i] == b.signers@[i] && ix.roles[2 + i]
                    == AccountRole { writable: false, signer: true }
        }),
{
    lemma_authority_roles(b.signers@.len());
    let ix = b.sent_instruction();
    assert forall|i: int| 0 <= i < b.signers@.len() implies #[trigger] ix.accounts[2 + i]
        == b.signers@[i] && ix.roles[2 + i] == (AccountRole { writable: false, signer: true }) by {
        assert(authority_roles(b.signers@.len())[2 + i] == (AccountRole {
            writable: false,
            signer: true,
        }));
    }
}

} // verus!
