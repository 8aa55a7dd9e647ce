//! Pausable extension

pub mod initialize;
pub mod pause;
pub mod resume;

use crate::error::TokenError;
use crate::instructions::extensions::ExtensionDiscriminator;
use crate::codec::push_bytes;
use crate::instructions::{
    AccountRole, BoundedInstruction, Instruction, InstructionParts, SendsInstruction,
    MAX_MULTISIG_SIGNERS,
};
use crate::runtime::cpi_invoke_signed;
use solana_account_view::AccountView;
use solana_address::Address;
use solana_instruction_view::cpi::Signer;
use vstd::prelude::*;

verus! {

/// Instruction data of a pausable sub-instruction without arguments: the
/// extension's token instruction byte, then the sub-instruction byte.
pub open spec fn pausable_data(sub_instruction: u8) -> Seq<u8> {
    seq![ExtensionDiscriminator::Pausable.spec_to_u8(), sub_instruction]
}

/// Instruction data of `InitializePausable`: the extension byte, the
/// sub-instruction byte `0`, then the 32 authority bytes.
pub open spec fn initialize_pausable_data(authority: Seq<u8>) -> Seq<u8> {
    pausable_data(InitializePausable::DISCRIMINATOR) + authority
}

/// The two data bytes of a pausable sub-instruction.
pub(crate) fn pausable_instruction_data(sub_instruction: u8) -> (r: Vec<u8>)
    ensures
        r@ == pausable_data(sub_instruction),
{
    let mut r: Vec<u8> = Vec::new();
    r.push(ExtensionDiscriminator::Pausable.to_u8());
    r.push(sub_instruction);
    assert(r@ =~= pausable_data(sub_instruction));
    r
}

/// The roles of a mint and a pause authority with `num_signers`
/// multisignature signers: the mint is writable; the authority signs when
/// it has no signers of its own; each signer is a read-only signer.
pub open spec fn authority_roles(num_signers: nat) -> Seq<AccountRole> {
    seq![
        AccountRole { writable: true, signer: false },
        AccountRole { writable: false, signer: num_signers == 0 },
    ] + Seq::new(num_signers, |i: int| AccountRole { writable: false, signer: true })
}

/// The roles of a mint, its pause authority and `n` multisignature
/// signers: the mint is writable and does not sign; the authority is
/// read-only and signs exactly when it has no signers of its own (with one
/// or more signers it is a plain read-only account); each of the `n` signers
/// is a read-only signer.
pub proof fn lemma_authority_roles(n: nat)
    ensures
        authority_roles(n).len() == 2 + n,
        authority_roles(n)[0] == (AccountRole { writable: true, signer: false }),
        !authority_roles(n)[1].writable,
        authority_roles(n)[1].signer <==> n == 0,
        n >= 1 ==> authority_roles(n)[1] == (AccountRole { writable: false, signer: false }),
        forall|i: int|
            2 <= i < 2 + n ==> #[trigger] authority_roles(n)[i] == (AccountRole {
                writable: false,
                signer: true,
            }),
{
}

/// `InitializePausable` data is the pausable extension byte `44`, the
/// sub-instruction byte `0`, then the authority bytes unchanged, in order.
pub proof fn lemma_initialize_pausable_data(authority: Seq<u8>)
    ensures
        initialize_pausable_data(authority).len() == 2 + authority.len(),
        initialize_pausable_data(authority)[0] == 44,
        initialize_pausable_data(authority)[1] == 0,
        initialize_pausable_data(authority).subrange(2, 2 + authority.len() as int) == authority,
        forall|i: int|
            0 <= i < authority.len() ==> #[trigger] initialize_pausable_data(authority)[2 + i]
                == authority[i],
{
    assert(initialize_pausable_data(authority).subrange(2, 2 + authority.len() as int)
        =~= authority);
}

/// The account roles of an instruction on a mint signed by its pause
/// authority, or `InvalidArgument` when there are more than
/// `MAX_MULTISIG_SIGNERS` signers.
pub(crate) fn multisig_authority_roles(num_signers: usize) -> (r: Result<Vec<AccountRole>, TokenError>)
    ensures
        r is Err <==> num_signers > MAX_MULTISIG_SIGNERS,
        r matches Err(e) ==> e == TokenError::InvalidArgument,
        r matches Ok(roles) ==> roles@ == authority_roles(num_signers as nat),
{
    if num_signers > MAX_MULTISIG_SIGNERS {
        return Err(TokenError::InvalidArgument);
    }
    let mut roles: Vec<AccountRole> = Vec::new();
    roles.push(AccountRole::writable());
    roles.push(AccountRole { writable: false, signer: num_signers == 0 });
    let mut i: usize = 0;
    while i < num_signers
        invariant
            i <= num_signers,
            roles@.len() == 2 + i,
            roles@[0] == (AccountRole { writable: true, signer: false }),
            roles@[1] == (AccountRole { writable: false, signer: num_signers == 0 }),
            forall|j: int| 2 <= j < 2 + i ==> roles@[j] == (AccountRole { writable: false, signer: true }),
        decreases num_signers - i,
    {
        roles.push(AccountRole::readonly_signer());
        i = i + 1;
    }
    assert(roles@ =~= authority_roles(num_signers as nat));
    Ok(roles)
}

/// The accounts of an instruction on `mint` signed by `authority` and its
/// multisignature `signers`, in order.
pub(crate) fn authority_accounts<'a>(
    mint: &'a AccountView,
    authority: &'a AccountView,
    signers: &[&'a AccountView],
) -> (r: Vec<&'a AccountView>)
    ensures
        r@ == seq![mint, authority] + signers@,
{
    let mut r: Vec<&'a AccountView> = Vec::new();
    r.push(mint);
    r.push(authority);
    let mut i: usize = 0;
    while i < signers.len()
        invariant
            i <= signers@.len(),
            r@ == seq![mint, authority] + signers@.subrange(0, i as int),
        decreases signers@.len() - i,
    {
        r.push(signers[i]);
        i = i + 1;
        assert(r@ =~= seq![mint, authority] + signers@.subrange(0, i as int));
    }
    assert(signers@.subrange(0, i as int) =~= signers@);
    r
}

/// The instruction of a pausable sub-instruction without arguments on
/// `mint`, signed by `authority` and its multisignature `multisig_signers`:
/// it goes to `token_program`; the accounts are the mint, the authority and
/// the signers, in order, with `authority_roles`; or `InvalidArgument` when
/// there are more than `MAX_MULTISIG_SIGNERS` signers.
pub(crate) fn multisig_instruction<'a, 'b>(
    sub_instruction: u8,
    mint: &'a AccountView,
    authority: &'a AccountView,
    multisig_signers: &[&'a AccountView],
    token_program: &'b Address,
) -> (r: Result<BoundedInstruction<'a, 'b>, TokenError>)
    ensures
        r is Err <==> multisig_signers@.len() > MAX_MULTISIG_SIGNERS,
        r matches Err(e) ==> e == TokenError::InvalidArgument,
        r matches Ok(ix) ==> {
            &&& ix.program_id == token_program
            &&& ix.accounts@ == seq![mint, authority] + multisig_signers@
            &&& ix.roles@ == authority_roles(multisig_signers@.len())
            &&& ix.data@ == pausable_data(sub_instruction)
        },
{
    let roles = multisig_authority_roles(multisig_signers.len())?;
    Ok(BoundedInstruction {
        program_id: token_program,
        accounts: authority_accounts(mint, authority, multisig_signers),
        roles,
        data: pausable_instruction_data(sub_instruction),
    })
}

/// Initialize the pausable extension for a mint.
///
/// ### Accounts:
///   0. `[WRITE]` The mint to initialize.
pub struct InitializePausable<'a, 'b> {
    /// The mint to initialize the pausable config
    pub mint: &'a AccountView,
    /// The address bytes of the account that can pause or resume activity on the mint
    pub authority: [u8; 32],
    /// Token Program
    pub token_program: &'b Address,
}

impl<'a, 'b> InitializePausable<'a, 'b> {
    pub const DISCRIMINATOR: u8 = 0;

    /// The instruction data for the pause authority with address bytes
    /// `authority`.
    ///
    /// Layout:
    /// - `[0]`: token instruction discriminator (`Pausable`)
    /// - `[1]`: extension sub-instruction (`Initialize = 0`)
    /// - `[2..34]`: authority address (32 bytes)
    pub fn instruction_data(authority: &[u8; 32]) -> (r: Vec<u8>)
        ensures
            r@ == initialize_pausable_data(authority@),
    {
        let mut r = pausable_instruction_data(Self::DISCRIMINATOR);
        push_bytes(&mut r, authority);
        r
    }

    /// Role of the mint account.
    pub fn instruction_accounts() -> (r: [AccountRole; 1])
        ensures
            r@ == seq![AccountRole { writable: true, signer: false }],
    {
        let r = [AccountRole::writable()];
        assert(r@ =~= seq![AccountRole { writable: true, signer: false }]);
        r
    }

    /// The instruction that `invoke_signed` hands to the runtime: it goes to
    /// `token_program` with the mint writable and the data that names
    /// `authority`.
    pub fn instruction(&self) -> (ix: Instruction<'a, 'b, 1>)
        ensures
            ix.program_id == self.token_program,
            ix.accounts@ == seq![self.mint],
            ix.roles@ == seq![AccountRole { writable: true, signer: false }],
            ix.data@ == initialize_pausable_data(self.authority@),
            ix.parts() == self.sent_instruction(),
    {
        let ix = Instruction {
            program_id: self.token_program,
            accounts: [self.mint],
            roles: Self::instruction_accounts(),
            data: Self::instruction_data(&self.authority),
        };
        assert(ix.accounts@ =~= seq![self.mint]);
        ix
    }

    /// Invoke the `InitializePausable` instruction.
    pub fn invoke(&self) -> (r: Result<(), TokenError>)
        ensures
            r matches Err(e) ==> e is Runtime,
    {
        self.invoke_signed(&[])
    }

    /// Invoke the `InitializePausable` instruction with signers:
    /// `self.instruction()` is handed to the runtime, and the result is that
    /// of the invocation.
    pub fn invoke_signed(&self, signers: &[Signer]) -> (r: Result<(), TokenError>)
        ensures
            r matches Err(e) ==> e is Runtime,
    {
        let ix = self.instruction();
        match cpi_invoke_signed(self, &ix, signers) {
            Ok(()) => Ok(()),
            Err(e) => Err(TokenError::Runtime(e)),
        }
    }
}

/// Pause a mint, preventing all token operations.
///
/// ### Accounts:
///   0. `[WRITE]` The mint to pause.
///   1. `[SIGNER]` The mint's pause authority.
pub struct Pause<'a, 'b> {
    /// The mint to pause
    pub mint: &'a AccountView,
    /// The mint's pause authority
    pub pause_authority: &'a AccountView,
    /// Token Program
    pub token_program: &'b Address,
}

impl<'a, 'b> Pause<'a, 'b> {
    pub const DISCRIMINATOR: u8 = 1;

    /// The instruction data: the token instruction discriminator
    /// (`Pausable`), then the sub-instruction (`Pause = 1`).
    pub fn instruction_data() -> (r: Vec<u8>)
        ensures
            r@ == pausable_data(Self::DISCRIMINATOR),
    {
        pausable_instruction_data(Self::DISCRIMINATOR)
    }

    /// Roles of the mint and pause authority accounts.
    pub fn instruction_accounts() -> (r: [AccountRole; 2])
        ensures
            r@ == authority_roles(0),
    {
        let r = [AccountRole::writable(), AccountRole::readonly_signer()];
        assert(r@ =~= authority_roles(0));
        r
    }

    /// The instruction that `invoke_signed` hands to the runtime: it goes to
    /// `token_program` with the `Pause` data, the mint writable and the pause
    /// authority a read-only signer.
    pub fn instruction(&self) -> (ix: Instruction<'a, 'b, 2>)
        ensures
            ix.program_id == self.token_program,
            ix.accounts@ == seq![self.mint, self.pause_authority],
            ix.roles@ == seq![AccountRole { writable: true, signer: false }, AccountRole { writable: false, signer: true }],
            ix.data@ == pausable_data(Self::DISCRIMINATOR),
            ix.parts() == self.sent_instruction(),
    {
        let ix = Instruction {
            program_id: self.token_program,
            accounts: [self.mint, self.pause_authority],
            roles: Self::instruction_accounts(),
            data: Self::instruction_data(),
        };
        assert(ix.accounts@ =~= seq![self.mint, self.pause_authority]);
        assert(ix.roles@ =~= seq![AccountRole { writable: true, signer: false }, AccountRole { writable: false, signer: true }]);
        ix
    }

    /// Invoke the `Pause` instruction.
    pub fn invoke(&self) -> (r: Result<(), TokenError>)
        ensures
            r matches Err(e) ==> e is Runtime,
    {
        self.invoke_signed(&[])
    }

    /// Invoke the `Pause` instruction with signers: `self.instruction()` is
    /// handed to the runtime, and the result is that of the invocation.
    pub fn invoke_signed(&self, signers: &[Signer]) -> (r: Result<(), TokenError>)
        ensures
            r matches Err(e) ==> e is Runtime,
    {
        let ix = self.instruction();
        match cpi_invoke_signed(self, &ix, signers) {
            Ok(()) => Ok(()),
            Err(e) => Err(TokenError::Runtime(e)),
        }
    }
}

/// Resume a paused mint, allowing token operations again.
///
/// ### Accounts:
///   0. `[WRITE]` The mint to resume.
///   1. `[SIGNER]` The mint's pause authority.
pub struct Resume<'a, 'b> {
    /// The mint to resume
    pub mint: &'a AccountView,
    /// The mint's pause authority
    pub pause_authority: &'a AccountView,
    /// Token Program
    pub token_program: &'b Address,
}

impl<'a, 'b> Resume<'a, 'b> {
    pub const DISCRIMINATOR: u8 = 2;

    /// The instruction data: the token instruction discriminator
    /// (`Pausable`), then the sub-instruction (`Resume = 2`).
    pub fn instruction_data() -> (r: Vec<u8>)
        ensures
            r@ == pausable_data(Self::DISCRIMINATOR),
    {
        pausable_instruction_data(Self::DISCRIMINATOR)
    }

    /// Roles of the mint and pause authority accounts.
    pub fn instruction_accounts() -> (r: [AccountRole; 2])
        ensures
            r@ == authority_roles(0),
    {
        let r = [AccountRole::writable(), AccountRole::readonly_signer()];
        assert(r@ =~= authority_roles(0));
        r
    }

    /// The instruction that `invoke_signed` hands to the runtime: it goes to
    /// `token_program` with the `Resume` data, the mint writable and the pause
    /// authority a read-only signer.
    pub fn instruction(&self) -> (ix: Instruction<'a, 'b, 2>)
        ensures
            ix.program_id == self.token_program,
            ix.accounts@ == seq![self.mint, self.pause_authority],
            ix.roles@ == seq![AccountRole { writable: true, signer: false }, AccountRole { writable: false, signer: true }],
            ix.data@ == pausable_data(Self::DISCRIMINATOR),
            ix.parts() == self.sent_instruction(),
    {
        let ix = Instruction {
            program_id: self.token_program,
            accounts: [self.mint, self.pause_authority],
            roles: Self::instruction_accounts(),
            data: Self::instruction_data(),
        };
        assert(ix.accounts@ =~= seq![self.mint, self.pause_authority]);
        assert(ix.roles@ =~= seq![AccountRole { writable: true, signer: false }, AccountRole { writable: false, signer: true }]);
        ix
    }

    /// Invoke the `Resume` instruction.
    pub fn invoke(&self) -> (r: Result<(), TokenError>)
        ensures
            r matches Err(e) ==> e is Runtime,
    {
        self.invoke_signed(&[])
    }

    /// Invoke the `Resume` instruction with signers: `self.instruction()` is
    /// handed to the runtime, and the result is that of the invocation.
    pub fn invoke_signed(&self, signers: &[Signer]) -> (r: Result<(), TokenError>)
        ensures
            r matches Err(e) ==> e is Runtime,
    {
        let ix = self.instruction();
        match cpi_invoke_signed(self, &ix, signers) {
            Ok(()) => Ok(()),
            Err(e) => Err(TokenError::Runtime(e)),
        }
    }
}

impl<'a, 'b> SendsInstruction<'a, 'b> for InitializePausable<'a, 'b> {
    /// The mint, and the data that names the authority, to the token program.
    open spec fn sent_instruction(&self) -> InstructionParts<'a, 'b> {
        InstructionParts {
            program_id: self.token_program,
            accounts: seq![self.mint],
            roles: seq![AccountRole { writable: true, signer: false }],
            data: initialize_pausable_data(self.authority@),
        }
    }
}

impl<'a, 'b> SendsInstruction<'a, 'b> for Pause<'a, 'b> {
    /// The mint and pause authority, with the `Pause` data, to the token program.
    open spec fn sent_instruction(&self) -> InstructionParts<'a, 'b> {
        InstructionParts {
            program_id: self.token_program,
            accounts: seq![self.mint, self.pause_authority],
            roles: seq![AccountRole { writable: true, signer: false }, AccountRole { writable: false, signer: true }],
            data: pausable_data(Self::DISCRIMINATOR),
        }
    }
}

impl<'a, 'b> SendsInstruction<'a, 'b> for Resume<'a, 'b> {
    /// The mint and pause authority, with the `Resume` data, to the token program.
    open spec fn sent_instruction(&self) -> InstructionParts<'a, 'b> {
        InstructionParts {
            program_id: self.token_program,
            accounts: seq![self.mint, self.pause_authority],
            roles: seq![AccountRole { writable: true, signer: false }, AccountRole { writable: false, signer: true }],
            data: pausable_data(Self::DISCRIMINATOR),
        }
    }
}

} // verus!
