//! Verified builders of Token-2022 extension instructions.

pub mod extensions;

use solana_account_view::AccountView;
use solana_address::Address;
use vstd::prelude::*;

verus! {

/// Maximum number of multisignature signers.
pub const MAX_MULTISIG_SIGNERS: usize = 11;

/// Room for the accounts of an instruction signed by a multisig authority:
/// the mint, the authority and its signers.
pub const MAX_CPI_ACCOUNTS: usize = 13;

/// How an instruction uses one of its accounts.
#[derive(Debug, Clone, Copy, PartialEq, Eq, Structural)]
pub struct AccountRole {
    /// The invoked program may write the account.
    pub writable: bool,
    /// The account signs the instruction.
    pub signer: bool,
}

impl AccountRole {
    /// A read-only account that does not sign.
    pub fn readonly() -> (r: AccountRole)
        ensures
            !r.writable && !r.signer,
    {
        AccountRole { writable: false, signer: false }
    }

    /// A writable account that does not sign.
    pub fn writable() -> (r: AccountRole)
        ensures
            r.writable && !r.signer,
    {
        AccountRole { writable: true, signer: false }
    }

    /// A read-only account that signs.
    pub fn readonly_signer() -> (r: AccountRole)
        ensures
            !r.writable && r.signer,
    {
        AccountRole { writable: false, signer: true }
    }
}

/// An instruction with a fixed number `N` of accounts, as it is handed to
/// the runtime: the program to invoke, the account views in instruction
/// order, how the instruction uses each of them, and the instruction data.
pub struct Instruction<'a, 'b, const N: usize> {
    /// The program to invoke.
    pub program_id: &'b Address,
    /// The accounts, in instruction order.
    pub accounts: [&'a AccountView; N],
    /// `roles[i]` is how the instruction uses `accounts[i]`.
    pub roles: [AccountRole; N],
    /// The instruction data.
    pub data: Vec<u8>,
}

impl<'a, 'b, const N: usize> Instruction<'a, 'b, N> {
    /// What this instruction hands to the runtime.
    pub open spec fn parts(&self) -> InstructionParts<'a, 'b> {
        InstructionParts {
            program_id: self.program_id,
            accounts: self.accounts@,
            roles: self.roles@,
            data: self.data@,
        }
    }
}

/// An instruction whose number of accounts depends on its arguments (an
/// authority with multisignature signers), as it is handed to the runtime.
pub struct BoundedInstruction<'a, 'b> {
    /// The program to invoke.
    pub program_id: &'b Address,
    /// The accounts, in instruction order.
    pub accounts: Vec<&'a AccountView>,
    /// `roles[i]` is how the instruction uses `accounts[i]`.
    pub roles: Vec<AccountRole>,
    /// The instruction data.
    pub data: Vec<u8>,
}

impl<'a, 'b> BoundedInstruction<'a, 'b> {
    /// What this instruction hands to the runtime.
    pub open spec fn parts(&self) -> InstructionParts<'a, 'b> {
        InstructionParts {
            program_id: self.program_id,
            accounts: self.accounts@,
            roles: self.roles@,
            data: self.data@,
        }
    }
}

/// What an instruction hands to the runtime: the program to invoke, the
/// account views in instruction order, their roles, and the data.
pub struct InstructionParts<'a, 'b> {
    pub program_id: &'b Address,
    pub accounts: Seq<&'a AccountView>,
    pub roles: Seq<AccountRole>,
    pub data: Seq<u8>,
}

/// An instruction builder: the instruction that it sends to the runtime,
/// as a function of its own fields.
pub trait SendsInstruction<'a, 'b> {
    /// The instruction that this builder hands to the runtime.
    spec fn sent_instruction(&self) -> InstructionParts<'a, 'b>;
}

} // verus!
