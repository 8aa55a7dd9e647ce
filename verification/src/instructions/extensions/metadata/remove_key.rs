use crate::codec::{length_prefixed, push_bytes, push_length_prefixed};
use crate::error::TokenError;
use crate::instructions::extensions::metadata::MAX_IX_DATA;
use crate::instructions::{AccountRole, Instruction, InstructionParts, SendsInstruction};
use crate::runtime::cpi_invoke_signed;
use solana_account_view::AccountView;
use solana_address::Address;
use solana_instruction_view::cpi::Signer;
use vstd::prelude::*;
use vstd::string::StringSliceAdditionalSpecFns;

verus! {

/// Instruction data of `RemoveKey`: the discriminator, the idempotent flag
/// as one byte, then the key as `u32 length | bytes`.
pub open spec fn remove_key_data(key: Seq<u8>, idempotent: bool) -> Seq<u8> {
    RemoveKey::DISCRIMINATOR@ + seq![if idempotent { 1u8 } else { 0u8 }] + length_prefixed(key)
}

/// Remove a key-value pair from token metadata.
///
/// This instruction removes a custom key from the additional metadata.
/// If `idempotent` is `true`, the instruction succeeds even if the key
/// does not exist.
///
/// Accounts expected by this instruction:
///
///   0. `[writable]` The metadata account.
///   1. `[signer]` The update authority.
pub struct RemoveKey<'a, 'b> {
    /// The metadata account to update
    pub metadata: &'a AccountView,
    /// The account authorized to update the metadata
    pub update_authority: &'a AccountView,
    /// The key to remove from the metadata
    pub key: &'a str,
    /// Whether the operation should be idempotent
    pub idempotent: bool,
    /// Token program (Token-2022).
    pub token_program: &'b Address,
}

impl<'a, 'b> RemoveKey<'a, 'b> {
    /// Based on `spl_token_metadata_interface` hash.
    pub const DISCRIMINATOR: [u8; 8] = [234, 18, 32, 56, 89, 141, 37, 181];

    /// Length of the instruction data for this key.
    pub open spec fn data_len(key: &str) -> nat {
        8 + 1 + 4 + key.spec_bytes().len()
    }

    /// The instruction data, or `InvalidArgument` when it would be longer
    /// than `MAX_IX_DATA`.
    ///
    /// Layout:
    /// - `[0..8]`: instruction discriminator
    /// - `[8..9]`: idempotent flag (`bool` as `u8`)
    /// - `[9..13]`: key length (`u32`), then the key bytes
    pub fn instruction_data(key: &str, idempotent: bool) -> (r: Result<Vec<u8>, TokenError>)
        ensures
            r is Err <==> Self::data_len(key) > MAX_IX_DATA,
            r matches Err(e) ==> e == TokenError::InvalidArgument,
            r matches Ok(d) ==> d@ == remove_key_data(key.spec_bytes(), idempotent),
    {
        let key = key.as_bytes();
        if key.len() > MAX_IX_DATA - 13 {
            return Err(TokenError::InvalidArgument);
        }
        let mut data: Vec<u8> = Vec::new();
        push_bytes(&mut data, &Self::DISCRIMINATOR);
        data.push(if idempotent { 1u8 } else { 0u8 });
        push_length_prefixed(&mut data, key);
        Ok(data)
    }

    /// Roles of the metadata and update authority accounts.
    pub fn instruction_accounts() -> (r: [AccountRole; 2])
        ensures
            r@ == seq![
                AccountRole { writable: true, signer: false },
                AccountRole { writable: false, signer: true },
            ],
    {
        let r = [AccountRole::writable(), AccountRole::readonly_signer()];
        assert(r@ =~= seq![
            AccountRole { writable: true, signer: false },
            AccountRole { writable: false, signer: true },
        ]);
        r
    }

    /// The instruction that `invoke_signed` hands to the runtime: it goes to
    /// `token_program`, with the accounts in the documented order and roles
    /// and the instruction data of this instruction's own fields; or
    /// `InvalidArgument` when the data would be longer than `MAX_IX_DATA`.
    pub fn instruction(&self) -> (r: Result<Instruction<'a, 'b, 2>, TokenError>)
        ensures
            r is Err <==> Self::data_len(self.key) > MAX_IX_DATA,
            r matches Err(e) ==> e == TokenError::InvalidArgument,
            r matches Ok(ix) ==> {
                &&& ix.program_id == self.token_program
                &&& ix.accounts@ == seq![self.metadata, self.update_authority]
                &&& ix.roles@ == seq![AccountRole { writable: true, signer: false }, AccountRole { writable: false, signer: true }]
                &&& ix.data@ == remove_key_data(self.key.spec_bytes(), self.idempotent)
                &&& ix.parts() == self.sent_instruction()
            },
    {
        let data = Self::instruction_data(self.key, self.idempotent)?;
        let ix = Instruction {
            program_id: self.token_program,
            accounts: [self.metadata, self.update_authority],
            roles: Self::instruction_accounts(),
            data,
        };
        assert(ix.accounts@ =~= seq![self.metadata, self.update_authority]);
        Ok(ix)
    }

    /// Invoke the `RemoveKey` instruction.
    pub fn invoke(&self) -> (r: Result<(), TokenError>)
        ensures
            r == Err::<(), TokenError>(TokenError::InvalidArgument) <==> Self::data_len(self.key)
                > MAX_IX_DATA,
            r matches Err(e) ==> e == TokenError::InvalidArgument || e is Runtime,
    {
        self.invoke_signed(&[])
    }

    /// Invoke the `RemoveKey` instruction with signers.
    ///
    /// Fails with `InvalidArgument`, before any call, when the instruction
    /// data would be longer than `MAX_IX_DATA`; otherwise `self.instruction()`
    /// is handed to the runtime, and the result is that of the invocation.
    pub fn invoke_signed(&self, signers: &[Signer]) -> (r: Result<(), TokenError>)
        ensures
            r == Err::<(), TokenError>(TokenError::InvalidArgument) <==> Self::data_len(self.key)
                > MAX_IX_DATA,
            r matches Err(e) ==> e == TokenError::InvalidArgument || e is Runtime,
    {
        let ix = self.instruction()?;
        match cpi_invoke_signed(self, &ix, signers) {
            Ok(()) => Ok(()),
            Err(e) => Err(TokenError::Runtime(e)),
        }
    }
}

impl<'a, 'b> SendsInstruction<'a, 'b> for RemoveKey<'a, 'b> {
    /// The metadata and update authority, and the key and idempotent flag of
    /// this builder, to the token program.
    open spec fn sent_instruction(&self) -> InstructionParts<'a, 'b> {
        InstructionParts {
            program_id: self.token_program,
            accounts: seq![self.metadata, self.update_authority],
            roles: seq![AccountRole { writable: true, signer: false }, AccountRole { writable: false, signer: true }],
            data: remove_key_data(self.key.spec_bytes(), self.idempotent),
        }
    }
}

} // verus!
