use crate::codec::{length_prefixed, push_bytes, push_length_prefixed};
use crate::error::TokenError;
use crate::instructions::extensions::metadata::MAX_IX_DATA;
use crate::instructions::{AccountRole, Instruction, InstructionParts, SendsInstruction};
use crate::runtime::cpi_invoke_signed;
use solana_account_view::AccountView;
use solana_address::Address;
use solana_instruction_view::cpi::Signer;
use vstd::prelude::*;
use vstd::string::StringSliceAdditionalSpecFns;

verus! {

/// Instruction data of `InitializeMetadata`: the discriminator, then the
/// name, symbol and uri, each as `u32 length | bytes`.
pub open spec fn initialize_metadata_data(name: Seq<u8>, symbol: Seq<u8>, uri: Seq<u8>) -> Seq<u8> {
    InitializeMetadata::DISCRIMINATOR@ + length_prefixed(name) + length_prefixed(symbol)
        + length_prefixed(uri)
}

/// Initialize token metadata for a Token-2022 mint.
///
/// This instruction creates and populates the metadata account with
/// the token's name, symbol, and URI.
///
/// Accounts expected by this instruction:
///
///   0. `[writable]` The metadata account.
///   1. `[]` The update authority.
///   2. `[]` The mint.
///   3. `[signer]` The mint authority.
pub struct InitializeMetadata<'a, 'b> {
    /// The metadata account to initialize
    pub metadata: &'a AccountView,
    /// The authority that can update the metadata
    pub update_authority: &'a AccountView,
    /// The mint account
    pub mint: &'a AccountView,
    /// The mint authority (must sign)
    pub mint_authority: &'a AccountView,
    /// Token name
    pub name: &'a str,
    /// Token symbol
    pub symbol: &'a str,
    /// URI to token metadata
    pub uri: &'a str,
    /// Token program (Token-2022).
    pub token_program: &'b Address,
}

impl<'a, 'b> InitializeMetadata<'a, 'b> {
    /// Based on `spl_token_metadata_interface` hash.
    pub const DISCRIMINATOR: [u8; 8] = [210, 225, 30, 162, 88, 184, 77, 141];

    /// Length of the instruction data for these strings.
    pub open spec fn data_len(name: &str, symbol: &str, uri: &str) -> nat {
        8 + 4 + name.spec_bytes().len() + 4 + symbol.spec_bytes().len() + 4
            + uri.spec_bytes().len()
    }

    /// The instruction data, or `InvalidArgument` when it would be longer
    /// than `MAX_IX_DATA`.
    ///
    /// Layout:
    /// - `[0..8]`: instruction discriminator
    /// - `[8..12]`: name length (`u32`), then the name bytes
    /// - symbol length (`u32`), then the symbol bytes
    /// - uri length (`u32`), then the uri bytes
    pub fn instruction_data(name: &str, symbol: &str, uri: &str) -> (r: Result<Vec<u8>, TokenError>)
        ensures
            r is Err <==> Self::data_len(name, symbol, uri) > MAX_IX_DATA,
            r matches Err(e) ==> e == TokenError::InvalidArgument,
            r matches Ok(d) ==> d@ == initialize_metadata_data(
                name.spec_bytes(),
                symbol.spec_bytes(),
                uri.spec_bytes(),
            ),
    {
        let name = name.as_bytes();
        let symbol = symbol.as_bytes();
        let uri = uri.as_bytes();
        if name.len() > MAX_IX_DATA || symbol.len() > MAX_IX_DATA || uri.len() > MAX_IX_DATA {
            return Err(TokenError::InvalidArgument);
        }
        let ix_len = 8 + 4 + name.len() + 4 + symbol.len() + 4 + uri.len();
        if ix_len > MAX_IX_DATA {
            return Err(TokenError::InvalidArgument);
        }
        let mut data: Vec<u8> = Vec::new();
        push_bytes(&mut data, &Self::DISCRIMINATOR);
        push_length_prefixed(&mut data, name);
        push_length_prefixed(&mut data, symbol);
        push_length_prefixed(&mut data, uri);
        Ok(data)
    }

    /// Roles of the metadata, update authority, mint and mint authority
    /// accounts, in that order.
    pub fn instruction_accounts() -> (r: [AccountRole; 4])
        ensures
            r@ == seq![
                AccountRole { writable: true, signer: false },
                AccountRole { writable: false, signer: false },
                AccountRole { writable: false, signer: false },
                AccountRole { writable: false, signer: true },
            ],
    {
        let r = [
            AccountRole::writable(),
            AccountRole::readonly(),
            AccountRole::readonly(),
            AccountRole::readonly_signer(),
        ];
        assert(r@ =~= seq![
            AccountRole { writable: true, signer: false },
            AccountRole { writable: false, signer: false },
            AccountRole { writable: false, signer: false },
            AccountRole { writable: false, signer: true },
        ]);
        r
    }

    /// The instruction that `invoke_signed` hands to the runtime: it goes to
    /// `token_program`, with the accounts in the documented order and roles
    /// and the instruction data of this instruction's own fields; or
    /// `InvalidArgument` when the data would be longer than `MAX_IX_DATA`.
    pub fn instruction(&self) -> (r: Result<Instruction<'a, 'b, 4>, TokenError>)
        ensures
            r is Err <==> Self::data_len(self.name, self.symbol, self.uri) > MAX_IX_DATA,
            r matches Err(e) ==> e == TokenError::InvalidArgument,
            r matches Ok(ix) ==> {
                &&& ix.program_id == self.token_program
                &&& ix.accounts@ == seq![self.metadata, self.update_authority, self.mint, self.mint_authority]
                &&& ix.roles@ == seq![AccountRole { writable: true, signer: false }, AccountRole { writable: false, signer: false }, AccountRole { writable: false, signer: false }, AccountRole { writable: false, signer: true }]
                &&& ix.data@ == initialize_metadata_data(self.name.spec_bytes(), self.symbol.spec_bytes(), self.uri.spec_bytes())
                &&& ix.parts() == self.sent_instruction()
            },
    {
        let data = Self::instruction_data(self.name, self.symbol, self.uri)?;
        let ix = Instruction {
            program_id: self.token_program,
            accounts: [self.metadata, self.update_authority, self.mint, self.mint_authority],
            roles: Self::instruction_accounts(),
            data,
        };
        assert(ix.accounts@ =~= seq![self.metadata, self.update_authority, self.mint, self.mint_authority]);
        Ok(ix)
    }

    /// Invoke the `InitializeMetadata` instruction.
    pub fn invoke(&self) -> (r: Result<(), TokenError>)
        ensures
            r == Err::<(), TokenError>(TokenError::InvalidArgument) <==> Self::data_len(
                self.name,
                self.symbol,
                self.uri,
            ) > MAX_IX_DATA,
            r matches Err(e) ==> e == TokenError::InvalidArgument || e is Runtime,
    {
        self.invoke_signed(&[])
    }

    /// Invoke the `InitializeMetadata` instruction with signers.
    ///
    /// Fails with `InvalidArgument`, before any call, when the instruction
    /// data would be longer than `MAX_IX_DATA`; otherwise `self.instruction()`
    /// is handed to the runtime, and the result is that of the invocation.
    pub fn invoke_signed(&self, signers: &[Signer]) -> (r: Result<(), TokenError>)
        ensures
            r == Err::<(), TokenError>(TokenError::InvalidArgument) <==> Self::data_len(
                self.name,
                self.symbol,
                self.uri,
            ) > MAX_IX_DATA,
            r matches Err(e) ==> e == TokenError::InvalidArgument || e is Runtime,
    {
        let ix = self.instruction()?;
        match cpi_invoke_signed(self, &ix, signers) {
            Ok(()) => Ok(()),
            Err(e) => Err(TokenError::Runtime(e)),
        }
    }
}

impl<'a, 'b> SendsInstruction<'a, 'b> for InitializeMetadata<'a, 'b> {
    /// The metadata, update authority, mint and mint authority, in that order,
    /// and the name, symbol and uri of this builder, to the token program.
    open spec fn sent_instruction(&self) -> InstructionParts<'a, 'b> {
        InstructionParts {
            program_id: self.token_program,
            accounts: seq![self.metadata, self.update_authority, self.mint, self.mint_authority],
            roles: seq![AccountRole { writable: true, signer: false }, AccountRole { writable: false, signer: false }, AccountRole { writable: false, signer: false }, AccountRole { writable: false, signer: true }],
            data: initialize_metadata_data(self.name.spec_bytes(), self.symbol.spec_bytes(), self.uri.spec_bytes()),
        }
    }
}

} // verus!
