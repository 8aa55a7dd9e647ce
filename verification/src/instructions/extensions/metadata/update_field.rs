use crate::codec::{length_prefixed, push_bytes, push_length_prefixed};
use crate::error::TokenError;
use crate::instructions::extensions::metadata::MAX_IX_DATA;
use crate::instructions::{AccountRole, Instruction, InstructionParts, SendsInstruction};
use crate::runtime::cpi_invoke_signed;
use solana_account_view::AccountView;
use solana_address::Address;
use solana_instruction_view::cpi::Signer;
use vstd::prelude::*;
use vstd::string::StringSliceAdditionalSpecFns;

verus! {

/// Field type for metadata updates.
///
/// On the wire the field is one byte, `to_u8`, followed for `Key` by the key
/// as `u32 length | bytes`.
#[derive(Clone, Copy)]
pub enum Field<'a> {
    /// The name field, corresponding to `Metadata.name`
    Name,
    /// The symbol field, corresponding to `Metadata.symbol`
    Symbol,
    /// The uri field, corresponding to `Metadata.uri`
    Uri,
    /// A user field, whose key is given by the associated string
    Key(&'a str),
}

impl Field<'_> {
    /// The field's wire byte.
    pub open spec fn spec_to_u8(&self) -> u8 {
        match self {
            Field::Name => 0,
            Field::Symbol => 1,
            Field::Uri => 2,
            Field::Key(_) => 3,
        }
    }

    /// The serialized key (`u32 length | bytes`) of a `Key` field; empty for
    /// the built-in fields.
    pub open spec fn key_bytes(&self) -> Seq<u8> {
        match self {
            Field::Key(key) => length_prefixed(key.spec_bytes()),
            _ => Seq::empty(),
        }
    }

    /// The field's wire byte: `0` for `Name`, `1` for `Symbol`, `2` for
    /// `Uri` and `3` for `Key`.
    pub fn to_u8(&self) -> (r: u8)
        ensures
            r == self.spec_to_u8(),
    {
        match self {
            Field::Name => 0,
            Field::Symbol => 1,
            Field::Uri => 2,
            Field::Key(_) => 3,
        }
    }

    /// Returns the serialized size of the key field if present.
    /// Returns 0 for built-in fields (Name, Symbol, Uri).
    pub fn key_size(&self) -> (r: usize)
        requires
            self matches Field::Key(key) ==> key.spec_bytes().len() + 4 <= usize::MAX,
        ensures
            r == self.key_bytes().len(),
            r == 0 <==> !(self matches Field::Key(_)),
            r == match self {
                Field::Key(key) => 4 + key.spec_bytes().len(),
                _ => 0,
            },
    {
        match self {
            Field::Key(key) => 4 + key.len(),
            _ => 0,
        }
    }
}

/// Instruction data of `UpdateField`: the discriminator, the field byte, the
/// key of a `Key` field as `u32 length | bytes`, then the value as
/// `u32 length | bytes`.
pub open spec fn update_field_data(field: Field, value: Seq<u8>) -> Seq<u8> {
    UpdateField::DISCRIMINATOR@ + seq![field.spec_to_u8()] + field.key_bytes() + length_prefixed(
        value,
    )
}

/// Update a field in token metadata.
///
/// This instruction updates either a built-in field (Name, Symbol, Uri)
/// or a custom key-value pair in the additional metadata.
///
/// Accounts expected by this instruction:
///
///   0. `[writable]` The metadata account.
///   1. `[signer]` The update authority.
pub struct UpdateField<'a, 'b> {
    /// The metadata account to update
    pub metadata: &'a AccountView,
    /// The authority that can sign to update the metadata
    pub update_authority: &'a AccountView,
    /// Field to update in the metadata
    pub field: Field<'a>,
    /// Value to write for the field
    pub value: &'a str,
    /// Token program (Token-2022).
    pub token_program: &'b Address,
}

impl<'a, 'b> UpdateField<'a, 'b> {
    /// Based on `spl_token_metadata_interface` hash.
    pub const DISCRIMINATOR: [u8; 8] = [221, 233, 49, 45, 181, 202, 220, 200];

    /// Length of the instruction data for this field and value.
    pub open spec fn data_len(field: Field, value: &str) -> nat {
        Self::data_len_of(field, value.spec_bytes().len())
    }

    /// Length of the instruction data for this field and a value of
    /// `value_len` bytes: `8 + 1 + key_size + 4 + value_len`.
    pub open spec fn data_len_of(field: Field, value_len: nat) -> nat {
        8 + 1 + field.key_bytes().len() + 4 + value_len
    }

    /// The instruction data, or `InvalidArgument` when it would be longer
    /// than `MAX_IX_DATA`.
    ///
    /// Layout for `Field::Key`:
    /// - `[0..8]`: instruction discriminator
    /// - `[8..9]`: field byte
    /// - `[9..13]`: key length (`u32`), then the key bytes
    /// - value length (`u32`), then the value bytes
    ///
    /// Layout for `Field::Name`/`Symbol`/`Uri`:
    /// - `[0..8]`: instruction discriminator
    /// - `[8..9]`: field byte
    /// - `[9..13]`: value length (`u32`), then the value bytes
    pub fn instruction_data(field: Field, value: &str) -> (r: Result<Vec<u8>, TokenError>)
        ensures
            r is Err <==> Self::data_len(field, value) > MAX_IX_DATA,
            r matches Err(e) ==> e == TokenError::InvalidArgument,
            r matches Ok(d) ==> d@ == update_field_data(field, value.spec_bytes()),
    {
        let value = value.as_bytes();
        if value.len() > MAX_IX_DATA {
            return Err(TokenError::InvalidArgument);
        }
        let key_size = match field {
            Field::Key(key) => {
                if key.as_bytes().len() > MAX_IX_DATA {
                    return Err(TokenError::InvalidArgument);
                }
                field.key_size()
            },
            _ => field.key_size(),
        };
        let ix_len = 8 + 1 + key_size + 4 + value.len();
        if ix_len > MAX_IX_DATA {
            return Err(TokenError::InvalidArgument);
        }
        let mut data: Vec<u8> = Vec::new();
        push_bytes(&mut data, &Self::DISCRIMINATOR);
        data.push(field.to_u8());
        if let Field::Key(key) = field {
            push_length_prefixed(&mut data, key.as_bytes());
        }
        push_length_prefixed(&mut data, value);
        assert(data@ =~= update_field_data(field, value@));
        Ok(data)
    }

    /// Roles of the metadata and update authority accounts.
    pub fn instruction_accounts() -> (r: [AccountRole; 2])
        ensures
            r@ == seq![
                AccountRole { writable: true, signer: false },
                AccountRole { writable: false, signer: true },
            ],
    {
        let r = [AccountRole::writable(), AccountRole::readonly_signer()];
        assert(r@ =~= seq![
            AccountRole { writable: true, signer: false },
            AccountRole { writable: false, signer: true },
        ]);
        r
    }

    /// The instruction that `invoke_signed` hands to the runtime: it goes to
    /// `token_program`, with the accounts in the documented order and roles
    /// and the instruction data of this instruction's own fields; or
    /// `InvalidArgument` when the data would be longer than `MAX_IX_DATA`.
    pub fn instruction(&self) -> (r: Result<Instruction<'a, 'b, 2>, TokenError>)
        ensures
            r is Err <==> Self::data_len(self.field, self.value) > MAX_IX_DATA,
            r matches Err(e) ==> e == TokenError::InvalidArgument,
            r matches Ok(ix) ==> {
                &&& ix.program_id == self.token_program
                &&& ix.accounts@ == seq![self.metadata, self.update_authority]
                &&& ix.roles@ == seq![AccountRole { writable: true, signer: false }, AccountRole { writable: false, signer: true }]
                &&& ix.data@ == update_field_data(self.field, self.value.spec_bytes())
                &&& ix.parts() == self.sent_instruction()
            },
    {
        let data = Self::instruction_data(self.field, self.value)?;
        let ix = Instruction {
            program_id: self.token_program,
            accounts: [self.metadata, self.update_authority],
            roles: Self::instruction_accounts(),
            data,
        };
        assert(ix.accounts@ =~= seq![self.metadata, self.update_authority]);
        Ok(ix)
    }

    /// Invoke the `UpdateField` instruction.
    pub fn invoke(&self) -> (r: Result<(), TokenError>)
        ensures
            r == Err::<(), TokenError>(TokenError::InvalidArgument) <==> Self::data_len(
                self.field,
                self.value,
            ) > MAX_IX_DATA,
            r matches Err(e) ==> e == TokenError::InvalidArgument || e is Runtime,
    {
        self.invoke_signed(&[])
    }

    /// Invoke the `UpdateField` instruction with signers.
    ///
    /// Fails with `InvalidArgument`, before any call, when the instruction
    /// data would be longer than `MAX_IX_DATA`; otherwise `self.instruction()`
    /// is handed to the runtime, and the result is that of the invocation.
    pub fn invoke_signed(&self, signers: &[Signer]) -> (r: Result<(), TokenError>)
        ensures
            r == Err::<(), TokenError>(TokenError::InvalidArgument) <==> Self::data_len(
                self.field,
                self.value,
            ) > MAX_IX_DATA,
            r matches Err(e) ==> e == TokenError::InvalidArgument || e is Runtime,
    {
        let ix = self.instruction()?;
        match cpi_invoke_signed(self, &ix, signers) {
            Ok(()) => Ok(()),
            Err(e) => Err(TokenError::Runtime(e)),
        }
    }
}

impl<'a, 'b> SendsInstruction<'a, 'b> for UpdateField<'a, 'b> {
    /// The metadata and update authority, and the field and value of this
    /// builder, to the token program.
    open spec fn sent_instruction(&self) -> InstructionParts<'a, 'b> {
        InstructionParts {
            program_id: self.token_program,
            accounts: seq![self.metadata, self.update_authority],
            roles: seq![AccountRole { writable: true, signer: false }, AccountRole { writable: false, signer: true }],
            data: update_field_data(self.field, self.value.spec_bytes()),
        }
    }
}

} // verus!
