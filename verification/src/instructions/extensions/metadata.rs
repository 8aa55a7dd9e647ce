//! Token metadata interface instructions.

pub mod initialize;
pub mod remove_key;
pub mod update_field;

use crate::codec::length_prefixed;
use crate::state::metadata::{
    field_bytes, field_end, field_fits, lemma_field_at, lemma_subrange_prefix,
};
use initialize::{initialize_metadata_data, InitializeMetadata};
use remove_key::{remove_key_data, RemoveKey};
use update_field::{update_field_data, Field, UpdateField};
use crate::instructions::{AccountRole, SendsInstruction};
use vstd::prelude::*;
use vstd::string::StringSliceAdditionalSpecFns;

verus! {

/// Largest instruction data that the metadata instructions build.
pub const MAX_IX_DATA: usize = 1024;

/// `InitializeMetadata` data holds its discriminator, then name, symbol and
/// uri in the same `u32 length | bytes` form in which the metadata account
/// stores them, one after the other, up to the end of the data.
pub proof fn lemma_initialize_metadata_fields(name: Seq<u8>, symbol: Seq<u8>, uri: Seq<u8>)
    requires
        name.len() <= u32::MAX,
        symbol.len() <= u32::MAX,
        uri.len() <= u32::MAX,
    ensures
        ({
            let d = initialize_metadata_data(name, symbol, uri);
            let symbol_at = field_end(d, 8);
            let uri_at = field_end(d, symbol_at);
            &&& d.subrange(0, 8) == InitializeMetadata::DISCRIMINATOR@
            &&& field_fits(d, 8) && field_bytes(d, 8) == name
            &&& field_fits(d, symbol_at) && field_bytes(d, symbol_at) == symbol
            &&& field_fits(d, uri_at) && field_bytes(d, uri_at) == uri
            &&& field_end(d, uri_at) == d.len()
            &&& d.len() == 8 + 4 + name.len() + 4 + symbol.len() + 4 + uri.len()
        }),
{
    let d = initialize_metadata_data(name, symbol, uri);
    let p0 = InitializeMetadata::DISCRIMINATOR@;
    let p1 = p0 + length_prefixed(name);
    let p2 = p1 + length_prefixed(symbol);
    assert(d == p2 + length_prefixed(uri));
    lemma_subrange_prefix(p1, length_prefixed(symbol), 0, 8);
    lemma_subrange_prefix(p2, length_prefixed(uri), 0, 8);
    assert(p1.subrange(0, 8) =~= p0);
    lemma_subrange_prefix(p1, length_prefixed(symbol), 8, p1.len() as int);
    lemma_subrange_prefix(p2, length_prefixed(uri), 8, p1.len() as int);
    assert(p1.subrange(8, p1.len() as int) =~= length_prefixed(name));
    lemma_field_at(d, 8, name);
    lemma_subrange_prefix(p2, length_prefixed(uri), p1.len() as int, p2.len() as int);
    assert(p2.subrange(p1.len() as int, p2.len() as int) =~= length_prefixed(symbol));
    lemma_field_at(d, p1.len() as int, symbol);
    assert(d.subrange(p2.len() as int, d.len() as int) =~= length_prefixed(uri));
    lemma_field_at(d, p2.len() as int, uri);
}

/// `RemoveKey` data holds its discriminator, the idempotent flag as `1` or
/// `0`, then the key as `u32 length | bytes`, up to the end of the data.
pub proof fn lemma_remove_key_fields(key: Seq<u8>, idempotent: bool)
    requires
        key.len() <= u32::MAX,
    ensures
        ({
            let d = remove_key_data(key, idempotent);
            &&& d.subrange(0, 8) == RemoveKey::DISCRIMINATOR@
            &&& d[8] == (if idempotent { 1u8 } else { 0u8 })
            &&& field_fits(d, 9) && field_bytes(d, 9) == key
            &&& field_end(d, 9) == d.len()
            &&& d.len() == 8 + 1 + 4 + key.len()
        }),
{
    let d = remove_key_data(key, idempotent);
    let p1 = RemoveKey::DISCRIMINATOR@ + seq![if idempotent { 1u8 } else { 0u8 }];
    assert(d == p1 + length_prefixed(key));
    lemma_subrange_prefix(p1, length_prefixed(key), 0, 8);
    assert(p1.subrange(0, 8) =~= RemoveKey::DISCRIMINATOR@);
    assert(d.subrange(9, d.len() as int) =~= length_prefixed(key));
    lemma_field_at(d, 9, key);
}

/// `UpdateField` data holds its discriminator and the field byte; for a
/// `Key` field the key follows as `u32 length | bytes`; the value comes
/// last, as `u32 length | bytes`, up to the end of the data.
pub proof fn lemma_update_field_fields(field: Field, value: Seq<u8>)
    requires
        value.len() <= u32::MAX,
        field matches Field::Key(key) ==> key.spec_bytes().len() <= u32::MAX,
    ensures
        ({
            let d = update_field_data(field, value);
            let value_at = 9 + field.key_bytes().len() as int;
            &&& d.subrange(0, 8) == UpdateField::DISCRIMINATOR@
            &&& d[8] == field.spec_to_u8()
            &&& (field matches Field::Key(key) ==> field_fits(d, 9) && field_bytes(d, 9)
                == key.spec_bytes() && field_end(d, 9) == value_at)
            &&& field_fits(d, value_at) && field_bytes(d, value_at) == value
            &&& field_end(d, value_at) == d.len()
            &&& d.len() == UpdateField::data_len_of(field, value.len())
        }),
{
    let d = update_field_data(field, value);
    let p1 = UpdateField::DISCRIMINATOR@ + seq![field.spec_to_u8()];
    let p2 = p1 + field.key_bytes();
    assert(d == p2 + length_prefixed(value));
    lemma_subrange_prefix(p2, length_prefixed(value), 0, 8);
    lemma_subrange_prefix(p1, field.key_bytes(), 0, 8);
    assert(p1.subrange(0, 8) =~= UpdateField::DISCRIMINATOR@);
    assert(d[8] == p1[8]);
    if let Field::Key(key) = field {
        lemma_subrange_prefix(p2, length_prefixed(value), 9, p2.len() as int);
        assert(p2.subrange(9, p2.len() as int) =~= length_prefixed(key.spec_bytes()));
        lemma_field_at(d, 9, key.spec_bytes());
    }
    assert(d.subrange(p2.len() as int, d.len() as int) =~= length_prefixed(value));
    lemma_field_at(d, p2.len() as int, value);
}

/// What `InitializeMetadata` sends: the token program is invoked with the
/// metadata account (writable), the update authority and the mint
/// (read-only) and the mint authority (signer), in that order.
pub proof fn lemma_initialize_metadata_sends_accounts(b: InitializeMetadata)
    ensures
        b.sent_instruction().program_id == b.token_program,
        b.sent_instruction().accounts =~= seq![
            b.metadata,
            b.update_authority,
            b.mint,
            b.mint_authority,
        ],
        b.sent_instruction().roles =~= seq![
            AccountRole { writable: true, signer: false },
            AccountRole { writable: false, signer: false },
            AccountRole { writable: false, signer: false },
            AccountRole { writable: false, signer: true },
        ],
{
}

/// The data that `InitializeMetadata` sends, read field by field after the
/// discriminator, holds the builder's name, then its symbol, then its uri,
/// and nothing after them.
pub proof fn lemma_initialize_metadata_sends_fields(b: InitializeMetadata)
    requires
        b.name.spec_bytes().len() <= u32::MAX,
        b.symbol.spec_bytes().len() <= u32::MAX,
        b.uri.spec_bytes().len() <= u32::MAX,
    ensures
        ({
            let d = b.sent_instruction().data;
            let symbol_at = field_end(d, 8);
            let uri_at = field_end(d, symbol_at);
            &&& d.subrange(0, 8) == InitializeMetadata::DISCRIMINATOR@
            &&& field_bytes(d, 8) == b.name.spec_bytes()
            &&& field_bytes(d, symbol_at) == b.symbol.spec_bytes()
            &&& field_bytes(d, uri_at) == b.uri.spec_bytes()
            &&& field_end(d, uri_at) == d.len()
        }),
{
    lemma_initialize_metadata_fields(
        b.name.spec_bytes(),
        b.symbol.spec_bytes(),
        b.uri.spec_bytes(),
    );
}

/// What `RemoveKey` sends: the token program is invoked with the metadata
/// account (writable) and the update authority (signer); the data byte after
/// the discriminator is `1` exactly when the builder is idempotent, and the
/// key that follows is the builder's key.
pub proof fn lemma_remove_key_sends(b: RemoveKey)
    requires
        b.key.spec_bytes().len() <= u32::MAX,
    ensures
        ({
            let ix = b.sent_instruction();
            &&& ix.program_id == b.token_program
            &&& ix.accounts =~= seq![b.metadata, b.update_authority]
            &&& ix.roles =~= seq![
                AccountRole { writable: true, signer: false },
                AccountRole { writable: false, signer: true },
            ]
            &&& ix.data.subrange(0, 8) == RemoveKey::DISCRIMINATOR@
            &&& (ix.data[8] == 1u8 <==> b.idempotent)
            &&& (ix.data[8] == 0u8 <==> !b.idempotent)
            &&& field_bytes(ix.data, 9) == b.key.spec_bytes()
            &&& field_end(ix.data, 9) == ix.data.len()
        }),
{
    lemma_remove_key_fields(b.key.spec_bytes(), b.idempotent);
}

/// What `UpdateField` sends: the token program is invoked with the
/// metadata account (writable) and the update authority (signer); the data
/// holds the field's byte, the key of a `Key` field, and the builder's value
/// last.
pub proof fn lemma_update_field_sends(b: UpdateField)
    requires
        b.value.spec_bytes().len() <= u32::MAX,
        b.field matches Field::Key(key) ==> key.spec_bytes().len() <= u32::MAX,
    ensures
        ({
            let ix = b.sent_instruction();
            let value_at = 9 + b.field.key_bytes().len() as int;
            &&& ix.program_id == b.token_program
            &&& ix.accounts =~= seq![b.metadata, b.update_authority]
            &&& ix.roles =~= seq![
                AccountRole { writable: true, signer: false },
                AccountRole { writable: false, signer: true },
            ]
            &&& ix.data.subrange(0, 8) == UpdateField::DISCRIMINATOR@
            &&& ix.data[8] == b.field.spec_to_u8()
            &&& (b.field matches Field::Key(key) ==> field_bytes(ix.data, 9) == key.spec_bytes())
            &&& field_bytes(ix.data, value_at) == b.value.spec_bytes()
            &&& field_end(ix.data, value_at) == ix.data.len()
        }),
{
    lemma_update_field_fields(b.field, b.value.spec_bytes());
}

} // verus!
