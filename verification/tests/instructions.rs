use token_2022_ext::instructions::extensions::metadata::initialize::InitializeMetadata;
use token_2022_ext::instructions::extensions::metadata::remove_key::RemoveKey;
use token_2022_ext::instructions::extensions::metadata::update_field::{Field, UpdateField};
use token_2022_ext::instructions::extensions::metadata::MAX_IX_DATA;
use token_2022_ext::instructions::extensions::pausable::initialize::InitializePausable as InitializePausableUnsigned;
use token_2022_ext::instructions::extensions::pausable::pause::Pause as MultisigPause;
use token_2022_ext::instructions::extensions::pausable::resume::Resume as MultisigResume;
use token_2022_ext::instructions::extensions::pausable::{InitializePausable, Pause, Resume};
use token_2022_ext::instructions::extensions::ExtensionDiscriminator;
use token_2022_ext::instructions::{AccountRole, MAX_MULTISIG_SIGNERS};
use token_2022_ext::state::metadata::Metadata;
use token_2022_ext::TokenError;

fn lp(bytes: &[u8]) -> Vec<u8> {
    let mut v = (bytes.len() as u32).to_le_bytes().to_vec();
    v.extend_from_slice(bytes);
    v
}

const W: AccountRole = AccountRole { writable: true, signer: false };
const R: AccountRole = AccountRole { writable: false, signer: false };
const RS: AccountRole = AccountRole { writable: false, signer: true };

#[test]
fn initialize_metadata_data_layout() {
    let data = InitializeMetadata::instruction_data("My Token", "MTK", "https://x").unwrap();
    let mut expected = vec![210, 225, 30, 162, 88, 184, 77, 141];
    expected.extend(lp(b"My Token"));
    expected.extend(lp(b"MTK"));
    expected.extend(lp(b"https://x"));
    assert_eq!(data, expected);
    assert_eq!(data.len(), 8 + 4 + 8 + 4 + 3 + 4 + 9);
    assert_eq!(&data[8..12], &[8, 0, 0, 0]);
}

#[test]
fn initialize_metadata_data_too_long() {
    // 8 + 12 prefix bytes leave room for exactly MAX_IX_DATA - 20 string bytes.
    let fits = "a".repeat(MAX_IX_DATA - 20);
    let data = InitializeMetadata::instruction_data(&fits, "", "").unwrap();
    assert_eq!(data.len(), MAX_IX_DATA);
    let too_long = "a".repeat(MAX_IX_DATA - 19);
    assert_eq!(
        InitializeMetadata::instruction_data(&too_long, "", ""),
        Err(TokenError::InvalidArgument)
    );
    assert_eq!(
        InitializeMetadata::instruction_data("", "", &too_long),
        Err(TokenError::InvalidArgument)
    );
}

#[test]
fn initialize_metadata_fields_read_back_as_metadata_fields() {
    // The strings of InitializeMetadata use the length-prefixed form of the
    // metadata account: put them after an authority and a mint and read them.
    let data = InitializeMetadata::instruction_data("Name", "SYM", "uri://u").unwrap();
    let mut account = vec![1u8; 32];
    account.extend_from_slice(&[2u8; 32]);
    account.extend_from_slice(&data[8..]);
    account.extend_from_slice(&0u32.to_le_bytes());
    let metadata = Metadata::from_bytes(&account).unwrap();
    assert_eq!(metadata.name(), b"Name");
    assert_eq!(metadata.symbol(), b"SYM");
    assert_eq!(metadata.uri(), b"uri://u");
}

#[test]
fn initialize_metadata_accounts() {
    assert_eq!(InitializeMetadata::instruction_accounts(), [W, R, R, RS]);
}

#[test]
fn remove_key_data_layout() {
    let data = RemoveKey::instruction_data("color", true).unwrap();
    let mut expected = vec![234, 18, 32, 56, 89, 141, 37, 181, 1];
    expected.extend(lp(b"color"));
    assert_eq!(data, expected);
    let data = RemoveKey::instruction_data("color", false).unwrap();
    assert_eq!(data[8], 0);
    assert_eq!(data.len(), 8 + 1 + 4 + 5);
}

#[test]
fn remove_key_too_long() {
    let fits = "k".repeat(MAX_IX_DATA - 13);
    assert_eq!(RemoveKey::instruction_data(&fits, false).unwrap().len(), MAX_IX_DATA);
    let too_long = "k".repeat(MAX_IX_DATA - 12);
    assert_eq!(
        RemoveKey::instruction_data(&too_long, false),
        Err(TokenError::InvalidArgument)
    );
    assert_eq!(RemoveKey::instruction_accounts(), [W, RS]);
}

#[test]
fn field_bytes_and_key_size() {
    assert_eq!(Field::Name.to_u8(), 0);
    assert_eq!(Field::Symbol.to_u8(), 1);
    assert_eq!(Field::Uri.to_u8(), 2);
    assert_eq!(Field::Key("abc").to_u8(), 3);
    assert_eq!(Field::Name.key_size(), 0);
    assert_eq!(Field::Symbol.key_size(), 0);
    assert_eq!(Field::Uri.key_size(), 0);
    assert_eq!(Field::Key("abc").key_size(), 7);
    assert_eq!(Field::Key("").key_size(), 4);
}

#[test]
fn update_field_data_layout() {
    let data = UpdateField::instruction_data(Field::Symbol, "NEW").unwrap();
    let mut expected = vec![221, 233, 49, 45, 181, 202, 220, 200, 1];
    expected.extend(lp(b"NEW"));
    assert_eq!(data, expected);

    let data = UpdateField::instruction_data(Field::Key("rarity"), "rare").unwrap();
    let mut expected = vec![221, 233, 49, 45, 181, 202, 220, 200, 3];
    expected.extend(lp(b"rarity"));
    expected.extend(lp(b"rare"));
    assert_eq!(data, expected);
    assert_eq!(data.len(), 8 + 1 + Field::Key("rarity").key_size() + 4 + 4);
}

#[test]
fn update_field_too_long() {
    let value = "v".repeat(MAX_IX_DATA - 13);
    assert_eq!(
        UpdateField::instruction_data(Field::Uri, &value).unwrap().len(),
        MAX_IX_DATA
    );
    assert_eq!(
        UpdateField::instruction_data(Field::Key("k"), &value),
        Err(TokenError::InvalidArgument)
    );
    let key = "k".repeat(MAX_IX_DATA);
    assert_eq!(
        UpdateField::instruction_data(Field::Key(&key), ""),
        Err(TokenError::InvalidArgument)
    );
    assert_eq!(UpdateField::instruction_accounts(), [W, RS]);
}

#[test]
fn extension_discriminators() {
    assert_eq!(ExtensionDiscriminator::MemoTransfer.to_u8(), 30);
    assert_eq!(ExtensionDiscriminator::Pausable.to_u8(), 44);
}

#[test]
fn pausable_instruction_data() {
    let authority = [7u8; 32];
    let data = InitializePausable::instruction_data(&authority);
    assert_eq!(data[0], 44);
    assert_eq!(data[1], 0);
    assert_eq!(&data[2..], &authority);
    assert_eq!(InitializePausableUnsigned::instruction_data(&authority), data);
    assert_eq!(InitializePausable::instruction_accounts(), [W]);
    assert_eq!(Pause::instruction_data(), [44, 1]);
    assert_eq!(Resume::instruction_data(), [44, 2]);
    assert_eq!(MultisigPause::instruction_data(), [44, 1]);
    assert_eq!(MultisigResume::instruction_data(), [44, 2]);
    assert_eq!(Pause::instruction_accounts(), [W, RS]);
    assert_eq!(Resume::instruction_accounts(), [W, RS]);
}

#[test]
fn multisig_account_roles() {
    // Single authority: the authority signs.
    assert_eq!(MultisigPause::instruction_accounts(0).unwrap(), vec![W, RS]);
    // Multisig authority: the authority does not sign, its signers do.
    assert_eq!(
        MultisigResume::instruction_accounts(3).unwrap(),
        vec![W, R, RS, RS, RS]
    );
    assert_eq!(
        MultisigPause::instruction_accounts(MAX_MULTISIG_SIGNERS).unwrap().len(),
        2 + MAX_MULTISIG_SIGNERS
    );
    assert_eq!(
        MultisigPause::instruction_accounts(MAX_MULTISIG_SIGNERS + 1),
        Err(TokenError::InvalidArgument)
    );
    assert_eq!(
        MultisigResume::instruction_accounts(MAX_MULTISIG_SIGNERS + 1),
        Err(TokenError::InvalidArgument)
    );
}
