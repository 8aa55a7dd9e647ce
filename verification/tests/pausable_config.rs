use token_2022_ext::instructions::extensions::state::pausable_config::PausableConfig;
use token_2022_ext::TokenError;

#[test]
fn pausable_config_reads_authority_and_flag() {
    let mut bytes = vec![9u8; 32];
    bytes.push(1);
    let config = PausableConfig::from_bytes(&bytes).unwrap();
    assert_eq!(config.authority(), &[9u8; 32]);
    assert!(config.is_paused());

    bytes[32] = 0;
    assert!(!PausableConfig::from_bytes_unchecked(&bytes).is_paused());

    // Any nonzero byte means paused; trailing bytes are ignored.
    bytes[32] = 0x80;
    bytes.extend_from_slice(&[0u8; 10]);
    assert!(PausableConfig::from_bytes_unchecked(&bytes).is_paused());
}

#[test]
fn pausable_config_too_short() {
    assert_eq!(PausableConfig::LEN, 33);
    assert_eq!(
        PausableConfig::from_bytes(&[0u8; 32]).err(),
        Some(TokenError::InvalidAccountData)
    );
}

#[test]
fn pausable_config_account_checks() {
    let token_2022 = token_2022_ext::ID;
    let other = [0u8; 32];
    assert_eq!(
        PausableConfig::check_account(32, &token_2022),
        Err(TokenError::InvalidAccountData)
    );
    // The length is checked before the owner.
    assert_eq!(
        PausableConfig::check_account(0, &other),
        Err(TokenError::InvalidAccountData)
    );
    assert_eq!(
        PausableConfig::check_account(33, &other),
        Err(TokenError::InvalidAccountOwner)
    );
    // An owner that differs from the program in its last byte only.
    let mut almost = token_2022;
    almost[31] ^= 1;
    assert_eq!(
        PausableConfig::check_account(33, &almost),
        Err(TokenError::InvalidAccountOwner)
    );
    assert_eq!(PausableConfig::check_account(33, &token_2022), Ok(()));
}
