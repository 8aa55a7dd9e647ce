use crate::error::TokenError;
use crate::runtime::{account_data_len, account_owner, account_try_borrow, borrowed_bytes};
use crate::ID;
use solana_account_view::{AccountView, Ref};
use solana_program_error::ProgramError;
use vstd::prelude::*;

verus! {

/// The fields of a pausable configuration.
pub struct PausableConfigView {
    pub authority: Seq<u8>,
    pub paused: u8,
}

/// The pausable configuration stored in the first `PausableConfig::LEN`
/// bytes of `bytes`: 32 authority bytes, then the paused byte.
pub open spec fn parse_pausable_config(bytes: Seq<u8>) -> PausableConfigView {
    PausableConfigView { authority: bytes.subrange(0, 32), paused: bytes[32] }
}

/// Whether two addresses have the same bytes.
fn same_address(a: &[u8; 32], b: &[u8; 32]) -> (r: bool)
    ensures
        r == (a@ == b@),
{
    let mut i: usize = 0;
    while i < 32
        invariant
            i <= 32,
            a@.len() == 32,
            b@.len() == 32,
            forall|j: int| 0 <= j < i ==> a@[j] == b@[j],
        decreases 32 - i,
    {
        if a[i] != b[i] {
            return false;
        }
        i = i + 1;
    }
    assert(a@ =~= b@);
    true
}

/// The configuration is read from its stored form: 32 authority bytes in
/// order, then the paused byte; whatever follows is ignored.
pub proof fn lemma_pausable_config_roundtrip(authority: Seq<u8>, paused: u8, rest: Seq<u8>)
    requires
        authority.len() == 32,
    ensures
        parse_pausable_config(authority + seq![paused] + rest).authority == authority,
        parse_pausable_config(authority + seq![paused] + rest).paused == paused,
{
    let b = authority + seq![paused] + rest;
    assert(b.subrange(0, 32) =~= authority);
}

/// Each authority byte read is the byte stored at the same position, and
/// the paused flag is the byte after the authority.
pub proof fn lemma_pausable_config_bytes(bytes: Seq<u8>)
    requires
        bytes.len() >= PausableConfig::LEN,
    ensures
        parse_pausable_config(bytes).authority.len() == 32,
        forall|i: int|
            0 <= i < 32 ==> #[trigger] parse_pausable_config(bytes).authority[i] == bytes[i],
        parse_pausable_config(bytes).paused == bytes[32],
{
}

/// Pausable configuration for a mint.
///
/// Indicates that the tokens from this mint can be paused. When paused,
/// minting, transferring, and burning tokens is disallowed.
pub struct PausableConfig {
    /// Authority that can pause or resume activity on the mint.
    authority: [u8; 32],
    /// Whether minting / transferring / burning tokens is paused.
    /// Value is 1 when paused, 0 when active.
    paused: u8,
}

impl View for PausableConfig {
    type V = PausableConfigView;

    closed spec fn view(&self) -> PausableConfigView {
        PausableConfigView { authority: self.authority@, paused: self.paused }
    }
}

impl PausableConfig {
    /// The length of the `PausableConfig` data.
    pub const LEN: usize = 33;

    /// The outcome of the owner and length checks on a pausable
    /// configuration account with `data_len` data bytes, owned by the
    /// program with address bytes `owner`: the length is checked first, then
    /// that the owner is the Token-2022 program `ID`.
    pub fn check_account(data_len: usize, owner: &[u8; 32]) -> (r: Result<(), TokenError>)
        ensures
            r == (if data_len < Self::LEN {
                Err(TokenError::InvalidAccountData)
            } else if owner@ != ID@ {
                Err(TokenError::InvalidAccountOwner)
            } else {
                Ok(())
            }),
    {
        if data_len < Self::LEN {
            return Err(TokenError::InvalidAccountData);
        }
        if !same_address(owner, &ID) {
            return Err(TokenError::InvalidAccountOwner);
        }
        Ok(())
    }

    /// Return the `PausableConfig` of the given account, holding a shared
    /// borrow of the account data for as long as the result lives.
    ///
    /// Checks the data length, then the owner (the Token-2022 program), then
    /// borrows the account data, failing with the runtime's error when it is
    /// mutably borrowed, and reads the configuration from the borrowed data.
    pub fn from_account_view(account_view: &AccountView) -> (r: Result<PausableConfigRef<'_>, TokenError>)
        ensures
            r matches Err(e) ==> e == TokenError::InvalidAccountData || e
                == TokenError::InvalidAccountOwner || e is Runtime,
    {
        let data_len = account_data_len(account_view);
        let owner = account_owner(account_view);
        Self::check_account(data_len, &owner)?;
        Self::from_borrow(account_try_borrow(account_view))
    }

    /// The configuration behind the outcome of borrowing account data: a
    /// failed borrow's error is handed on unchanged; a successful borrow is
    /// read with `from_bytes`, and the borrow is kept in the result.
    pub fn from_borrow<'a>(borrow: Result<Ref<'a, [u8]>, ProgramError>) -> (r: Result<PausableConfigRef<'a>, TokenError>)
        ensures
            borrow matches Err(e) ==> r == Err::<PausableConfigRef<'a>, TokenError>(
                TokenError::Runtime(e),
            ),
            borrow is Ok ==> (r is Ok || r == Err::<PausableConfigRef<'a>, TokenError>(
                TokenError::InvalidAccountData,
            )),
            r matches Ok(c) ==> exists|b: Seq<u8>|
                b.len() >= Self::LEN && c.config_spec()@ == #[trigger] parse_pausable_config(b),
    {
        match borrow {
            Ok(guard) => {
                let bytes = borrowed_bytes(&guard);
                let config = Self::from_bytes(bytes)?;
                let r = PausableConfigRef { config, guard };
                assert(r.config_spec()@ == parse_pausable_config(bytes@));
                Ok(r)
            },
            Err(e) => Err(TokenError::Runtime(e)),
        }
    }

    /// Return the `PausableConfig` stored in `bytes`, or `InvalidAccountData`
    /// when `bytes` is shorter than `LEN`.
    pub fn from_bytes(bytes: &[u8]) -> (r: Result<PausableConfig, TokenError>)
        ensures
            r is Err <==> bytes@.len() < Self::LEN,
            r matches Err(e) ==> e == TokenError::InvalidAccountData,
            r matches Ok(c) ==> c@ == parse_pausable_config(bytes@),
    {
        if bytes.len() < Self::LEN {
            return Err(TokenError::InvalidAccountData);
        }
        Ok(Self::from_bytes_unchecked(bytes))
    }

    /// Return a `PausableConfig` read from the first `LEN` bytes of `bytes`.
    pub fn from_bytes_unchecked(bytes: &[u8]) -> (r: PausableConfig)
        requires
            bytes@.len() >= Self::LEN,
        ensures
            r@ == parse_pausable_config(bytes@),
    {
        let mut authority = [0u8; 32];
        let mut i: usize = 0;
        while i < 32
            invariant
                i <= 32,
                bytes@.len() >= Self::LEN,
                authority@.len() == 32,
                forall|j: int| 0 <= j < i ==> authority@[j] == bytes@[j],
            decreases 32 - i,
        {
            authority[i] = bytes[i];
            i = i + 1;
        }
        assert(authority@ =~= bytes@.subrange(0, 32));
        PausableConfig { authority, paused: bytes[32] }
    }

    /// Return the authority that can pause or resume the mint.
    pub fn authority(&self) -> (r: &[u8; 32])
        ensures
            r@ == self@.authority,
    {
        &self.authority
    }

    /// Return whether the mint is currently paused.
    pub fn is_paused(&self) -> (r: bool)
        ensures
            r == (self@.paused != 0),
    {
        self.paused != 0
    }
}

/// A `PausableConfig` read from account data that stays borrowed (shared)
/// for as long as this value lives.
pub struct PausableConfigRef<'a> {
    /// The configuration read from the borrowed data.
    config: PausableConfig,
    /// The shared borrow of the account data, released when this value is
    /// dropped.
    #[allow(dead_code)]
    guard: Ref<'a, [u8]>,
}

impl<'a> PausableConfigRef<'a> {
    /// The configuration.
    pub fn config(&self) -> (r: &PausableConfig)
        ensures
            *r == self.config_spec(),
    {
        &self.config
    }

    /// The configuration, in contracts.
    pub closed spec fn config_spec(&self) -> PausableConfig {
        self.config
    }

    /// Return the authority that can pause or resume the mint.
    pub fn authority(&self) -> (r: &[u8; 32])
        ensures
            r@ == self.config_spec()@.authority,
    {
        self.config.authority()
    }

    /// Return whether the mint is currently paused.
    pub fn is_paused(&self) -> (r: bool)
        ensures
            r == (self.config_spec()@.paused != 0),
    {
        self.config.is_paused()
    }
}

} // verus!
