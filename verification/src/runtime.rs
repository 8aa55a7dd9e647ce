//! The Solana runtime types and calls that the verified code hands values to.
//!
//! Everything here is trusted: Verus believes the contracts below without
//! proof. The values behind these calls live in runtime memory (account
//! state) or come from the invoked program, so most results carry no
//! promise beyond their type.
use crate::instructions::{BoundedInstruction, Instruction, SendsInstruction, MAX_CPI_ACCOUNTS};
use solana_account_view::{AccountView, Ref};
use solana_address::Address;
use solana_instruction_view::cpi::Signer;
use solana_instruction_view::{InstructionAccount, InstructionView};
use solana_program_error::ProgramError;
use vstd::prelude::*;

verus! {

#[verifier::external_type_specification]
#[verifier::external_body]
pub struct ExAddress(Address);

#[verifier::external_type_specification]
#[verifier::external_body]
pub struct ExAccountView(AccountView);

#[verifier::external_type_specification]
#[verifier::external_body]
pub struct ExSigner<'a, 'b>(Signer<'a, 'b>);

#[verifier::external_type_specification]
#[verifier::external_body]
pub struct ExProgramError(ProgramError);

#[verifier::external_type_specification]
#[verifier::external_body]
#[verifier::reject_recursive_types(T)]
pub struct ExRef<'a, T: ?Sized>(Ref<'a, T>);

/// The data length of an account, from `AccountView::data_len`.
///
/// The length lives in runtime memory, so nothing is promised of it.
#[verifier::external_body]
pub(crate) fn account_data_len(account: &AccountView) -> usize {
    account.data_len()
}

/// The address bytes of the program that owns the account, from
/// `AccountView::owner` and `Address::to_bytes`.
///
/// The owner lives in runtime memory, so nothing is promised of it.
#[verifier::external_body]
pub(crate) fn account_owner(account: &AccountView) -> [u8; 32] {
    account.owner().to_bytes()
}

/// A shared borrow of the account data, from `AccountView::try_borrow`,
/// which fails with `AccountBorrowFailed` while the data is mutably borrowed
/// or no more shared borrows are available. The borrow lasts as long as the
/// returned guard.
///
/// The data and its borrow state live in runtime memory, so nothing is
/// promised of the outcome.
#[verifier::external_body]
pub(crate) fn account_try_borrow(account: &AccountView) -> Result<Ref<'_, [u8]>, ProgramError> {
    account.try_borrow()
}

/// The bytes that a borrow guard gives access to, through its `Deref`.
///
/// The bytes live in runtime memory, so nothing is promised of them.
#[verifier::external_body]
pub(crate) fn borrowed_bytes<'r>(guard: &'r Ref<'_, [u8]>) -> &'r [u8] {
    guard
}

/// Invokes `ix` through `solana_instruction_view::cpi::invoke_signed`: the
/// instruction goes to `ix.program_id` with `ix.data`, its `i`-th account is
/// the address of `ix.accounts[i]` with the role `ix.roles[i]`, and the
/// account views are `ix.accounts`. The caller hands over the instruction
/// that `builder` sends.
///
/// The result comes from the runtime and the invoked program, so nothing is
/// promised of it.
#[verifier::external_body]
pub(crate) fn cpi_invoke_signed<'a, 'b, const N: usize, B: SendsInstruction<'a, 'b>>(
    _builder: &B,
    ix: &Instruction<'a, 'b, N>,
    signers: &[Signer],
) -> Result<(), ProgramError>
    requires
        ix.parts() == _builder.sent_instruction(),
{
    let accounts: [InstructionAccount; N] = core::array::from_fn(
        |i| InstructionAccount::new(ix.accounts[i].address(), ix.roles[i].writable, ix.roles[i].signer),
    );
    let instruction = InstructionView { program_id: ix.program_id, accounts: &accounts, data: &ix.data };
    solana_instruction_view::cpi::invoke_signed(&instruction, &ix.accounts, signers)
}

/// Invokes `ix` with no signer seeds through
/// `solana_instruction_view::cpi::invoke`, building the instruction as
/// `cpi_invoke_signed` does. The caller hands over the instruction that
/// `builder` sends.
///
/// The result comes from the runtime and the invoked program, so nothing is
/// promised of it.
#[verifier::external_body]
pub(crate) fn cpi_invoke<'a, 'b, const N: usize, B: SendsInstruction<'a, 'b>>(
    _builder: &B,
    ix: &Instruction<'a, 'b, N>,
) -> Result<(), ProgramError>
    requires
        ix.parts() == _builder.sent_instruction(),
{
    let accounts: [InstructionAccount; N] = core::array::from_fn(
        |i| InstructionAccount::new(ix.accounts[i].address(), ix.roles[i].writable, ix.roles[i].signer),
    );
    let instruction = InstructionView { program_id: ix.program_id, accounts: &accounts, data: &ix.data };
    solana_instruction_view::cpi::invoke(&instruction, &ix.accounts)
}

/// Invokes `ix` through
/// `solana_instruction_view::cpi::invoke_signed_with_bounds`, with room for
/// `MAX_CPI_ACCOUNTS` accounts: the instruction goes to `ix.program_id` with
/// `ix.data`, its `i`-th account is the address of `ix.accounts[i]` with the
/// role `ix.roles[i]`, and the account views are `ix.accounts`. The caller
/// hands over the instruction that `builder` sends.
///
/// The result comes from the runtime and the invoked program, so nothing is
/// promised of it.
#[verifier::external_body]
pub(crate) fn cpi_invoke_signed_with_bounds<'a, 'b, B: SendsInstruction<'a, 'b>>(
    _builder: &B,
    ix: &BoundedInstruction<'a, 'b>,
    signers: &[Signer],
) -> Result<(), ProgramError>
    requires
        ix.accounts@.len() == ix.roles@.len(),
        ix.parts() == _builder.sent_instruction(),
{
    let accounts: Vec<InstructionAccount> = ix.accounts.iter().zip(ix.roles.iter()).map(
        |(a, r)| InstructionAccount::new(a.address(), r.writable, r.signer),
    ).collect();
    let instruction = InstructionView { program_id: ix.program_id, accounts: &accounts, data: &ix.data };
    solana_instruction_view::cpi::invoke_signed_with_bounds::<MAX_CPI_ACCOUNTS, _>(
        &instruction,
        &ix.accounts,
        signers,
    )
}

} // verus!
