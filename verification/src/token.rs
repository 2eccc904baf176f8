//! The instruction by which the token program hands a token account to a
//! new owner.

use crate::account::{AccountMeta, AccountMetaView, Instruction, InstructionView};
use crate::error::NftError;
use crate::state::Address;
use solana_program::program_error::ProgramError;
use solana_program::pubkey::Pubkey;
use spl_token::instruction::{set_authority, AuthorityType};
use vstd::prelude::*;

verus! {

/// The ledger's `ProgramError`, the error of
/// `spl_token::instruction::set_authority`. Nothing is said of what it
/// holds.
#[verifier::external_type_specification]
#[verifier::external_body]
pub struct ExProgramError(ProgramError);

/// The address of the token program.
pub open spec fn token_program_id() -> Seq<u8> {
    seq![
        6u8, 221u8, 246u8, 225u8, 215u8, 101u8, 161u8, 147u8, 217u8, 203u8, 225u8, 70u8, 206u8,
        235u8, 121u8, 172u8, 28u8, 180u8, 133u8, 237u8, 95u8, 91u8, 55u8, 145u8, 58u8, 140u8,
        245u8, 133u8, 126u8, 255u8, 0u8, 169u8,
    ]
}

/// The instruction that asks `token_program` to make `new_owner` the owner
/// of the token account `account`, on the word of its present `owner`.
///
/// The program is handed the token account, writable; the owner; and the
/// owner once more as the one who signs. The data are the tag `6` of the
/// operation, `2` for the authority that owns the account, `1` to say that
/// a new owner follows, and the new owner's address.
pub open spec fn owner_transfer(
    token_program: Seq<u8>,
    account: Seq<u8>,
    new_owner: Seq<u8>,
    owner: Seq<u8>,
) -> InstructionView {
    InstructionView {
        program_id: token_program,
        accounts: seq![
            AccountMetaView { pubkey: account, is_signer: false, is_writable: true },
            AccountMetaView { pubkey: owner, is_signer: false, is_writable: false },
            AccountMetaView { pubkey: owner, is_signer: true, is_writable: false },
        ],
        data: seq![6u8, 2u8, 1u8] + new_owner,
    }
}

/// Calls `spl_token::instruction::set_authority` for the authority
/// `AccountOwner`, with `owner` as the present owner and as the only
/// signer. Not proved: that the call fails exactly when `token_program` is
/// not the token program's address, and that the instruction it builds is
/// `owner_transfer` of the four addresses.
#[verifier::external_body]
fn set_account_owner(
    token_program: &Address,
    account: &Address,
    new_owner: &Address,
    owner: &Address,
) -> (res: Result<Instruction, ProgramError>)
    ensures
        res is Ok <==> token_program@ == token_program_id(),
        res matches Ok(instruction) ==> instruction@ == owner_transfer(
            token_program@,
            account@,
            new_owner@,
            owner@,
        ),
{
    let program = Pubkey::new_from_array(*token_program);
    let owned = Pubkey::new_from_array(*account);
    let next = Pubkey::new_from_array(*new_owner);
    let current = Pubkey::new_from_array(*owner);
    let kind = AuthorityType::AccountOwner;
    let built = set_authority(&program, &owned, Some(&next), kind, &current, &[&current])?;
    let accounts = built.accounts.iter().map(|meta| AccountMeta {
        pubkey: meta.pubkey.to_bytes(),
        is_signer: meta.is_signer,
        is_writable: meta.is_writable,
    }).collect();
    Ok(Instruction { program_id: built.program_id.to_bytes(), accounts, data: built.data })
}

/// Builds the instruction that hands the token account `account` from
/// `owner` to `new_owner`. Fails with `IncorrectProgramId` exactly when
/// `token_program` is not the token program's address.
pub fn transfer_ownership(
    token_program: &Address,
    account: &Address,
    new_owner: &Address,
    owner: &Address,
) -> (res: Result<Instruction, NftError>)
    ensures
        res is Ok <==> token_program@ == token_program_id(),
        res matches Ok(instruction) ==> instruction@ == owner_transfer(
            token_program@,
            account@,
            new_owner@,
            owner@,
        ),
        res matches Err(e) ==> e == NftError::IncorrectProgramId,
{
    match set_account_owner(token_program, account, new_owner, owner) {
        Ok(instruction) => Ok(instruction),
        Err(_) => Err(NftError::IncorrectProgramId),
    }
}

} // verus!
