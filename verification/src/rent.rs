//! Rent exemption: whether an account holds the balance that the ledger
//! demands of an account of its size.
//!
//! The ledger publishes its rent parameters in an account of its own, the
//! rent sysvar. An instruction that must know whether a record is exempt
//! is handed that account as a witness.

use crate::account::{Account, AccountView};
use crate::codec::{le_value, read_le};
use crate::state::Address;
use solana_program::account_info::AccountInfo;
use solana_program::pubkey::Pubkey;
use solana_program::rent::Rent;
use solana_program::sysvar::Sysvar;
use vstd::prelude::*;

verus! {

/// What the ledger's rent code makes of a witness with the address
/// `witness_key` and the bytes `witness_data`: `None` where the witness is
/// not the rent sysvar or its bytes do not hold rent parameters, else
/// whether those parameters exempt an account of `data_len` bytes that
/// holds `balance`.
pub uninterp spec fn rent_exemption(
    witness_key: Seq<u8>,
    witness_data: Seq<u8>,
    balance: u64,
    data_len: usize,
) -> Option<bool>;

/// Number of bytes that the ledger charges every account for besides its
/// data.
pub const ACCOUNT_STORAGE_OVERHEAD: u64 = 128;

/// Whether the ledger's rent arithmetic stays within `u64` for these
/// witness bytes and this size. Rent parameters start with the rate per
/// byte and year, eight bytes little-endian; the minimum balance is worked
/// out from the rate times the size, data and overhead together.
pub open spec fn rent_fits(witness_data: Seq<u8>, data_len: usize) -> bool {
    witness_data.len() >= 8 ==> {
        &&& data_len + ACCOUNT_STORAGE_OVERHEAD <= u64::MAX
        &&& (data_len + ACCOUNT_STORAGE_OVERHEAD) * le_value(witness_data.subrange(0, 8))
            <= u64::MAX
    }
}

/// Whether `witness` shows that an account of `data_len` bytes holding
/// `balance` is exempt from rent. A witness that is not the rent sysvar,
/// or whose rate is beyond the rent arithmetic, shows nothing.
pub open spec fn rent_exempt(witness: AccountView, balance: u64, data_len: usize) -> bool {
    rent_fits(witness.data, data_len) && rent_exemption(
        witness.key,
        witness.data,
        balance,
        data_len,
    ) == Some(true)
}

/// Calls `Rent::from_account_info` on an account with the address
/// `witness_key` and the bytes `witness_data` and, where that gives rent
/// parameters, `Rent::is_exempt` on them. Not proved: that the two calls
/// give `rent_exemption` of the four values, `None` standing for the
/// error of the first; and that within `rent_fits` neither call
/// overflows.
#[verifier::external_body]
fn rent_exemption_of(
    witness_key: &Address,
    witness_data: &[u8],
    balance: u64,
    data_len: usize,
) -> (exempt: Option<bool>)
    requires
        rent_fits(witness_data@, data_len),
    ensures
        exempt == rent_exemption(witness_key@, witness_data@, balance, data_len),
{
    let key = Pubkey::new_from_array(*witness_key);
    let mut lamports = balance;
    let mut data = witness_data.to_vec();
    let info = AccountInfo::new(&key, false, false, &mut lamports, &mut data, &key, false, 0);
    match Rent::from_account_info(&info) {
        Ok(rent) => Some(rent.is_exempt(balance, data_len)),
        Err(_) => None,
    }
}

/// Whether the rent arithmetic stays within `u64`.
fn check_rent_fits(witness_data: &[u8], data_len: usize) -> (fits: bool)
    ensures
        fits == rent_fits(witness_data@, data_len),
{
    if witness_data.len() < 8 {
        return true;
    }
    let rate = read_le(witness_data, 0, 8);
    match (data_len as u64).checked_add(ACCOUNT_STORAGE_OVERHEAD) {
        Some(size) => size.checked_mul(rate).is_some(),
        None => false,
    }
}

/// Whether `witness` shows that an account of `data_len` bytes holding
/// `balance` is exempt from rent.
pub fn is_rent_exempt(witness: &Account, balance: u64, data_len: usize) -> (exempt: bool)
    ensures
        exempt == rent_exempt(witness@, balance, data_len),
{
    if !check_rent_fits(witness.data.as_slice(), data_len) {
        return false;
    }
    match rent_exemption_of(&witness.key, witness.data.as_slice(), balance, data_len) {
        Some(exempt) => exempt,
        None => false,
    }
}

} // verus!
