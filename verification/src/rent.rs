//! The price of keeping an account, as the rent sysvar states it.

use vstd::prelude::*;
use vstd::bytes::spec_u64_from_le_bytes;
use solana_program::sysvar::Sysvar;
use crate::accounts::AccountInfo;
use crate::error::SwapError;
use crate::pubkey::Pubkey;
use crate::state::read_u64;

verus! {

/// Bytes the runtime counts on top of the data of every account.
pub const ACCOUNT_STORAGE_OVERHEAD: u64 = 128;

/// The balance that exempts an account of `data_len` bytes from rent, as the
/// rent sysvar prices it: `key` and `data` are the address and the state of
/// the account read as the sysvar. None where the account is not the rent
/// sysvar.
pub uninterp spec fn rent_exempt_minimum(key: Seq<u8>, data: Seq<u8>, data_len: usize) -> Option<
    u64,
>;

/// The rate, in lamports per byte and year, that the state of the rent
/// sysvar starts with.
pub open spec fn rent_rate(data: Seq<u8>) -> u64 {
    spec_u64_from_le_bytes(data.subrange(0, 8))
}

/// Whether the yearly rent of `data_len` bytes, at the rate in `data`, fits
/// in 64 bits.
pub open spec fn rent_fits(data: Seq<u8>, data_len: usize) -> bool {
    &&& ACCOUNT_STORAGE_OVERHEAD + data_len <= u64::MAX
    &&& data.len() >= 8 ==> (ACCOUNT_STORAGE_OVERHEAD + data_len) * rent_rate(data) <= u64::MAX
}

/// What pricing an account of `data_len` bytes by the account `rent` comes
/// to.
pub open spec fn minimum_balance_outcome(rent: AccountInfo, data_len: usize) -> Result<
    u64,
    SwapError,
> {
    if !rent_fits(rent.data@, data_len) {
        Err(SwapError::InvalidArgument)
    } else {
        match rent_exempt_minimum(rent.key@, rent.data@, data_len) {
            Some(lamports) => Ok(lamports),
            None => Err(SwapError::InvalidArgument),
        }
    }
}

/// `Rent::from_account_info` of `solana_program`, on an account with the
/// given address and data, and `Rent::minimum_balance` of what it read: the
/// result, which depends on the address, the data and the length alone, is
/// what `rent_exempt_minimum` names. The yearly rent, which the second
/// function counts in 64 bits from the rate in the first 8 bytes of the
/// data, has to fit.
#[verifier::external_body]
pub(crate) fn rent_minimum_balance(key: &Pubkey, data: &[u8], data_len: usize) -> (r: Option<u64>)
    requires
        rent_fits(data@, data_len),
    ensures
        r == rent_exempt_minimum(key@, data@, data_len),
{
    let (key, owner) = (key.0.into(), solana_program::pubkey::Pubkey::default());
    let (mut lamports, mut data) = (0, data.to_vec());
    let account = solana_program::account_info::AccountInfo::new(
        &key, false, false, &mut lamports, &mut data, &owner, false, 0,
    );
    let rent = solana_program::sysvar::rent::Rent::from_account_info(&account).ok()?;
    Some(rent.minimum_balance(data_len))
}

/// The balance that exempts an account of `data_len` bytes from rent,
/// priced by the account `rent`. Fails with `InvalidArgument` where the
/// account is not the rent sysvar, or states a rate at which the yearly rent
/// does not fit in 64 bits.
pub fn minimum_balance(rent: &AccountInfo, data_len: usize) -> (r: Result<u64, SwapError>)
    ensures
        r == minimum_balance_outcome(*rent, data_len),
{
    let data = rent.data.as_slice();
    let bytes = data_len as u64;
    if bytes > u64::MAX - ACCOUNT_STORAGE_OVERHEAD {
        return Err(SwapError::InvalidArgument);
    }
    if data.len() >= 8 {
        let rate = read_u64(data, 0);
        if (ACCOUNT_STORAGE_OVERHEAD + bytes).checked_mul(rate).is_none() {
            return Err(SwapError::InvalidArgument);
        }
    }
    match rent_minimum_balance(&rent.key, data, data_len) {
        Some(lamports) => Ok(lamports),
        None => Err(SwapError::InvalidArgument),
    }
}

} // verus!
