//! The checks that guard the transitions. Each check is a pure function of
//! what it is given, and each failure has its own error.

use vstd::prelude::*;
use crate::accounts::AccountInfo;
use crate::error::SwapError;
use crate::pda::{check_order_address, get_order_pda, order_address};
use crate::pubkey::{lemma_pubkey_view_injective, Pubkey, RENT_SYSVAR_ID, SYSTEM_PROGRAM_ID};
use crate::state::SwapOrder;
use crate::token::{
    check_spl_token_program_account, is_mint, is_token_account, is_token_program, token_mint,
    token_owner, unpack_mint_decimals, unpack_token_account,
};

verus! {

/// Checks made in turn: the first failure is the failure of them all.
pub trait Check: Sized {
    /// This check and then `next`: the failure of this one where it fails,
    /// else what `next` comes to.
    spec fn followed_by(self, next: Result<(), SwapError>) -> Result<(), SwapError>;
}

impl Check for Result<(), SwapError> {
    open spec fn followed_by(self, next: Result<(), SwapError>) -> Result<(), SwapError> {
        if self is Err {
            self
        } else {
            next
        }
    }
}

/// The account has to have signed.
pub open spec fn signer_check(account: AccountInfo) -> Result<(), SwapError> {
    if account.is_signer {
        Ok(())
    } else {
        Err(SwapError::MissingSigner)
    }
}

/// Both amounts have to be positive.
pub open spec fn init_amounts_check(maker_amount: u64, taker_amount: u64) -> Result<(), SwapError> {
    if maker_amount == 0 || taker_amount == 0 {
        Err(SwapError::InvalidAmount)
    } else {
        Ok(())
    }
}

/// The account has to be an initialized mint of one of the token programs.
pub open spec fn token_mint_check(mint: AccountInfo) -> Result<(), SwapError> {
    if is_token_program(mint.owner) && is_mint(mint.data@) {
        Ok(())
    } else {
        Err(SwapError::AssetDescriptorMismatch)
    }
}

/// The program has to be one of the token programs.
pub open spec fn token_program_id_check(token_program: Pubkey) -> Result<(), SwapError> {
    if is_token_program(token_program) {
        Ok(())
    } else {
        Err(SwapError::IncorrectProgramId)
    }
}

/// The mint has to belong to the token program the request goes through.
pub open spec fn token_program_check(mint: AccountInfo, token_program: Pubkey) -> Result<
    (),
    SwapError,
> {
    if mint.owner == token_program {
        Ok(())
    } else {
        Err(SwapError::AssetDescriptorMismatch)
    }
}

/// The data has to be an initialized token account of `owner` for `mint`.
pub open spec fn token_account_check(data: Seq<u8>, owner: Pubkey, mint: Pubkey) -> Result<
    (),
    SwapError,
> {
    if !is_token_account(data) {
        Err(SwapError::InvalidAccountData)
    } else if token_owner(data) != owner@ {
        Err(SwapError::AccountOwnerMismatch)
    } else if token_mint(data) != mint@ {
        Err(SwapError::AssetDescriptorMismatch)
    } else {
        Ok(())
    }
}

/// The address has to be the system program's.
pub open spec fn system_program_check(key: Pubkey) -> Result<(), SwapError> {
    if key.0 == SYSTEM_PROGRAM_ID {
        Ok(())
    } else {
        Err(SwapError::IncorrectProgramId)
    }
}

/// The address has to be the rent sysvar's.
pub open spec fn rent_sysvar_check(key: Pubkey) -> Result<(), SwapError> {
    if key.0 == RENT_SYSVAR_ID {
        Ok(())
    } else {
        Err(SwapError::InvalidArgument)
    }
}

/// The caller has to have signed and to be the maker of the order.
pub open spec fn authority_check(caller: AccountInfo, order: SwapOrder) -> Result<(), SwapError> {
    if !caller.is_signer {
        Err(SwapError::MissingSigner)
    } else if caller.key != order.maker {
        Err(SwapError::AuthorityMismatch)
    } else {
        Ok(())
    }
}

/// The caller has to have signed and to be the taker of the order.
pub open spec fn taker_check(caller: AccountInfo, order: SwapOrder) -> Result<(), SwapError> {
    if !caller.is_signer {
        Err(SwapError::MissingSigner)
    } else if caller.key != order.taker {
        Err(SwapError::CounterpartyMismatch)
    } else {
        Ok(())
    }
}

/// What authenticating an order account comes to: the record it holds,
/// where it holds one and lies at the address derived for that record under
/// `program_id`.
pub open spec fn order_pda_outcome(program_id: Pubkey, account: AccountInfo) -> Result<
    SwapOrder,
    SwapError,
> {
    match SwapOrder::from_bytes(account.data@) {
        None => Err(SwapError::InvalidAccountData),
        Some(order) => match order_address(
            program_id,
            order.maker,
            order.maker_token_mint,
            order.taker_token_mint,
        ) {
            Some((address, _)) => if address == account.key@ {
                Ok(order)
            } else {
                Err(SwapError::AddressMismatch)
            },
            None => Err(SwapError::AddressMismatch),
        },
    }
}

/// Whether the order account authenticates, and holds `order`.
pub open spec fn authenticates_as(program_id: Pubkey, account: AccountInfo, order: SwapOrder)
    -> bool {
    order_pda_outcome(program_id, account) == Ok::<SwapOrder, SwapError>(order)
}

/// Fails with `MissingSigner` unless the account signed the request.
pub fn validate_signer(account: &AccountInfo) -> (r: Result<(), SwapError>)
    ensures
        r == signer_check(*account),
{
    if account.is_signer {
        Ok(())
    } else {
        Err(SwapError::MissingSigner)
    }
}

/// Fails with `InvalidAmount` unless both amounts are positive.
pub fn validate_init_amounts(maker_amount: u64, taker_amount: u64) -> (r: Result<(), SwapError>)
    ensures
        r == init_amounts_check(maker_amount, taker_amount),
{
    if maker_amount == 0 || taker_amount == 0 {
        Err(SwapError::InvalidAmount)
    } else {
        Ok(())
    }
}

/// Fails with `AssetDescriptorMismatch` unless the account is an initialized
/// mint of one of the token programs.
pub fn validate_token_mint(mint: &AccountInfo) -> (r: Result<(), SwapError>)
    ensures
        r == token_mint_check(*mint),
{
    if check_spl_token_program_account(&mint.owner) && unpack_mint_decimals(
        mint.data.as_slice(),
    ).is_some() {
        Ok(())
    } else {
        Err(SwapError::AssetDescriptorMismatch)
    }
}

/// Fails with `IncorrectProgramId` unless the program is one of the token
/// programs.
pub fn validate_token_program_id(token_program: &Pubkey) -> (r: Result<(), SwapError>)
    ensures
        r == token_program_id_check(*token_program),
{
    if check_spl_token_program_account(token_program) {
        Ok(())
    } else {
        Err(SwapError::IncorrectProgramId)
    }
}

/// Fails with `AssetDescriptorMismatch` unless the mint belongs to the token
/// program.
pub fn validate_token_program(mint: &AccountInfo, token_program: &Pubkey) -> (r: Result<
    (),
    SwapError,
>)
    ensures
        r == token_program_check(*mint, *token_program),
{
    if mint.owner == *token_program {
        Ok(())
    } else {
        Err(SwapError::AssetDescriptorMismatch)
    }
}

/// Checks that the account is an initialized token account of `owner` for
/// `mint`. Fails with `InvalidAccountData` where it is no token account,
/// with `AccountOwnerMismatch` where it has another owner, and with
/// `AssetDescriptorMismatch` where it holds another mint.
pub fn validate_token_account(account: &AccountInfo, owner: &Pubkey, mint: &Pubkey) -> (r: Result<
    (),
    SwapError,
>)
    ensures
        r == token_account_check(account.data@, *owner, *mint),
{
    match unpack_token_account(account.data.as_slice()) {
        None => Err(SwapError::InvalidAccountData),
        Some(state) => {
            proof {
                lemma_pubkey_view_injective(state.owner, *owner);
                lemma_pubkey_view_injective(state.mint, *mint);
            }
            if state.owner != *owner {
                Err(SwapError::AccountOwnerMismatch)
            } else if state.mint != *mint {
                Err(SwapError::AssetDescriptorMismatch)
            } else {
                Ok(())
            }
        },
    }
}

/// Fails with `IncorrectProgramId` unless the address is the system
/// program's.
pub fn validate_system_program(key: &Pubkey) -> (r: Result<(), SwapError>)
    ensures
        r == system_program_check(*key),
{
    if key.is(&SYSTEM_PROGRAM_ID) {
        Ok(())
    } else {
        Err(SwapError::IncorrectProgramId)
    }
}

/// Fails with `InvalidArgument` unless the address is the rent sysvar's.
pub fn validate_rent_sysvar(key: &Pubkey) -> (r: Result<(), SwapError>)
    ensures
        r == rent_sysvar_check(*key),
{
    if key.is(&RENT_SYSVAR_ID) {
        Ok(())
    } else {
        Err(SwapError::InvalidArgument)
    }
}

/// Checks that the caller may act for the maker. Fails with `MissingSigner`
/// where the caller did not sign, and with `AuthorityMismatch` where the
/// caller is not the maker of the order.
pub fn validate_authority(caller: &AccountInfo, order: &SwapOrder) -> (r: Result<(), SwapError>)
    ensures
        r == authority_check(*caller, *order),
{
    if !caller.is_signer {
        Err(SwapError::MissingSigner)
    } else if caller.key != order.maker {
        Err(SwapError::AuthorityMismatch)
    } else {
        Ok(())
    }
}

/// Checks that the caller may act for the taker. Fails with `MissingSigner`
/// where the caller did not sign, and with `CounterpartyMismatch` where the
/// caller is not the taker of the order.
pub fn validate_taker(caller: &AccountInfo, order: &SwapOrder) -> (r: Result<(), SwapError>)
    ensures
        r == taker_check(*caller, *order),
{
    if !caller.is_signer {
        Err(SwapError::MissingSigner)
    } else if caller.key != order.taker {
        Err(SwapError::CounterpartyMismatch)
    } else {
        Ok(())
    }
}

/// Authenticates an order account: reads its record, derives the address of
/// that record under `program_id` and compares it with the address of the
/// account. Returns the record and the bump seed of the address. Fails with
/// `InvalidAccountData` where the account holds no record, and with
/// `AddressMismatch` where it does not lie at the derived address.
pub fn validate_order_pda(program_id: &Pubkey, account: &AccountInfo) -> (r: Result<
    (SwapOrder, u8),
    SwapError,
>)
    ensures
        r matches Ok((order, bump)) ==> {
            &&& order_pda_outcome(*program_id, *account) == Ok::<SwapOrder, SwapError>(order)
            &&& order_address(
                *program_id,
                order.maker,
                order.maker_token_mint,
                order.taker_token_mint,
            ) == Some((account.key@, bump))
        },
        r matches Err(e) ==> order_pda_outcome(*program_id, *account) == Err::<
            SwapOrder,
            SwapError,
        >(e),
{
    let order = SwapOrder::try_from_slice(account.data.as_slice())?;
    let derived = get_order_pda(
        program_id,
        &order.maker,
        &order.maker_token_mint,
        &order.taker_token_mint,
    )?;
    proof {
        lemma_pubkey_view_injective(derived.0, account.key);
    }
    let bump = check_order_address(&derived, &account.key)?;
    Ok((order, bump))
}

} // verus!
