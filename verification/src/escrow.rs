//! The custody protocol: moving tokens into and out of the account that
//! holds the escrow, through whichever token program the request names.

use vstd::prelude::*;
use crate::accounts::AccountInfo;
use crate::cpi::{
    close_account_instruction, invoke, invoke_signed, invoke_signed_step, invoke_step,
    spl_token_2022_close_account, spl_token_2022_transfer, spl_token_2022_transfer_checked,
    spl_token_close_account, spl_token_transfer, transfer_checked_instruction,
    transfer_instruction, Instruction, InstructionView, Step, StepView,
};
use crate::error::SwapError;
use crate::pubkey::{Pubkey, TOKEN_PROGRAM_ID};
use crate::token::{is_mint, is_token_program, mint_decimals, spl_token_id, unpack_mint_decimals};

verus! {

/// What has to happen to the escrow to bring it from what custody holds to
/// the level an order asks for.
#[derive(Clone, Copy, Debug, PartialEq, Eq)]
pub enum Adjustment {
    /// The maker has to deposit this much more.
    Deposit(u64),
    /// This much has to go back to the maker.
    Refund(u64),
    /// Custody holds exactly what the order asks for.
    Unchanged,
}

impl Adjustment {
    /// The balance of custody once the adjustment is made to `balance`.
    pub open spec fn settle(self, balance: int) -> int {
        match self {
            Adjustment::Deposit(amount) => balance + amount,
            Adjustment::Refund(amount) => balance - amount,
            Adjustment::Unchanged => balance,
        }
    }
}

/// The adjustment that brings custody from `current` to `target`.
pub open spec fn reconciliation(current: u64, target: u64) -> Adjustment {
    if target > current {
        Adjustment::Deposit((target - current) as u64)
    } else if target < current {
        Adjustment::Refund((current - target) as u64)
    } else {
        Adjustment::Unchanged
    }
}

/// Compares what custody holds with the level the order asks for.
pub fn reconcile(current: u64, target: u64) -> (adjustment: Adjustment)
    ensures
        adjustment == reconciliation(current, target),
{
    if target > current {
        Adjustment::Deposit(target - current)
    } else if target < current {
        Adjustment::Refund(current - target)
    } else {
        Adjustment::Unchanged
    }
}

/// The deposit that opens an order: a plain transfer through the plain token
/// program, a checked transfer, with the decimals the mint records, through
/// the other.
pub open spec fn initial_deposit_instruction(
    token_program: Pubkey,
    source: Pubkey,
    mint: AccountInfo,
    destination: Pubkey,
    authority: Pubkey,
    amount: u64,
) -> InstructionView {
    if token_program.0 == TOKEN_PROGRAM_ID {
        transfer_instruction(token_program, source, destination, authority, amount)
    } else {
        transfer_checked_instruction(
            token_program,
            source,
            mint.key,
            destination,
            authority,
            amount,
            mint_decimals(mint.data@),
        )
    }
}

/// Builds the instruction that moves `amount` from `source` to
/// `destination` on the signature of `authority`, for the token program
/// named. Fails with `IncorrectProgramId` for any other program.
pub fn transfer(
    token_program: &Pubkey,
    source: &Pubkey,
    destination: &Pubkey,
    authority: &Pubkey,
    amount: u64,
) -> (r: Result<Instruction, SwapError>)
    ensures
        r is Ok <==> is_token_program(*token_program),
        r matches Ok(instruction) ==> instruction@ == transfer_instruction(
            *token_program,
            *source,
            *destination,
            *authority,
            amount,
        ),
        r matches Err(e) ==> e == SwapError::IncorrectProgramId,
{
    let built = if *token_program == spl_token_id() {
        spl_token_transfer(token_program, source, destination, authority, amount)
    } else {
        spl_token_2022_transfer(token_program, source, destination, authority, amount)
    };
    match built {
        Some(instruction) => Ok(instruction),
        None => Err(SwapError::IncorrectProgramId),
    }
}

/// The step that deposits `amount` from the token account `from` into
/// custody: a transfer on the signature of `authority`, who signed the
/// request.
pub open spec fn deposit_step(
    token_program: Pubkey,
    from: Pubkey,
    custody: Pubkey,
    authority: Pubkey,
    amount: u64,
    accounts: Seq<usize>,
) -> StepView {
    invoke_step(transfer_instruction(token_program, from, custody, authority, amount), accounts)
}

/// The step that withdraws `amount` from custody into the token account
/// `to`: a transfer on the authority of the order address, which the
/// program signs for with `signer_seeds`.
pub open spec fn withdraw_step(
    token_program: Pubkey,
    custody: Pubkey,
    to: Pubkey,
    order_address: Pubkey,
    amount: u64,
    accounts: Seq<usize>,
    signer_seeds: Seq<Seq<u8>>,
) -> StepView {
    invoke_signed_step(
        transfer_instruction(token_program, custody, to, order_address, amount),
        accounts,
        signer_seeds,
    )
}

/// Plans a deposit of `amount` from the token account `from` into custody,
/// on the signature of `authority`. `accounts` are the indices of the
/// accounts the transfer touches. Fails with `IncorrectProgramId` where
/// the program is no token program.
pub fn deposit(
    token_program: &Pubkey,
    from: &Pubkey,
    custody: &Pubkey,
    authority: &Pubkey,
    amount: u64,
    accounts: Vec<usize>,
) -> (r: Result<Step, SwapError>)
    ensures
        r is Ok <==> is_token_program(*token_program),
        r matches Ok(step) ==> step@ == deposit_step(
            *token_program,
            *from,
            *custody,
            *authority,
            amount,
            accounts@,
        ),
        r matches Err(e) ==> e == SwapError::IncorrectProgramId,
{
    Ok(invoke(transfer(token_program, from, custody, authority, amount)?, accounts))
}

/// Plans a withdrawal of `amount` from custody into the token account `to`,
/// signed for the order address with `signer_seeds`. `accounts` are the
/// indices of the accounts the transfer touches. Fails with
/// `IncorrectProgramId` where the program is no token program.
pub fn withdraw(
    token_program: &Pubkey,
    custody: &Pubkey,
    to: &Pubkey,
    order_address: &Pubkey,
    amount: u64,
    accounts: Vec<usize>,
    signer_seeds: Vec<Vec<u8>>,
) -> (r: Result<Step, SwapError>)
    ensures
        r is Ok <==> is_token_program(*token_program),
        r matches Ok(step) ==> step@ == withdraw_step(
            *token_program,
            *custody,
            *to,
            *order_address,
            amount,
            accounts@,
            signer_seeds.deep_view(),
        ),
        r matches Err(e) ==> e == SwapError::IncorrectProgramId,
{
    Ok(
        invoke_signed(
            transfer(token_program, custody, to, order_address, amount)?,
            accounts,
            signer_seeds,
        ),
    )
}

/// Whether the deposit that opens an order can be built: a checked transfer
/// needs the mint to be one, and then the program to be a token program.
pub open spec fn initial_deposit_check(token_program: Pubkey, mint: AccountInfo) -> Result<
    (),
    SwapError,
> {
    if token_program.0 == TOKEN_PROGRAM_ID {
        Ok(())
    } else if !is_mint(mint.data@) {
        Err(SwapError::InvalidAccountData)
    } else if !is_token_program(token_program) {
        Err(SwapError::IncorrectProgramId)
    } else {
        Ok(())
    }
}

/// Builds the instruction of the deposit that opens an order: a plain
/// transfer through the plain token program; through any other program a
/// checked transfer, which fails with `InvalidAccountData` where `mint`
/// holds no initialized mint, and with `IncorrectProgramId` where the
/// program is no token program.
pub fn initial_deposit(
    token_program: &Pubkey,
    source: &Pubkey,
    mint: &AccountInfo,
    destination: &Pubkey,
    authority: &Pubkey,
    amount: u64,
) -> (r: Result<Instruction, SwapError>)
    ensures
        r matches Ok(instruction) ==> initial_deposit_check(*token_program, *mint) is Ok
            && instruction@ == initial_deposit_instruction(
            *token_program,
            *source,
            *mint,
            *destination,
            *authority,
            amount,
        ),
        r matches Err(e) ==> initial_deposit_check(*token_program, *mint) == Err::<(), SwapError>(
            e,
        ),
{
    if *token_program == spl_token_id() {
        match spl_token_transfer(token_program, source, destination, authority, amount) {
            Some(instruction) => Ok(instruction),
            None => Err(SwapError::IncorrectProgramId),
        }
    } else {
        let decimals = match unpack_mint_decimals(mint.data.as_slice()) {
            Some(decimals) => decimals,
            None => {
                return Err(SwapError::InvalidAccountData);
            },
        };
        match spl_token_2022_transfer_checked(
            token_program,
            source,
            &mint.key,
            destination,
            authority,
            amount,
            decimals,
        ) {
            Some(instruction) => Ok(instruction),
            None => Err(SwapError::IncorrectProgramId),
        }
    }
}

/// Builds the instruction that closes the empty token account `account` on
/// the signature of `owner` and sends its lamports to `destination`, for the
/// token program named. Fails with `IncorrectProgramId` for any other
/// program.
pub fn close_account(
    token_program: &Pubkey,
    account: &Pubkey,
    destination: &Pubkey,
    owner: &Pubkey,
) -> (r: Result<Instruction, SwapError>)
    ensures
        r is Ok <==> is_token_program(*token_program),
        r matches Ok(instruction) ==> instruction@ == close_account_instruction(
            *token_program,
            *account,
            *destination,
            *owner,
        ),
        r matches Err(e) ==> e == SwapError::IncorrectProgramId,
{
    let built = if *token_program == spl_token_id() {
        spl_token_close_account(token_program, account, destination, owner)
    } else {
        spl_token_2022_close_account(token_program, account, destination, owner)
    };
    match built {
        Some(instruction) => Ok(instruction),
        None => Err(SwapError::IncorrectProgramId),
    }
}

/// Bringing custody from `current` to `target` leaves it at `target`.
pub proof fn lemma_reconciliation_reaches_target(current: u64, target: u64)
    ensures
        reconciliation(current, target).settle(current as int) == target,
{
}

/// Once custody holds `target`, bringing it to `target` again moves nothing,
/// whatever it held before.
pub proof fn lemma_reconciliation_is_idempotent(current: u64, target: u64)
    ensures
        reconciliation(target, target) == Adjustment::Unchanged,
        reconciliation(
            reconciliation(current, target).settle(current as int) as u64,
            target,
        ) == Adjustment::Unchanged,
{
}

/// An adjustment moves tokens exactly when custody does not hold the target,
/// and then it moves the difference.
pub proof fn lemma_reconciliation_moves_the_difference(current: u64, target: u64)
    ensures
        reconciliation(current, target) is Unchanged <==> current == target,
        reconciliation(current, target) matches Adjustment::Deposit(amount) ==> amount > 0
            && amount == target - current,
        reconciliation(current, target) matches Adjustment::Refund(amount) ==> amount > 0
            && amount == current - target,
{
}

} // verus!
