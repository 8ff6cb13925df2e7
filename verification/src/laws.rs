//! What holds of the transitions, whatever the request: each statement is
//! proved from the outcomes that the transitions are held to.

use vstd::prelude::*;
use crate::accounts::{
    AccountInfo, ChangeOrderAmountsAccounts, ChangeTakerAccounts, CloseOrderAccounts,
    CompleteSwapAccounts, InitializeOrderAccounts,
};
use crate::cpi::{
    close_account_instruction, invoke_signed_step, invoke_step, transfer_instruction, StepView,
};
use crate::error::SwapError;
use crate::escrow::{deposit_step, initial_deposit_instruction, withdraw_step};
use crate::ledger::{
    balance_after, carried_out, holdings_after, lemma_balance_after_one,
    lemma_balance_after_three, lemma_balance_after_two, lemma_checked_transfer_moves_its_amount,
    lemma_transfer_moves_its_amount, zeroes, Holding,
};
use crate::pda::order_address;
use crate::processor::{initialize_order_outcome, planned, refused, signer_seeds_of, store_step};
use crate::pubkey::{Pubkey, TOKEN_PROGRAM_ID};
use crate::state::{lemma_order_bytes_len, lemma_order_read_back, SwapOrder, ORDER_LEN};
use crate::token::{mint_decimals, token_amount};
use crate::validation::{authenticates_as, authority_check, order_pda_outcome, token_mint_check};

verus! {

/// An order is opened at the address derived for it, and escrows exactly
/// `maker_amount`: after the step that creates the order account, the plan
/// holds one token transfer, of `maker_amount` from the maker's token
/// account into custody, and the write of a record that reads back with both
/// amounts as they were asked for.
pub proof fn lemma_opened_order_escrows_maker_amount(
    accounts: InitializeOrderAccounts,
    program_id: Pubkey,
    maker_amount: u64,
    taker_amount: u64,
)
    requires
        accounts.outcome(program_id, maker_amount, taker_amount) is Ok,
    ensures
        maker_amount > 0 && taker_amount > 0,
        ({
            let plan = accounts.outcome(program_id, maker_amount, taker_amount)->Ok_0;
            &&& order_address(
                program_id,
                accounts.maker.key,
                accounts.maker_mint.key,
                accounts.taker_mint.key,
            ) matches Some((address, _)) && address == accounts.order.key@
            &&& plan.len() == 3
            &&& plan[0] is Invoke
            &&& plan[1] == invoke_step(
                initial_deposit_instruction(
                    accounts.token_program.key,
                    accounts.maker_tokens.key,
                    *accounts.maker_mint,
                    accounts.custody.key,
                    accounts.maker.key,
                    maker_amount,
                ),
                accounts.deposit_accounts(),
            )
            &&& plan[2] is Store
            &&& SwapOrder::from_bytes(plan[2]->data) matches Some(order) && order.maker_amount
                == maker_amount && order.taker_amount == taker_amount && order.maker
                == accounts.maker.key
        }),
{
    let plan = accounts.outcome(program_id, maker_amount, taker_amount)->Ok_0;
    let derived = order_address(
        program_id,
        accounts.maker.key,
        accounts.maker_mint.key,
        accounts.taker_mint.key,
    );
    let (_, bump) = derived.unwrap();
    let order = accounts.new_order(maker_amount, taker_amount, bump);
    assert(plan[2] == store_step(order));
    lemma_order_read_back(order);
    assert(derived == Some((accounts.order.key@, bump)));
}

/// An order that is opened adds exactly `maker_amount` to custody: a
/// custody that was empty holds exactly `maker_amount` afterwards. The
/// maker's token account must not be custody itself.
pub proof fn lemma_opened_order_fills_custody(
    accounts: InitializeOrderAccounts,
    program_id: Pubkey,
    maker_amount: u64,
    taker_amount: u64,
    balance: int,
)
    requires
        accounts.outcome(program_id, maker_amount, taker_amount) is Ok,
        accounts.maker_tokens.key != accounts.custody.key,
    ensures
        balance_after(
            accounts.outcome(program_id, maker_amount, taker_amount)->Ok_0,
            accounts.custody.key,
            balance,
        ) == balance + maker_amount,
{
    let plan = accounts.outcome(program_id, maker_amount, taker_amount)->Ok_0;
    assert(plan =~= seq![plan[0], plan[1], plan[2]]);
    lemma_balance_after_three(plan[0], plan[1], plan[2], accounts.custody.key, balance);
    if accounts.token_program.key.0 == TOKEN_PROGRAM_ID {
        lemma_transfer_moves_its_amount(
            accounts.token_program.key,
            accounts.maker_tokens.key,
            accounts.custody.key,
            accounts.maker.key,
            maker_amount,
        );
    } else {
        lemma_checked_transfer_moves_its_amount(
            accounts.token_program.key,
            accounts.maker_tokens.key,
            accounts.maker_mint.key,
            accounts.custody.key,
            accounts.maker.key,
            maker_amount,
            mint_decimals(accounts.maker_mint.data@),
        );
    }
}

/// A request to open an order with a zero amount is always refused as
/// `InvalidAmount`, whatever its accounts and whoever signed, so nothing is
/// allocated and nothing moves.
pub proof fn lemma_zero_amount_order_is_refused(
    program_id: Pubkey,
    accounts: Seq<AccountInfo>,
    maker_amount: u64,
    taker_amount: u64,
)
    requires
        maker_amount == 0 || taker_amount == 0,
    ensures
        initialize_order_outcome(program_id, accounts, maker_amount, taker_amount) == refused(
            SwapError::InvalidAmount,
        ),
        accounts.len() >= InitializeOrderAccounts::COUNT ==> InitializeOrderAccounts::of(
            accounts,
        ).outcome(program_id, maker_amount, taker_amount) == refused(SwapError::InvalidAmount),
{
}

/// An order is opened only where both mints belong to the token program of
/// the request.
pub proof fn lemma_opened_order_has_both_mints_in_its_token_program(
    accounts: InitializeOrderAccounts,
    program_id: Pubkey,
    maker_amount: u64,
    taker_amount: u64,
)
    requires
        accounts.outcome(program_id, maker_amount, taker_amount) is Ok,
    ensures
        accounts.maker_mint.owner == accounts.token_program.key,
        accounts.taker_mint.owner == accounts.token_program.key,
{
}

/// A request to open an order with positive amounts, a maker that signed and
/// two mints, one of which belongs to another program than the one the
/// request goes through, is refused as `AssetDescriptorMismatch`.
pub proof fn lemma_mint_of_another_token_program_is_refused(
    accounts: InitializeOrderAccounts,
    program_id: Pubkey,
    maker_amount: u64,
    taker_amount: u64,
)
    requires
        maker_amount > 0,
        taker_amount > 0,
        accounts.maker.is_signer,
        token_mint_check(*accounts.maker_mint) is Ok,
        token_mint_check(*accounts.taker_mint) is Ok,
        accounts.maker_mint.owner != accounts.token_program.key || accounts.taker_mint.owner
            != accounts.token_program.key,
    ensures
        accounts.outcome(program_id, maker_amount, taker_amount) == refused(
            SwapError::AssetDescriptorMismatch,
        ),
{
}

/// A change of amounts moves what separates custody from the new maker
/// amount, in one transfer at most, and always writes both new amounts: a
/// deposit of the maker where custody holds less, a refund signed for the
/// order address where it holds more, and no transfer where it holds exactly
/// the new maker amount.
pub proof fn lemma_changed_amounts_reconcile_custody(
    accounts: ChangeOrderAmountsAccounts,
    program_id: Pubkey,
    order: SwapOrder,
    new_maker_amount: u64,
    new_taker_amount: u64,
)
    requires
        authenticates_as(program_id, *accounts.order, order),
        accounts.outcome(program_id, new_maker_amount, new_taker_amount) is Ok,
    ensures
        ({
            let plan = accounts.outcome(program_id, new_maker_amount, new_taker_amount)->Ok_0;
            let held = token_amount(accounts.custody.data@);
            &&& plan.last() == store_step(
                SwapOrder {
                    maker_amount: new_maker_amount,
                    taker_amount: new_taker_amount,
                    ..order
                },
            )
            &&& held == new_maker_amount ==> plan.len() == 1
            &&& held < new_maker_amount ==> plan.len() == 2 && plan[0] == deposit_step(
                accounts.token_program.key,
                accounts.maker_tokens.key,
                accounts.custody.key,
                order.maker,
                (new_maker_amount - held) as u64,
                seq![
                    ChangeOrderAmountsAccounts::MAKER_TOKENS,
                    ChangeOrderAmountsAccounts::CUSTODY,
                    ChangeOrderAmountsAccounts::MAKER,
                    ChangeOrderAmountsAccounts::TOKEN_PROGRAM,
                ],
            )
            &&& held > new_maker_amount ==> plan.len() == 2 && plan[0] == withdraw_step(
                accounts.token_program.key,
                accounts.custody.key,
                accounts.maker_tokens.key,
                accounts.order.key,
                (held - new_maker_amount) as u64,
                seq![
                    ChangeOrderAmountsAccounts::CUSTODY,
                    ChangeOrderAmountsAccounts::MAKER_TOKENS,
                    ChangeOrderAmountsAccounts::ORDER,
                    ChangeOrderAmountsAccounts::TOKEN_PROGRAM,
                ],
                signer_seeds_of(order),
            )
        }),
{
}

/// A change of amounts leaves custody holding exactly the new maker amount,
/// whatever it held before, provided the maker's token account is not
/// custody itself.
pub proof fn lemma_changed_amounts_level_custody(
    accounts: ChangeOrderAmountsAccounts,
    program_id: Pubkey,
    new_maker_amount: u64,
    new_taker_amount: u64,
)
    requires
        accounts.outcome(program_id, new_maker_amount, new_taker_amount) is Ok,
        accounts.maker_tokens.key != accounts.custody.key,
    ensures
        balance_after(
            accounts.outcome(program_id, new_maker_amount, new_taker_amount)->Ok_0,
            accounts.custody.key,
            token_amount(accounts.custody.data@) as int,
        ) == new_maker_amount,
{
    let plan = accounts.outcome(program_id, new_maker_amount, new_taker_amount)->Ok_0;
    let held = token_amount(accounts.custody.data@);
    let custody = accounts.custody.key;
    if held == new_maker_amount {
        lemma_balance_after_one(plan[0], custody, held as int);
    } else {
        assert(plan =~= seq![plan[0], plan[1]]);
        lemma_balance_after_two(plan[0], plan[1], custody, held as int);
        if held < new_maker_amount {
            lemma_transfer_moves_its_amount(
                accounts.token_program.key,
                accounts.maker_tokens.key,
                custody,
                accounts.maker.key,
                (new_maker_amount - held) as u64,
            );
        } else {
            lemma_transfer_moves_its_amount(
                accounts.token_program.key,
                custody,
                accounts.maker_tokens.key,
                accounts.order.key,
                (held - new_maker_amount) as u64,
            );
        }
    }
}

/// Changing the amounts twice to the same maker amount moves tokens the
/// first time at most: where the second request finds custody as the plan
/// of the first leaves it, it plans no transfer, only the write of the
/// record.
pub proof fn lemma_change_of_amounts_is_idempotent(
    first: ChangeOrderAmountsAccounts,
    second: ChangeOrderAmountsAccounts,
    program_id: Pubkey,
    new_maker_amount: u64,
    new_taker_amount: u64,
)
    requires
        first.outcome(program_id, new_maker_amount, new_taker_amount) is Ok,
        first.maker_tokens.key != first.custody.key,
        second.outcome(program_id, new_maker_amount, new_taker_amount) is Ok,
        token_amount(second.custody.data@) == balance_after(
            first.outcome(program_id, new_maker_amount, new_taker_amount)->Ok_0,
            first.custody.key,
            token_amount(first.custody.data@) as int,
        ),
    ensures
        ({
            let plan = second.outcome(program_id, new_maker_amount, new_taker_amount)->Ok_0;
            plan.len() == 1 && plan[0] is Store
        }),
{
    lemma_changed_amounts_level_custody(first, program_id, new_maker_amount, new_taker_amount);
}

/// A settlement that passes every check on its accounts is refused as
/// `InsufficientFunds` exactly when custody holds less than the order
/// promises. Otherwise it plans exactly two transfers, of `taker_amount`
/// from the taker to the maker and of `maker_amount` from custody to the
/// taker, and no write: the record stays as it is.
pub proof fn lemma_settlement_needs_funds(
    accounts: CompleteSwapAccounts,
    program_id: Pubkey,
    order: SwapOrder,
)
    requires
        authenticates_as(program_id, *accounts.order, order),
        accounts.checks(order) is Ok,
    ensures
        token_amount(accounts.custody.data@) < order.maker_amount ==> accounts.outcome(program_id)
            == refused(SwapError::InsufficientFunds),
        token_amount(accounts.custody.data@) >= order.maker_amount ==> accounts.outcome(program_id)
            == planned(
            seq![
                invoke_step(
                    transfer_instruction(
                        accounts.token_program.key,
                        accounts.taker_sending.key,
                        accounts.maker_receiving.key,
                        order.taker,
                        order.taker_amount,
                    ),
                    seq![
                        CompleteSwapAccounts::TAKER_SENDING,
                        CompleteSwapAccounts::MAKER_RECEIVING,
                        CompleteSwapAccounts::TAKER,
                        CompleteSwapAccounts::TOKEN_PROGRAM,
                    ],
                ),
                withdraw_step(
                    accounts.token_program.key,
                    accounts.custody.key,
                    accounts.taker_receiving.key,
                    accounts.order.key,
                    order.maker_amount,
                    seq![
                        CompleteSwapAccounts::CUSTODY,
                        CompleteSwapAccounts::TAKER_RECEIVING,
                        CompleteSwapAccounts::ORDER,
                        CompleteSwapAccounts::TOKEN_PROGRAM,
                    ],
                    signer_seeds_of(order),
                ),
            ],
        ),
{
}

/// A settlement takes exactly `maker_amount` out of custody and into the
/// taker's receiving account, and exactly `taker_amount` out of the taker's
/// sending account and into the maker's receiving account, provided the four
/// token accounts are four accounts.
pub proof fn lemma_settlement_pays_both_legs(
    accounts: CompleteSwapAccounts,
    program_id: Pubkey,
    order: SwapOrder,
    balance: int,
)
    requires
        authenticates_as(program_id, *accounts.order, order),
        accounts.outcome(program_id) is Ok,
        accounts.custody.key != accounts.taker_receiving.key,
        accounts.custody.key != accounts.taker_sending.key,
        accounts.custody.key != accounts.maker_receiving.key,
        accounts.taker_receiving.key != accounts.taker_sending.key,
        accounts.taker_receiving.key != accounts.maker_receiving.key,
        accounts.taker_sending.key != accounts.maker_receiving.key,
    ensures
        ({
            let plan = accounts.outcome(program_id)->Ok_0;
            &&& balance_after(plan, accounts.custody.key, balance) == balance - order.maker_amount
            &&& balance_after(plan, accounts.taker_receiving.key, balance) == balance
                + order.maker_amount
            &&& balance_after(plan, accounts.taker_sending.key, balance) == balance
                - order.taker_amount
            &&& balance_after(plan, accounts.maker_receiving.key, balance) == balance
                + order.taker_amount
        }),
{
    let plan = accounts.outcome(program_id)->Ok_0;
    assert(plan =~= seq![plan[0], plan[1]]);
    lemma_balance_after_two(plan[0], plan[1], accounts.custody.key, balance);
    lemma_balance_after_two(plan[0], plan[1], accounts.taker_receiving.key, balance);
    lemma_balance_after_two(plan[0], plan[1], accounts.taker_sending.key, balance);
    lemma_balance_after_two(plan[0], plan[1], accounts.maker_receiving.key, balance);
    lemma_transfer_moves_its_amount(
        accounts.token_program.key,
        accounts.taker_sending.key,
        accounts.maker_receiving.key,
        accounts.taker.key,
        order.taker_amount,
    );
    lemma_transfer_moves_its_amount(
        accounts.token_program.key,
        accounts.custody.key,
        accounts.taker_receiving.key,
        accounts.order.key,
        order.maker_amount,
    );
}

/// A settlement is refused as `InsufficientFunds` only where custody holds
/// less than the maker amount of the authenticated order.
pub proof fn lemma_insufficient_funds_means_short_custody(
    accounts: CompleteSwapAccounts,
    program_id: Pubkey,
)
    requires
        accounts.outcome(program_id) == refused(
            SwapError::InsufficientFunds,
        ),
    ensures
        order_pda_outcome(program_id, *accounts.order) matches Ok(order) && token_amount(
            accounts.custody.data@,
        ) < order.maker_amount,
{
}

/// No settlement writes or removes the record: every step of its plan is an
/// invocation.
pub proof fn lemma_settlement_keeps_the_record(accounts: CompleteSwapAccounts, program_id: Pubkey)
    requires
        accounts.outcome(program_id) is Ok,
    ensures
        forall|i: int|
            0 <= i < accounts.outcome(program_id)->Ok_0.len() ==> (#[trigger] accounts.outcome(
                program_id,
            )->Ok_0[i]) is Invoke,
{
}

/// Closing an order always closes custody in favour of the caller, and ends
/// by handing the lamports of the order account to the caller and zeroing
/// its record. Where custody holds anything, exactly that amount goes back
/// to the maker first; where it holds nothing, nothing is refunded.
pub proof fn lemma_closed_order_is_refunded_and_removed(
    accounts: CloseOrderAccounts,
    program_id: Pubkey,
    order: SwapOrder,
)
    requires
        authenticates_as(program_id, *accounts.order, order),
        accounts.outcome(program_id) is Ok,
    ensures
        ({
            let plan = accounts.outcome(program_id)->Ok_0;
            let held = token_amount(accounts.custody.data@);
            let refund = withdraw_step(
                accounts.token_program.key,
                accounts.custody.key,
                accounts.maker_tokens.key,
                accounts.order.key,
                held,
                seq![
                    CloseOrderAccounts::CUSTODY,
                    CloseOrderAccounts::MAKER_TOKENS,
                    CloseOrderAccounts::ORDER,
                    CloseOrderAccounts::TOKEN_PROGRAM,
                ],
                signer_seeds_of(order),
            );
            let close = invoke_signed_step(
                close_account_instruction(
                    accounts.token_program.key,
                    accounts.custody.key,
                    order.maker,
                    accounts.order.key,
                ),
                seq![
                    CloseOrderAccounts::CUSTODY,
                    CloseOrderAccounts::AUTHORITY,
                    CloseOrderAccounts::ORDER,
                    CloseOrderAccounts::TOKEN_PROGRAM,
                ],
                signer_seeds_of(order),
            );
            let reclaim = StepView::Reclaim {
                account: CloseOrderAccounts::ORDER,
                recipient: CloseOrderAccounts::AUTHORITY,
            };
            &&& held == 0 ==> plan == seq![close, reclaim]
            &&& held > 0 ==> plan == seq![refund, close, reclaim]
        }),
{
}

/// Closing an order leaves custody empty, whatever it held, provided the
/// maker's token account is not custody itself.
pub proof fn lemma_closed_order_empties_custody(accounts: CloseOrderAccounts, program_id: Pubkey)
    requires
        accounts.outcome(program_id) is Ok,
        accounts.maker_tokens.key != accounts.custody.key,
    ensures
        balance_after(
            accounts.outcome(program_id)->Ok_0,
            accounts.custody.key,
            token_amount(accounts.custody.data@) as int,
        ) == 0,
{
    let plan = accounts.outcome(program_id)->Ok_0;
    let held = token_amount(accounts.custody.data@);
    if held > 0 {
        assert(plan =~= seq![plan[0], plan[1], plan[2]]);
        lemma_balance_after_three(
            plan[0],
            plan[1],
            plan[2],
            accounts.custody.key,
            held as int,
        );
        lemma_transfer_moves_its_amount(
            accounts.token_program.key,
            accounts.custody.key,
            accounts.maker_tokens.key,
            accounts.order.key,
            held,
        );
    } else {
        assert(plan =~= seq![plan[0], plan[1]]);
        lemma_balance_after_two(plan[0], plan[1], accounts.custody.key, held as int);
    }
}

/// Closing an order zeroes the record and returns the lamports of the order
/// account to the caller: whatever the invoked programs have done by then,
/// the last step leaves the order account with no lamports and with data
/// that is all zero, adds what the order account held to the lamports of the
/// caller, and leaves every other account as it was.
pub proof fn lemma_closed_order_is_zeroed_and_reclaimed(
    accounts: CloseOrderAccounts,
    program_id: Pubkey,
    held: Seq<Holding>,
    invoked: spec_fn(StepView, Seq<Holding>) -> Seq<Holding>,
)
    requires
        accounts.outcome(program_id) is Ok,
    ensures
        ({
            let plan = accounts.outcome(program_id)->Ok_0;
            let before = holdings_after(plan.drop_last(), held, invoked);
            let after = holdings_after(plan, held, invoked);
            let order = CloseOrderAccounts::ORDER as int;
            let caller = CloseOrderAccounts::AUTHORITY as int;
            before.len() >= 2 ==> {
                &&& after.len() == before.len()
                &&& after[order].lamports == 0
                &&& after[order].data == zeroes(before[order].data.len())
                &&& after[caller].lamports == before[caller].lamports + before[order].lamports
                &&& after[caller].data == before[caller].data
                &&& forall|i: int| 2 <= i < before.len() ==> after[i] == before[i]
            }
        }),
{
    let plan = accounts.outcome(program_id)->Ok_0;
    assert(plan.last() is Reclaim);
}

/// The step that writes a record leaves the order account holding that
/// record, which reads back as it was written, where the account holds
/// exactly one record; the lamports of the account, and every other account,
/// stay as they were.
pub proof fn lemma_written_record_reads_back(order: SwapOrder, held: Seq<Holding>)
    requires
        held.len() >= 2,
        held[1].data.len() == ORDER_LEN,
    ensures
        ({
            let after = carried_out(store_step(order), held);
            &&& after.len() == held.len()
            &&& after[1].data == order.to_bytes()
            &&& SwapOrder::from_bytes(after[1].data) == Some(order)
            &&& after[1].lamports == held[1].lamports
            &&& forall|i: int| 0 <= i < held.len() && i != 1 ==> after[i] == held[i]
        }),
{
    lemma_order_bytes_len(order);
    lemma_order_read_back(order);
    let after = carried_out(store_step(order), held);
    assert(after[1].data =~= order.to_bytes());
}

/// A plan that ends with the write of a record leaves the order account
/// holding that record, whatever the steps before have done, where the
/// account holds exactly one record when the write is reached. So it is
/// after an order is opened, after its amounts are changed and after
/// another taker is named.
pub proof fn lemma_plan_leaves_its_record(
    plan: Seq<StepView>,
    order: SwapOrder,
    held: Seq<Holding>,
    invoked: spec_fn(StepView, Seq<Holding>) -> Seq<Holding>,
)
    requires
        plan.len() > 0,
        plan.last() == store_step(order),
        holdings_after(plan.drop_last(), held, invoked).len() >= 2,
        holdings_after(plan.drop_last(), held, invoked)[1].data.len() == ORDER_LEN,
    ensures
        SwapOrder::from_bytes(holdings_after(plan, held, invoked)[1].data) == Some(order),
        holdings_after(plan, held, invoked)[1].lamports == holdings_after(
            plan.drop_last(),
            held,
            invoked,
        )[1].lamports,
{
    lemma_written_record_reads_back(order, holdings_after(plan.drop_last(), held, invoked));
}

/// The naming of another taker is planned only for an authentic order
/// account: where the account holds no record, or does not lie at the
/// address derived for its record, the request is refused for that, with
/// `AddressMismatch` for a record at another address.
pub proof fn lemma_named_taker_needs_an_authentic_order(
    accounts: ChangeTakerAccounts,
    program_id: Pubkey,
    new_taker: [u8; 32],
)
    ensures
        accounts.outcome(program_id, new_taker) is Ok ==> order_pda_outcome(
            program_id,
            *accounts.order,
        ) is Ok,
        order_pda_outcome(program_id, *accounts.order) matches Err(e) ==> accounts.outcome(
            program_id,
            new_taker,
        ) == refused(e),
{
}

/// A request to name a taker other than the account supplied as the new
/// taker is refused, so the taker of the order stays as it is; where the
/// order account authenticates and the caller is its maker and signed, it is
/// refused as `InvalidArgument`.
pub proof fn lemma_mismatched_new_taker_is_refused(
    accounts: ChangeTakerAccounts,
    program_id: Pubkey,
    new_taker: [u8; 32],
)
    requires
        new_taker != accounts.new_taker.key.0,
    ensures
        accounts.outcome(program_id, new_taker) is Err,
        order_pda_outcome(program_id, *accounts.order) matches Ok(order) && authority_check(
            *accounts.maker,
            order,
        ) is Ok ==> accounts.outcome(program_id, new_taker) == refused(
            SwapError::InvalidArgument,
        ),
{
}

/// A change of amounts asked for by a signer that is not the maker of the
/// authenticated order is refused as `AuthorityMismatch`.
pub proof fn lemma_only_the_maker_changes_the_amounts(
    accounts: ChangeOrderAmountsAccounts,
    program_id: Pubkey,
    order: SwapOrder,
    new_maker_amount: u64,
    new_taker_amount: u64,
)
    requires
        authenticates_as(program_id, *accounts.order, order),
        accounts.maker.is_signer,
        accounts.maker.key != order.maker,
    ensures
        accounts.outcome(program_id, new_maker_amount, new_taker_amount) == refused(
            SwapError::AuthorityMismatch,
        ),
{
}

/// The naming of another taker, asked for by a signer that is not the maker
/// of the authenticated order, is refused as `AuthorityMismatch`.
pub proof fn lemma_only_the_maker_names_the_taker(
    accounts: ChangeTakerAccounts,
    program_id: Pubkey,
    order: SwapOrder,
    new_taker: [u8; 32],
)
    requires
        authenticates_as(program_id, *accounts.order, order),
        accounts.maker.is_signer,
        accounts.maker.key != order.maker,
    ensures
        accounts.outcome(program_id, new_taker) == refused(SwapError::AuthorityMismatch),
{
}

/// A closing asked for by a signer that is not the maker of the
/// authenticated order is refused as `AuthorityMismatch`.
pub proof fn lemma_only_the_maker_closes_an_order(
    accounts: CloseOrderAccounts,
    program_id: Pubkey,
    order: SwapOrder,
)
    requires
        authenticates_as(program_id, *accounts.order, order),
        accounts.authority.is_signer,
        accounts.authority.key != order.maker,
    ensures
        accounts.outcome(program_id) == refused(
            SwapError::AuthorityMismatch,
        ),
{
}

/// A settlement asked for by a signer that is not the taker of the
/// authenticated order is refused as `CounterpartyMismatch`.
pub proof fn lemma_only_the_taker_settles_an_order(
    accounts: CompleteSwapAccounts,
    program_id: Pubkey,
    order: SwapOrder,
)
    requires
        authenticates_as(program_id, *accounts.order, order),
        accounts.taker.is_signer,
        accounts.taker.key != order.taker,
    ensures
        accounts.outcome(program_id) == refused(
            SwapError::CounterpartyMismatch,
        ),
{
}

} // verus!
