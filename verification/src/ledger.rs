//! What a plan does once it is carried out: to token balances, by the
//! transfers that the token programs carry out, and to the data and the
//! lamports of the accounts of the request, by the steps that the escrow
//! carries out itself. Nothing here runs: this is what the steps mean.

use vstd::prelude::*;
use vstd::bytes::{
    lemma_auto_spec_u64_to_from_le_bytes, spec_u64_from_le_bytes, spec_u64_to_le_bytes,
};
use crate::cpi::{
    transfer_checked_instruction, transfer_instruction, InstructionView, StepView,
};
use crate::pubkey::Pubkey;
use crate::token::is_token_program;

verus! {

/// Tokens on their way from one token account to another.
pub struct Movement {
    pub source: Pubkey,
    pub destination: Pubkey,
    pub amount: u64,
}

/// The tokens that `instruction` moves: those of a transfer or of a checked
/// transfer through a token program, and none for any other instruction.
pub open spec fn movement_of(instruction: InstructionView) -> Option<Movement> {
    if !is_token_program(instruction.program_id) {
        None
    } else if instruction.data.len() == 9 && instruction.data[0] == 3 && instruction.accounts.len()
        == 3 {
        Some(
            Movement {
                source: instruction.accounts[0].pubkey,
                destination: instruction.accounts[1].pubkey,
                amount: spec_u64_from_le_bytes(instruction.data.subrange(1, 9)),
            },
        )
    } else if instruction.data.len() == 10 && instruction.data[0] == 12
        && instruction.accounts.len() == 4 {
        Some(
            Movement {
                source: instruction.accounts[0].pubkey,
                destination: instruction.accounts[2].pubkey,
                amount: spec_u64_from_le_bytes(instruction.data.subrange(1, 9)),
            },
        )
    } else {
        None
    }
}

/// What `step` adds to the balance of the token account at `account`: the
/// amount it moves there, less the amount it moves away.
pub open spec fn credit(step: StepView, account: Pubkey) -> int {
    match step {
        StepView::Invoke { instruction, .. } => match movement_of(instruction) {
            Some(movement) => (if movement.destination == account {
                movement.amount as int
            } else {
                0
            }) - (if movement.source == account {
                movement.amount as int
            } else {
                0
            }),
            None => 0,
        },
        _ => 0,
    }
}

/// The balance of the token account at `account` after `plan`, where it was
/// `balance` before.
pub open spec fn balance_after(plan: Seq<StepView>, account: Pubkey, balance: int) -> int
    decreases plan.len(),
{
    if plan.len() == 0 {
        balance
    } else {
        balance_after(plan.drop_last(), account, balance) + credit(plan.last(), account)
    }
}

/// A transfer through a token program moves what it was built to move.
pub proof fn lemma_transfer_moves_its_amount(
    token_program: Pubkey,
    source: Pubkey,
    destination: Pubkey,
    authority: Pubkey,
    amount: u64,
)
    requires
        is_token_program(token_program),
    ensures
        movement_of(transfer_instruction(token_program, source, destination, authority, amount))
            == Some(Movement { source, destination, amount }),
{
    lemma_auto_spec_u64_to_from_le_bytes();
    let data = seq![3u8] + spec_u64_to_le_bytes(amount);
    assert(data.subrange(1, 9) =~= spec_u64_to_le_bytes(amount));
}

/// A checked transfer through a token program moves what it was built to
/// move.
pub proof fn lemma_checked_transfer_moves_its_amount(
    token_program: Pubkey,
    source: Pubkey,
    mint: Pubkey,
    destination: Pubkey,
    authority: Pubkey,
    amount: u64,
    decimals: u8,
)
    requires
        is_token_program(token_program),
    ensures
        movement_of(
            transfer_checked_instruction(
                token_program,
                source,
                mint,
                destination,
                authority,
                amount,
                decimals,
            ),
        ) == Some(Movement { source, destination, amount }),
{
    lemma_auto_spec_u64_to_from_le_bytes();
    let data = seq![12u8] + spec_u64_to_le_bytes(amount) + seq![decimals];
    assert(data.subrange(1, 9) =~= spec_u64_to_le_bytes(amount));
}

/// The balance after a plan of one step.
pub proof fn lemma_balance_after_one(a: StepView, account: Pubkey, balance: int)
    ensures
        balance_after(seq![a], account, balance) == balance + credit(a, account),
{
    reveal_with_fuel(balance_after, 2);
    assert(seq![a].drop_last() =~= Seq::<StepView>::empty());
}

/// The balance after a plan of two steps.
pub proof fn lemma_balance_after_two(a: StepView, b: StepView, account: Pubkey, balance: int)
    ensures
        balance_after(seq![a, b], account, balance) == balance + credit(a, account) + credit(
            b,
            account,
        ),
{
    assert(seq![a, b].drop_last() =~= seq![a]);
    lemma_balance_after_one(a, account, balance);
}

/// The balance after a plan of three steps.
pub proof fn lemma_balance_after_three(
    a: StepView,
    b: StepView,
    c: StepView,
    account: Pubkey,
    balance: int,
)
    ensures
        balance_after(seq![a, b, c], account, balance) == balance + credit(a, account) + credit(
            b,
            account,
        ) + credit(c, account),
{
    assert(seq![a, b, c].drop_last() =~= seq![a, b]);
    lemma_balance_after_two(a, b, account, balance);
}

/// What an account of the request holds.
pub struct Holding {
    pub lamports: nat,
    pub data: Seq<u8>,
}

/// Data of `len` bytes, all zero.
pub open spec fn zeroes(len: nat) -> Seq<u8> {
    Seq::new(len, |i: int| 0u8)
}

/// What the accounts of the request hold once the escrow has carried out
/// `step`, where they held `held` before. A step that writes puts its data
/// at the start of the data of its account, and leaves the rest. A step that
/// reclaims empties its account of lamports, adds them to the recipient, and
/// zeroes the data of the account. A step that cannot be carried out, for
/// want of the account or of room in it, fails the request and changes
/// nothing. A step that invokes another program is not the escrow's to carry
/// out, and changes nothing here.
pub open spec fn carried_out(step: StepView, held: Seq<Holding>) -> Seq<Holding> {
    match step {
        StepView::Store { account, data } => {
            if account < held.len() && data.len() <= held[account as int].data.len() {
                let old = held[account as int];
                held.update(
                    account as int,
                    Holding {
                        lamports: old.lamports,
                        data: data + old.data.subrange(data.len() as int, old.data.len() as int),
                    },
                )
            } else {
                held
            }
        },
        StepView::Reclaim { account, recipient } => {
            if account < held.len() && recipient < held.len() {
                let moved = held[account as int].lamports;
                let emptied = held.update(
                    account as int,
                    Holding { lamports: 0, data: zeroes(held[account as int].data.len()) },
                );
                emptied.update(
                    recipient as int,
                    Holding {
                        lamports: emptied[recipient as int].lamports + moved,
                        data: emptied[recipient as int].data,
                    },
                )
            } else {
                held
            }
        },
        StepView::Invoke { .. } => held,
    }
}

/// What the accounts of the request hold after `plan`, where they held
/// `held` before. The escrow's own steps do what `carried_out` says; what an
/// invocation does is the invoked program's to say, and stands here as
/// `invoked`, from the step and what the accounts hold when it is reached
/// to what they hold after it.
pub open spec fn holdings_after(
    plan: Seq<StepView>,
    held: Seq<Holding>,
    invoked: spec_fn(StepView, Seq<Holding>) -> Seq<Holding>,
) -> Seq<Holding>
    decreases plan.len(),
{
    if plan.len() == 0 {
        held
    } else {
        let before = holdings_after(plan.drop_last(), held, invoked);
        if plan.last() is Invoke {
            invoked(plan.last(), before)
        } else {
            carried_out(plan.last(), before)
        }
    }
}

} // verus!
