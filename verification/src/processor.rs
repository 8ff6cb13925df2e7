//! The order state machine: the five transitions, each from a request and
//! the accounts it names to the plan that carries it out.

use vstd::prelude::*;
use crate::accounts::{
    AccountInfo, ChangeOrderAmountsAccounts, ChangeTakerAccounts, CloseOrderAccounts,
    CompleteSwapAccounts, InitializeOrderAccounts,
};
use crate::cpi::{
    close_account_instruction, create_account_instruction, indices3, indices4, indices5, invoke,
    invoke_signed, invoke_signed_step, invoke_step, plan_view, system_create_account,
    transfer_instruction, Step, StepView,
};
use crate::error::SwapError;
use crate::escrow::{
    close_account, deposit, deposit_step, initial_deposit, initial_deposit_check,
    initial_deposit_instruction, reconcile, reconciliation, transfer, withdraw, withdraw_step,
    Adjustment,
};
use crate::instruction::SwapInstruction;
use crate::pda::{
    check_order_address, get_order_pda, order_address, order_signer_seed_list,
    order_signer_seeds,
};
use crate::pubkey::{lemma_pubkey_view_injective, Pubkey, TOKEN_PROGRAM_ID};
use crate::rent::{minimum_balance, minimum_balance_outcome};
use crate::state::{SwapOrder, ORDER_LEN};
use crate::token::{token_amount, unpack_token_account};
use crate::validation::{
    authority_check, init_amounts_check, order_pda_outcome, rent_sysvar_check, signer_check,
    system_program_check, taker_check, token_account_check, token_mint_check,
    token_program_check, token_program_id_check, validate_authority, validate_init_amounts,
    validate_order_pda, validate_rent_sysvar, validate_signer, validate_system_program,
    validate_taker, validate_token_account, validate_token_mint, validate_token_program,
    validate_token_program_id, Check,
};

verus! {

/// A plan, or the refusal of a request.
pub type Outcome = Result<Seq<StepView>, SwapError>;

/// What a request comes to: the plan that carries it out, or why it was
/// refused.
pub open spec fn outcome_view(r: Result<Vec<Step>, SwapError>) -> Outcome {
    match r {
        Ok(plan) => Ok(plan_view(plan@)),
        Err(e) => Err(e),
    }
}

/// The outcome of a request that is refused for `error`.
pub open spec fn refused(error: SwapError) -> Outcome {
    Err(error)
}

/// The outcome of a request that is carried out by `plan`.
pub open spec fn planned(plan: Seq<StepView>) -> Outcome {
    Ok(plan)
}

/// The outcome of a request that passed `checks` and would then come to
/// `outcome`.
pub open spec fn after(checks: Result<(), SwapError>, outcome: Outcome) -> Outcome {
    match checks {
        Err(e) => Err(e),
        Ok(_) => outcome,
    }
}

/// The step that writes `order` into the order account, the second account
/// of every request.
pub open spec fn store_step(order: SwapOrder) -> StepView {
    StepView::Store { account: 1, data: order.to_bytes() }
}

/// The seeds that sign for the address of `order`.
pub open spec fn signer_seeds_of(order: SwapOrder) -> Seq<Seq<u8>> {
    order_signer_seeds(order.maker, order.maker_token_mint, order.taker_token_mint, order.bump)
}

impl<'a> InitializeOrderAccounts<'a> {
    /// The checks of the request, in turn: both amounts are positive; the
    /// maker signed; both mints are mints of a token program; both belong
    /// to the token program of the request, which is therefore one; the
    /// maker's token account is the maker's, for the maker's mint; the
    /// system program and the rent sysvar are what they have to be; custody
    /// belongs to the order account, for the maker's mint.
    pub open spec fn checks(self, maker_amount: u64, taker_amount: u64) -> Result<(), SwapError> {
        init_amounts_check(maker_amount, taker_amount)
            .followed_by(signer_check(*self.maker))
            .followed_by(token_mint_check(*self.maker_mint))
            .followed_by(token_mint_check(*self.taker_mint))
            .followed_by(token_program_check(*self.maker_mint, self.token_program.key))
            .followed_by(token_program_check(*self.taker_mint, self.token_program.key))
            .followed_by(
                token_account_check(self.maker_tokens.data@, self.maker.key, self.maker_mint.key),
            )
            .followed_by(system_program_check(self.system_program.key))
            .followed_by(rent_sysvar_check(self.rent.key))
            .followed_by(
                token_account_check(self.custody.data@, self.order.key, self.maker_mint.key),
            )
    }

    /// The accounts that the deposit touches: the maker's token account,
    /// custody, the maker and the token program, and for a checked transfer
    /// the maker's mint as well.
    pub open spec fn deposit_accounts(self) -> Seq<usize> {
        if self.token_program.key.0 == TOKEN_PROGRAM_ID {
            seq![Self::MAKER_TOKENS, Self::CUSTODY, Self::MAKER, Self::TOKEN_PROGRAM]
        } else {
            seq![
                Self::MAKER_TOKENS,
                Self::MAKER_MINT,
                Self::CUSTODY,
                Self::MAKER,
                Self::TOKEN_PROGRAM,
            ]
        }
    }

    /// The record that the request writes.
    pub open spec fn new_order(self, maker_amount: u64, taker_amount: u64, bump: u8) -> SwapOrder {
        SwapOrder {
            maker: self.maker.key,
            taker: self.taker.key,
            maker_token_mint: self.maker_mint.key,
            taker_token_mint: self.taker_mint.key,
            maker_amount,
            taker_amount,
            bump,
        }
    }

    /// The plan that opens the order: create the order account with room
    /// for one record, paid by the maker with `rent_lamports` and signed for
    /// the order address; deposit `maker_amount` from the maker's token
    /// account into custody; write the record.
    pub open spec fn plan(
        self,
        program_id: Pubkey,
        maker_amount: u64,
        taker_amount: u64,
        bump: u8,
        rent_lamports: u64,
    ) -> Seq<StepView> {
        seq![
            invoke_signed_step(
                create_account_instruction(
                    self.maker.key,
                    self.order.key,
                    rent_lamports,
                    ORDER_LEN as u64,
                    program_id,
                ),
                seq![Self::MAKER, Self::ORDER, Self::SYSTEM_PROGRAM],
                order_signer_seeds(self.maker.key, self.maker_mint.key, self.taker_mint.key, bump),
            ),
            invoke_step(
                initial_deposit_instruction(
                    self.token_program.key,
                    self.maker_tokens.key,
                    *self.maker_mint,
                    self.custody.key,
                    self.maker.key,
                    maker_amount,
                ),
                self.deposit_accounts(),
            ),
            store_step(self.new_order(maker_amount, taker_amount, bump)),
        ]
    }

    /// What planning the opening of the order comes to, given the bump seed
    /// of the order address and the rent of the order account: the plan,
    /// unless the deposit cannot be built.
    pub open spec fn open_outcome(
        self,
        program_id: Pubkey,
        maker_amount: u64,
        taker_amount: u64,
        bump: u8,
        rent_lamports: u64,
    ) -> Outcome {
        after(
            initial_deposit_check(self.token_program.key, *self.maker_mint),
            Ok(self.plan(program_id, maker_amount, taker_amount, bump, rent_lamports)),
        )
    }

    /// What the request comes to: the first failure of its checks; then,
    /// where the order account does not lie at the address derived for the
    /// order, `AddressMismatch`; then the failure to price the order account
    /// by the rent sysvar; else the plan.
    pub open spec fn outcome(self, program_id: Pubkey, maker_amount: u64, taker_amount: u64)
        -> Outcome {
        after(
            self.checks(maker_amount, taker_amount),
            match order_address(
                program_id,
                self.maker.key,
                self.maker_mint.key,
                self.taker_mint.key,
            ) {
                None => Err(SwapError::AddressMismatch),
                Some((address, bump)) => if address != self.order.key@ {
                    Err(SwapError::AddressMismatch)
                } else {
                    match minimum_balance_outcome(*self.rent, ORDER_LEN) {
                        Err(e) => Err(e),
                        Ok(rent_lamports) => self.open_outcome(
                            program_id,
                            maker_amount,
                            taker_amount,
                            bump,
                            rent_lamports,
                        ),
                    }
                },
            },
        )
    }
}

impl<'a> ChangeOrderAmountsAccounts<'a> {
    /// The checks of the request on the authenticated `order`, in turn: the
    /// caller signed and is the maker; the token program is one; custody
    /// belongs to the order account, for the maker's mint.
    pub open spec fn checks(self, order: SwapOrder) -> Result<(), SwapError> {
        authority_check(*self.maker, order)
            .followed_by(token_program_id_check(self.token_program.key))
            .followed_by(
                token_account_check(self.custody.data@, self.order.key, order.maker_token_mint),
            )
    }

    /// The plan that changes the amounts of `order`: bring custody from what
    /// it holds to `new_maker_amount`, by a deposit of the maker or by a
    /// refund signed for the order address, and write the record with both
    /// new amounts.
    pub open spec fn plan(self, order: SwapOrder, new_maker_amount: u64, new_taker_amount: u64)
        -> Seq<StepView> {
        let store = store_step(
            SwapOrder { maker_amount: new_maker_amount, taker_amount: new_taker_amount, ..order },
        );
        match reconciliation(token_amount(self.custody.data@), new_maker_amount) {
            Adjustment::Deposit(amount) => seq![
                deposit_step(
                    self.token_program.key,
                    self.maker_tokens.key,
                    self.custody.key,
                    self.maker.key,
                    amount,
                    seq![Self::MAKER_TOKENS, Self::CUSTODY, Self::MAKER, Self::TOKEN_PROGRAM],
                ),
                store,
            ],
            Adjustment::Refund(amount) => seq![
                withdraw_step(
                    self.token_program.key,
                    self.custody.key,
                    self.maker_tokens.key,
                    self.order.key,
                    amount,
                    seq![Self::CUSTODY, Self::MAKER_TOKENS, Self::ORDER, Self::TOKEN_PROGRAM],
                    order_signer_seeds(
                        self.maker.key,
                        order.maker_token_mint,
                        order.taker_token_mint,
                        order.bump,
                    ),
                ),
                store,
            ],
            Adjustment::Unchanged => seq![store],
        }
    }

    /// What the request comes to for the authenticated `order`: the first
    /// failure of its checks, else the plan.
    pub open spec fn outcome_for(
        self,
        order: SwapOrder,
        new_maker_amount: u64,
        new_taker_amount: u64,
    ) -> Outcome {
        after(self.checks(order), Ok(self.plan(order, new_maker_amount, new_taker_amount)))
    }

    /// What the request comes to: the failure to authenticate the order
    /// account, else what it comes to for the order in that account.
    pub open spec fn outcome(self, program_id: Pubkey, new_maker_amount: u64, new_taker_amount: u64)
        -> Outcome {
        match order_pda_outcome(program_id, *self.order) {
            Err(e) => Err(e),
            Ok(order) => self.outcome_for(order, new_maker_amount, new_taker_amount),
        }
    }
}

impl<'a> ChangeTakerAccounts<'a> {
    /// What the request comes to for the authenticated `order`: the failure
    /// of the caller to be the maker and to have signed; then
    /// `InvalidArgument` where the taker it names is not the account
    /// supplied as the new taker; else the write of the record with the new
    /// taker.
    pub open spec fn outcome_for(self, order: SwapOrder, new_taker: [u8; 32]) -> Outcome {
        after(
            authority_check(*self.maker, order),
            if new_taker != self.new_taker.key.0 {
                Err(SwapError::InvalidArgument)
            } else {
                Ok(seq![store_step(SwapOrder { taker: Pubkey(new_taker), ..order })])
            },
        )
    }

    /// What the request comes to: the failure to authenticate the order
    /// account, else what it comes to for the order in that account.
    pub open spec fn outcome(self, program_id: Pubkey, new_taker: [u8; 32]) -> Outcome {
        match order_pda_outcome(program_id, *self.order) {
            Err(e) => Err(e),
            Ok(order) => self.outcome_for(order, new_taker),
        }
    }
}

impl<'a> CompleteSwapAccounts<'a> {
    /// The checks of the request on the authenticated `order`, in turn: the
    /// caller signed and is the taker; the token program is one; each of the
    /// four token accounts belongs to whom it has to, for the mint it has
    /// to.
    pub open spec fn checks(self, order: SwapOrder) -> Result<(), SwapError> {
        taker_check(*self.taker, order)
            .followed_by(token_program_id_check(self.token_program.key))
            .followed_by(
                token_account_check(
                    self.maker_receiving.data@,
                    order.maker,
                    order.taker_token_mint,
                ),
            )
            .followed_by(
                token_account_check(
                    self.taker_receiving.data@,
                    self.taker.key,
                    order.maker_token_mint,
                ),
            )
            .followed_by(
                token_account_check(
                    self.taker_sending.data@,
                    self.taker.key,
                    order.taker_token_mint,
                ),
            )
            .followed_by(
                token_account_check(self.custody.data@, self.order.key, order.maker_token_mint),
            )
    }

    /// The plan that settles `order`: the taker pays `taker_amount` to the
    /// maker, and custody, signed for the order address, pays `maker_amount`
    /// to the taker. The record is not written.
    pub open spec fn plan(self, order: SwapOrder) -> Seq<StepView> {
        seq![
            invoke_step(
                transfer_instruction(
                    self.token_program.key,
                    self.taker_sending.key,
                    self.maker_receiving.key,
                    self.taker.key,
                    order.taker_amount,
                ),
                seq![Self::TAKER_SENDING, Self::MAKER_RECEIVING, Self::TAKER, Self::TOKEN_PROGRAM],
            ),
            withdraw_step(
                self.token_program.key,
                self.custody.key,
                self.taker_receiving.key,
                self.order.key,
                order.maker_amount,
                seq![Self::CUSTODY, Self::TAKER_RECEIVING, Self::ORDER, Self::TOKEN_PROGRAM],
                signer_seeds_of(order),
            ),
        ]
    }

    /// What the request comes to for the authenticated `order`: the first
    /// failure of its checks; then, where custody holds less than the order
    /// promises, `InsufficientFunds`; else the plan.
    pub open spec fn outcome_for(self, order: SwapOrder) -> Outcome {
        after(
            self.checks(order),
            if token_amount(self.custody.data@) < order.maker_amount {
                Err(SwapError::InsufficientFunds)
            } else {
                Ok(self.plan(order))
            },
        )
    }

    /// What the request comes to: the failure to authenticate the order
    /// account, else what it comes to for the order in that account.
    pub open spec fn outcome(self, program_id: Pubkey) -> Outcome {
        match order_pda_outcome(program_id, *self.order) {
            Err(e) => Err(e),
            Ok(order) => self.outcome_for(order),
        }
    }
}

impl<'a> CloseOrderAccounts<'a> {
    /// The checks of the request on the authenticated `order`, in turn: the
    /// caller signed and is the maker; the token program is one; custody
    /// belongs to the order account, and the maker's token account to the
    /// maker, both for the maker's mint.
    pub open spec fn checks(self, order: SwapOrder) -> Result<(), SwapError> {
        authority_check(*self.authority, order)
            .followed_by(token_program_id_check(self.token_program.key))
            .followed_by(
                token_account_check(self.custody.data@, self.order.key, order.maker_token_mint),
            )
            .followed_by(
                token_account_check(self.maker_tokens.data@, order.maker, order.maker_token_mint),
            )
    }

    /// The step that closes custody in favour of the caller, signed for the
    /// order address.
    pub open spec fn close_custody_step(self, order: SwapOrder) -> StepView {
        invoke_signed_step(
            close_account_instruction(
                self.token_program.key,
                self.custody.key,
                self.authority.key,
                self.order.key,
            ),
            seq![Self::CUSTODY, Self::AUTHORITY, Self::ORDER, Self::TOKEN_PROGRAM],
            signer_seeds_of(order),
        )
    }

    /// The plan that closes `order`: where custody holds anything, refund
    /// all of it to the maker, signed for the order address; close custody
    /// in favour of the caller; then hand the lamports of the order account
    /// to the caller and zero its record.
    pub open spec fn plan(self, order: SwapOrder) -> Seq<StepView> {
        let reclaim = StepView::Reclaim { account: Self::ORDER, recipient: Self::AUTHORITY };
        if token_amount(self.custody.data@) > 0 {
            seq![
                withdraw_step(
                    self.token_program.key,
                    self.custody.key,
                    self.maker_tokens.key,
                    self.order.key,
                    token_amount(self.custody.data@),
                    seq![Self::CUSTODY, Self::MAKER_TOKENS, Self::ORDER, Self::TOKEN_PROGRAM],
                    signer_seeds_of(order),
                ),
                self.close_custody_step(order),
                reclaim,
            ]
        } else {
            seq![self.close_custody_step(order), reclaim]
        }
    }

    /// What the request comes to for the authenticated `order`: the first
    /// failure of its checks, else the plan.
    pub open spec fn outcome_for(self, order: SwapOrder) -> Outcome {
        after(self.checks(order), Ok(self.plan(order)))
    }

    /// What the request comes to: the failure to authenticate the order
    /// account, else what it comes to for the order in that account.
    pub open spec fn outcome(self, program_id: Pubkey) -> Outcome {
        match order_pda_outcome(program_id, *self.order) {
            Err(e) => Err(e),
            Ok(order) => self.outcome_for(order),
        }
    }
}

/// What a request to open an order comes to on a list of accounts: a zero
/// amount is refused before the accounts are looked at.
pub open spec fn initialize_order_outcome(
    program_id: Pubkey,
    accounts: Seq<AccountInfo>,
    maker_amount: u64,
    taker_amount: u64,
) -> Outcome {
    after(
        init_amounts_check(maker_amount, taker_amount),
        if accounts.len() < InitializeOrderAccounts::COUNT {
            Err(SwapError::NotEnoughAccountKeys)
        } else {
            InitializeOrderAccounts::of(accounts).outcome(program_id, maker_amount, taker_amount)
        },
    )
}

/// What a request to change the amounts of an order comes to on a list of
/// accounts.
pub open spec fn change_order_amounts_outcome(
    program_id: Pubkey,
    accounts: Seq<AccountInfo>,
    new_maker_amount: u64,
    new_taker_amount: u64,
) -> Outcome {
    if accounts.len() < ChangeOrderAmountsAccounts::COUNT {
        Err(SwapError::NotEnoughAccountKeys)
    } else {
        ChangeOrderAmountsAccounts::of(accounts).outcome(
            program_id,
            new_maker_amount,
            new_taker_amount,
        )
    }
}

/// What a request to name another taker comes to on a list of accounts.
pub open spec fn change_taker_outcome(
    program_id: Pubkey,
    accounts: Seq<AccountInfo>,
    new_taker: [u8; 32],
) -> Outcome {
    if accounts.len() < ChangeTakerAccounts::COUNT {
        Err(SwapError::NotEnoughAccountKeys)
    } else {
        ChangeTakerAccounts::of(accounts).outcome(program_id, new_taker)
    }
}

/// What a request to settle an order comes to on a list of accounts.
pub open spec fn complete_swap_outcome(program_id: Pubkey, accounts: Seq<AccountInfo>) -> Outcome {
    if accounts.len() < CompleteSwapAccounts::COUNT {
        Err(SwapError::NotEnoughAccountKeys)
    } else {
        CompleteSwapAccounts::of(accounts).outcome(program_id)
    }
}

/// What a request to close an order comes to on a list of accounts.
pub open spec fn close_order_outcome(program_id: Pubkey, accounts: Seq<AccountInfo>) -> Outcome {
    if accounts.len() < CloseOrderAccounts::COUNT {
        Err(SwapError::NotEnoughAccountKeys)
    } else {
        CloseOrderAccounts::of(accounts).outcome(program_id)
    }
}

/// What a request comes to: a payload that is no request is refused as
/// malformed, any other goes to the transition it names.
pub open spec fn process_outcome(
    program_id: Pubkey,
    accounts: Seq<AccountInfo>,
    instruction_data: Seq<u8>,
) -> Outcome {
    match SwapInstruction::from_bytes(instruction_data) {
        None => Err(SwapError::MalformedRequest),
        Some(SwapInstruction::InitializeOrder { maker_amount, taker_amount }) => {
            initialize_order_outcome(program_id, accounts, maker_amount, taker_amount)
        },
        Some(SwapInstruction::ChangeOrderAmounts { new_maker_amount, new_taker_amount }) => {
            change_order_amounts_outcome(program_id, accounts, new_maker_amount, new_taker_amount)
        },
        Some(SwapInstruction::ChangeTaker { new_taker }) => change_taker_outcome(
            program_id,
            accounts,
            new_taker,
        ),
        Some(SwapInstruction::CompleteSwap) => complete_swap_outcome(program_id, accounts),
        Some(SwapInstruction::CloseOrder) => close_order_outcome(program_id, accounts),
    }
}

/// The escrow program.
pub struct Processor;

impl Processor {
    /// Decodes a request and plans the transition it names. Nothing is
    /// changed here: the plan that comes back says what the runtime has to
    /// do, in order and atomically, and a refused request has no plan.
    pub fn process(program_id: &Pubkey, accounts: &[AccountInfo], instruction_data: &[u8]) -> (r:
        Result<Vec<Step>, SwapError>)
        ensures
            outcome_view(r) == process_outcome(*program_id, accounts@, instruction_data@),
    {
        let instruction = SwapInstruction::try_from_slice(instruction_data)?;
        match instruction {
            SwapInstruction::InitializeOrder { maker_amount, taker_amount } => {
                Self::process_initialize_order(program_id, accounts, maker_amount, taker_amount)
            },
            SwapInstruction::ChangeOrderAmounts { new_maker_amount, new_taker_amount } => {
                Self::process_change_order_amounts(
                    program_id,
                    accounts,
                    new_maker_amount,
                    new_taker_amount,
                )
            },
            SwapInstruction::ChangeTaker { new_taker } => {
                Self::process_change_taker(program_id, accounts, new_taker)
            },
            SwapInstruction::CompleteSwap => Self::process_complete_swap(program_id, accounts),
            SwapInstruction::CloseOrder => Self::process_close_order(program_id, accounts),
        }
    }

    /// Plans the opening of an order: refuses a zero amount, checks the
    /// accounts, makes sure that the order account lies at the address
    /// derived for the order, prices the account and plans the steps.
    pub fn process_initialize_order(
        program_id: &Pubkey,
        accounts: &[AccountInfo],
        maker_amount: u64,
        taker_amount: u64,
    ) -> (r: Result<Vec<Step>, SwapError>)
        ensures
            outcome_view(r) == initialize_order_outcome(
                *program_id,
                accounts@,
                maker_amount,
                taker_amount,
            ),
    {
        validate_init_amounts(maker_amount, taker_amount)?;
        let accounts = InitializeOrderAccounts::parse(accounts)?;

        validate_signer(accounts.maker)?;
        validate_token_mint(accounts.maker_mint)?;
        validate_token_mint(accounts.taker_mint)?;
        validate_token_program(accounts.maker_mint, &accounts.token_program.key)?;
        validate_token_program(accounts.taker_mint, &accounts.token_program.key)?;
        validate_token_account(
            accounts.maker_tokens,
            &accounts.maker.key,
            &accounts.maker_mint.key,
        )?;
        validate_system_program(&accounts.system_program.key)?;
        validate_rent_sysvar(&accounts.rent.key)?;
        validate_token_account(accounts.custody, &accounts.order.key, &accounts.maker_mint.key)?;

        let derived = get_order_pda(
            program_id,
            &accounts.maker.key,
            &accounts.maker_mint.key,
            &accounts.taker_mint.key,
        )?;
        proof {
            lemma_pubkey_view_injective(derived.0, accounts.order.key);
        }
        let bump = check_order_address(&derived, &accounts.order.key)?;
        let rent_lamports = minimum_balance(accounts.rent, ORDER_LEN)?;
        Self::open_order(program_id, &accounts, maker_amount, taker_amount, bump, rent_lamports)
    }

    /// Plans the steps that open an order, for a request that has passed its
    /// checks, given the bump seed of the order address and the balance that
    /// exempts the order account from rent. Fails where the deposit cannot
    /// be built: with `InvalidAccountData` where it has to be a checked
    /// transfer and the maker's mint is no mint, and with
    /// `IncorrectProgramId` where the token program is none.
    pub fn open_order(
        program_id: &Pubkey,
        accounts: &InitializeOrderAccounts,
        maker_amount: u64,
        taker_amount: u64,
        bump: u8,
        rent_lamports: u64,
    ) -> (r: Result<Vec<Step>, SwapError>)
        ensures
            outcome_view(r) == accounts.open_outcome(
                *program_id,
                maker_amount,
                taker_amount,
                bump,
                rent_lamports,
            ),
    {
        let mut plan: Vec<Step> = Vec::new();
        plan.push(
            invoke_signed(
                system_create_account(
                    &accounts.maker.key,
                    &accounts.order.key,
                    rent_lamports,
                    ORDER_LEN as u64,
                    program_id,
                ),
                indices3(
                    InitializeOrderAccounts::MAKER,
                    InitializeOrderAccounts::ORDER,
                    InitializeOrderAccounts::SYSTEM_PROGRAM,
                ),
                order_signer_seed_list(
                    &accounts.maker.key,
                    &accounts.maker_mint.key,
                    &accounts.taker_mint.key,
                    bump,
                ),
            ),
        );
        let transfer_instruction = initial_deposit(
            &accounts.token_program.key,
            &accounts.maker_tokens.key,
            accounts.maker_mint,
            &accounts.custody.key,
            &accounts.maker.key,
            maker_amount,
        )?;
        let touched = if accounts.token_program.key.is(&TOKEN_PROGRAM_ID) {
            indices4(
                InitializeOrderAccounts::MAKER_TOKENS,
                InitializeOrderAccounts::CUSTODY,
                InitializeOrderAccounts::MAKER,
                InitializeOrderAccounts::TOKEN_PROGRAM,
            )
        } else {
            indices5(
                InitializeOrderAccounts::MAKER_TOKENS,
                InitializeOrderAccounts::MAKER_MINT,
                InitializeOrderAccounts::CUSTODY,
                InitializeOrderAccounts::MAKER,
                InitializeOrderAccounts::TOKEN_PROGRAM,
            )
        };
        plan.push(invoke(transfer_instruction, touched));

        let order = SwapOrder::new(
            accounts.maker.key,
            accounts.taker.key,
            accounts.maker_mint.key,
            accounts.taker_mint.key,
            maker_amount,
            taker_amount,
            bump,
        );
        plan.push(Step::Store { account: InitializeOrderAccounts::ORDER, data: order.serialize() });
        assert(plan_view(plan@) =~= accounts.plan(
            *program_id,
            maker_amount,
            taker_amount,
            bump,
            rent_lamports,
        ));
        Ok(plan)
    }

    /// Plans the change of the amounts of an order: authenticates the order
    /// account and plans the change for the order it holds.
    pub fn process_change_order_amounts(
        program_id: &Pubkey,
        accounts: &[AccountInfo],
        new_maker_amount: u64,
        new_taker_amount: u64,
    ) -> (r: Result<Vec<Step>, SwapError>)
        ensures
            outcome_view(r) == change_order_amounts_outcome(
                *program_id,
                accounts@,
                new_maker_amount,
                new_taker_amount,
            ),
    {
        let accounts = ChangeOrderAmountsAccounts::parse(accounts)?;
        let (order, _) = validate_order_pda(program_id, accounts.order)?;
        Self::amend_order(&accounts, &order, new_maker_amount, new_taker_amount)
    }

    /// Plans the change of the amounts of `order`, the authenticated record
    /// of the order account: checks the caller and the accounts, compares
    /// what custody holds with the new maker amount, and plans the transfer
    /// that makes up the difference and the write of the record.
    pub fn amend_order(
        accounts: &ChangeOrderAmountsAccounts,
        order: &SwapOrder,
        new_maker_amount: u64,
        new_taker_amount: u64,
    ) -> (r: Result<Vec<Step>, SwapError>)
        ensures
            outcome_view(r) == accounts.outcome_for(*order, new_maker_amount, new_taker_amount),
    {
        validate_authority(accounts.maker, order)?;
        validate_token_program_id(&accounts.token_program.key)?;
        validate_token_account(accounts.custody, &accounts.order.key, &order.maker_token_mint)?;

        let current_escrow_amount = match unpack_token_account(accounts.custody.data.as_slice()) {
            Some(state) => state.amount,
            None => {
                return Err(SwapError::InvalidAccountData);
            },
        };

        let mut plan: Vec<Step> = Vec::new();
        match reconcile(current_escrow_amount, new_maker_amount) {
            Adjustment::Deposit(additional_amount) => {
                plan.push(
                    deposit(
                        &accounts.token_program.key,
                        &accounts.maker_tokens.key,
                        &accounts.custody.key,
                        &accounts.maker.key,
                        additional_amount,
                        indices4(
                            ChangeOrderAmountsAccounts::MAKER_TOKENS,
                            ChangeOrderAmountsAccounts::CUSTODY,
                            ChangeOrderAmountsAccounts::MAKER,
                            ChangeOrderAmountsAccounts::TOKEN_PROGRAM,
                        ),
                    )?,
                );
            },
            Adjustment::Refund(refund_amount) => {
                plan.push(
                    withdraw(
                        &accounts.token_program.key,
                        &accounts.custody.key,
                        &accounts.maker_tokens.key,
                        &accounts.order.key,
                        refund_amount,
                        indices4(
                            ChangeOrderAmountsAccounts::CUSTODY,
                            ChangeOrderAmountsAccounts::MAKER_TOKENS,
                            ChangeOrderAmountsAccounts::ORDER,
                            ChangeOrderAmountsAccounts::TOKEN_PROGRAM,
                        ),
                        order_signer_seed_list(
                            &accounts.maker.key,
                            &order.maker_token_mint,
                            &order.taker_token_mint,
                            order.bump,
                        ),
                    )?,
                );
            },
            Adjustment::Unchanged => {},
        }

        let mut amended = *order;
        amended.maker_amount = new_maker_amount;
        amended.taker_amount = new_taker_amount;
        plan.push(
            Step::Store { account: ChangeOrderAmountsAccounts::ORDER, data: amended.serialize() },
        );
        assert(plan_view(plan@) =~= accounts.plan(*order, new_maker_amount, new_taker_amount));
        Ok(plan)
    }

    /// Plans the naming of another taker: authenticates the order account
    /// and plans the change for the order it holds.
    pub fn process_change_taker(
        program_id: &Pubkey,
        accounts: &[AccountInfo],
        new_taker: [u8; 32],
    ) -> (r: Result<Vec<Step>, SwapError>)
        ensures
            outcome_view(r) == change_taker_outcome(*program_id, accounts@, new_taker),
    {
        let accounts = ChangeTakerAccounts::parse(accounts)?;
        let (order, _) = validate_order_pda(program_id, accounts.order)?;
        Self::reassign_order(&accounts, &order, new_taker)
    }

    /// Plans the naming of another taker for `order`, the authenticated
    /// record of the order account: checks the caller and the taker named,
    /// and plans the write of the record.
    pub fn reassign_order(
        accounts: &ChangeTakerAccounts,
        order: &SwapOrder,
        new_taker: [u8; 32],
    ) -> (r: Result<Vec<Step>, SwapError>)
        ensures
            outcome_view(r) == accounts.outcome_for(*order, new_taker),
    {
        validate_authority(accounts.maker, order)?;

        if !accounts.new_taker.key.is(&new_taker) {
            return Err(SwapError::InvalidArgument);
        }
        let mut renamed = *order;
        renamed.taker = Pubkey(new_taker);
        let mut plan: Vec<Step> = Vec::new();
        plan.push(Step::Store { account: ChangeTakerAccounts::ORDER, data: renamed.serialize() });
        assert(plan_view(plan@) =~= seq![store_step(renamed)]);
        Ok(plan)
    }

    /// Plans the settlement of an order: authenticates the order account and
    /// plans the settlement of the order it holds.
    pub fn process_complete_swap(program_id: &Pubkey, accounts: &[AccountInfo]) -> (r: Result<
        Vec<Step>,
        SwapError,
    >)
        ensures
            outcome_view(r) == complete_swap_outcome(*program_id, accounts@),
    {
        let accounts = CompleteSwapAccounts::parse(accounts)?;
        let (order, _) = validate_order_pda(program_id, accounts.order)?;
        Self::settle_order(&accounts, &order)
    }

    /// Plans the settlement of `order`, the authenticated record of the
    /// order account: checks the caller and the four token accounts, makes
    /// sure that custody covers the maker amount, and plans both legs.
    pub fn settle_order(accounts: &CompleteSwapAccounts, order: &SwapOrder) -> (r: Result<
        Vec<Step>,
        SwapError,
    >)
        ensures
            outcome_view(r) == accounts.outcome_for(*order),
    {
        validate_taker(accounts.taker, order)?;
        validate_token_program_id(&accounts.token_program.key)?;
        validate_token_account(accounts.maker_receiving, &order.maker, &order.taker_token_mint)?;
        validate_token_account(
            accounts.taker_receiving,
            &accounts.taker.key,
            &order.maker_token_mint,
        )?;
        validate_token_account(
            accounts.taker_sending,
            &accounts.taker.key,
            &order.taker_token_mint,
        )?;
        validate_token_account(accounts.custody, &accounts.order.key, &order.maker_token_mint)?;

        let escrow_amount = match unpack_token_account(accounts.custody.data.as_slice()) {
            Some(state) => state.amount,
            None => {
                return Err(SwapError::InvalidAccountData);
            },
        };
        if escrow_amount < order.maker_amount {
            return Err(SwapError::InsufficientFunds);
        }

        let mut plan: Vec<Step> = Vec::new();
        plan.push(
            invoke(
                transfer(
                    &accounts.token_program.key,
                    &accounts.taker_sending.key,
                    &accounts.maker_receiving.key,
                    &accounts.taker.key,
                    order.taker_amount,
                )?,
                indices4(
                    CompleteSwapAccounts::TAKER_SENDING,
                    CompleteSwapAccounts::MAKER_RECEIVING,
                    CompleteSwapAccounts::TAKER,
                    CompleteSwapAccounts::TOKEN_PROGRAM,
                ),
            ),
        );
        plan.push(
            withdraw(
                &accounts.token_program.key,
                &accounts.custody.key,
                &accounts.taker_receiving.key,
                &accounts.order.key,
                order.maker_amount,
                indices4(
                    CompleteSwapAccounts::CUSTODY,
                    CompleteSwapAccounts::TAKER_RECEIVING,
                    CompleteSwapAccounts::ORDER,
                    CompleteSwapAccounts::TOKEN_PROGRAM,
                ),
                order_signer_seed_list(
                    &order.maker,
                    &order.maker_token_mint,
                    &order.taker_token_mint,
                    order.bump,
                ),
            )?,
        );
        assert(plan_view(plan@) =~= accounts.plan(*order));
        Ok(plan)
    }

    /// Plans the closing of an order: authenticates the order account and
    /// plans the closing of the order it holds.
    pub fn process_close_order(program_id: &Pubkey, accounts: &[AccountInfo]) -> (r: Result<
        Vec<Step>,
        SwapError,
    >)
        ensures
            outcome_view(r) == close_order_outcome(*program_id, accounts@),
    {
        let accounts = CloseOrderAccounts::parse(accounts)?;
        let (order, _) = validate_order_pda(program_id, accounts.order)?;
        Self::retire_order(&accounts, &order)
    }

    /// Plans the closing of `order`, the authenticated record of the order
    /// account: checks the caller and the accounts, and plans the refund of
    /// what custody holds, if anything, the closing of custody and the
    /// removal of the record.
    pub fn retire_order(accounts: &CloseOrderAccounts, order: &SwapOrder) -> (r: Result<
        Vec<Step>,
        SwapError,
    >)
        ensures
            outcome_view(r) == accounts.outcome_for(*order),
    {
        validate_authority(accounts.authority, order)?;
        validate_token_program_id(&accounts.token_program.key)?;
        validate_token_account(accounts.custody, &accounts.order.key, &order.maker_token_mint)?;
        validate_token_account(accounts.maker_tokens, &order.maker, &order.maker_token_mint)?;

        let escrow_amount = match unpack_token_account(accounts.custody.data.as_slice()) {
            Some(state) => state.amount,
            None => {
                return Err(SwapError::InvalidAccountData);
            },
        };

        let mut plan: Vec<Step> = Vec::new();
        if escrow_amount > 0 {
            plan.push(
                withdraw(
                    &accounts.token_program.key,
                    &accounts.custody.key,
                    &accounts.maker_tokens.key,
                    &accounts.order.key,
                    escrow_amount,
                    indices4(
                        CloseOrderAccounts::CUSTODY,
                        CloseOrderAccounts::MAKER_TOKENS,
                        CloseOrderAccounts::ORDER,
                        CloseOrderAccounts::TOKEN_PROGRAM,
                    ),
                    order_signer_seed_list(
                        &order.maker,
                        &order.maker_token_mint,
                        &order.taker_token_mint,
                        order.bump,
                    ),
                )?,
            );
        }
        plan.push(
            invoke_signed(
                close_account(
                    &accounts.token_program.key,
                    &accounts.custody.key,
                    &accounts.authority.key,
                    &accounts.order.key,
                )?,
                indices4(
                    CloseOrderAccounts::CUSTODY,
                    CloseOrderAccounts::AUTHORITY,
                    CloseOrderAccounts::ORDER,
                    CloseOrderAccounts::TOKEN_PROGRAM,
                ),
                order_signer_seed_list(
                    &order.maker,
                    &order.maker_token_mint,
                    &order.taker_token_mint,
                    order.bump,
                ),
            ),
        );
        plan.push(
            Step::Reclaim {
                account: CloseOrderAccounts::ORDER,
                recipient: CloseOrderAccounts::AUTHORITY,
            },
        );
        assert(plan_view(plan@) =~= accounts.plan(*order));
        Ok(plan)
    }
}

} // verus!
