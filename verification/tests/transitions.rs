use solana_program::program_option::COption;
use solana_program::program_pack::Pack;
use solana_program::pubkey::Pubkey as ChainKey;
use splerg_p2p::pda::get_order_pda;
use splerg_p2p::pubkey::{
    RENT_SYSVAR_ID, SYSTEM_PROGRAM_ID, TOKEN_2022_PROGRAM_ID, TOKEN_PROGRAM_ID,
};
use splerg_p2p::{
    AccountInfo, AccountMeta, ChangeOrderAmountsAccounts, ChangeTakerAccounts,
    CloseOrderAccounts, CompleteSwapAccounts, InitializeOrderAccounts, Instruction, Processor,
    Pubkey, Step, SwapError, SwapInstruction, SwapOrder,
};

const PROGRAM: Pubkey = Pubkey([99; 32]);
const MAKER: Pubkey = Pubkey([1; 32]);
const TAKER: Pubkey = Pubkey([2; 32]);
const MAKER_MINT: Pubkey = Pubkey([3; 32]);
const TAKER_MINT: Pubkey = Pubkey([4; 32]);
const MAKER_TOKENS: Pubkey = Pubkey([5; 32]);
const CUSTODY: Pubkey = Pubkey([6; 32]);
const MAKER_RECEIVING: Pubkey = Pubkey([7; 32]);
const TAKER_SENDING: Pubkey = Pubkey([8; 32]);
const TAKER_RECEIVING: Pubkey = Pubkey([9; 32]);
const RENT: u64 = 1_900_080;

fn rent_sysvar() -> AccountInfo {
    let mut data = 3480u64.to_le_bytes().to_vec();
    data.extend_from_slice(&2.0f64.to_le_bytes());
    data.push(50);
    AccountInfo { key: Pubkey(RENT_SYSVAR_ID), owner: Pubkey([0; 32]), is_signer: false, data }
}

fn token_program() -> Pubkey {
    Pubkey(TOKEN_PROGRAM_ID)
}

fn order_key() -> (Pubkey, u8) {
    get_order_pda(&PROGRAM, &MAKER, &MAKER_MINT, &TAKER_MINT).unwrap()
}

fn plain(key: Pubkey, is_signer: bool) -> AccountInfo {
    AccountInfo { key, owner: Pubkey(SYSTEM_PROGRAM_ID), is_signer, data: vec![] }
}

fn tokens(key: Pubkey, mint: Pubkey, owner: Pubkey, amount: u64) -> AccountInfo {
    let state = spl_token::state::Account {
        mint: ChainKey::new_from_array(mint.0),
        owner: ChainKey::new_from_array(owner.0),
        amount,
        delegate: COption::None,
        state: spl_token::state::AccountState::Initialized,
        is_native: COption::None,
        delegated_amount: 0,
        close_authority: COption::None,
    };
    let mut data = vec![0u8; spl_token::state::Account::LEN];
    spl_token::state::Account::pack(state, &mut data).unwrap();
    AccountInfo { key, owner: token_program(), is_signer: false, data }
}

fn mint(key: Pubkey, owner: Pubkey, decimals: u8) -> AccountInfo {
    let state = spl_token_2022::state::Mint {
        mint_authority: COption::None,
        supply: 10_000,
        decimals,
        is_initialized: true,
        freeze_authority: COption::None,
    };
    let mut data = vec![0u8; spl_token_2022::state::Mint::LEN];
    state.pack_into_slice(&mut data);
    AccountInfo { key, owner, is_signer: false, data }
}

fn order(maker_amount: u64, taker_amount: u64) -> SwapOrder {
    SwapOrder::new(MAKER, TAKER, MAKER_MINT, TAKER_MINT, maker_amount, taker_amount, order_key().1)
}

fn order_account(record: &SwapOrder) -> AccountInfo {
    AccountInfo { key: order_key().0, owner: PROGRAM, is_signer: false, data: record.serialize() }
}

fn signer_seeds() -> Vec<Vec<u8>> {
    vec![b"order".to_vec(), vec![1; 32], vec![3; 32], vec![4; 32], vec![order_key().1]]
}

fn transfer(source: Pubkey, destination: Pubkey, authority: Pubkey, amount: u64) -> Instruction {
    let mut data = vec![3];
    data.extend_from_slice(&amount.to_le_bytes());
    Instruction {
        program_id: token_program(),
        accounts: vec![
            AccountMeta { pubkey: source, is_signer: false, is_writable: true },
            AccountMeta { pubkey: destination, is_signer: false, is_writable: true },
            AccountMeta { pubkey: authority, is_signer: true, is_writable: false },
        ],
        data,
    }
}

fn create_accounts() -> Vec<AccountInfo> {
    vec![
        plain(MAKER, true),
        plain(order_key().0, false),
        tokens(MAKER_TOKENS, MAKER_MINT, MAKER, 1_000),
        tokens(CUSTODY, MAKER_MINT, order_key().0, 0),
        plain(TAKER, false),
        mint(MAKER_MINT, token_program(), 6),
        mint(TAKER_MINT, token_program(), 9),
        plain(Pubkey(SYSTEM_PROGRAM_ID), false),
        rent_sysvar(),
        plain(token_program(), false),
    ]
}

fn amend_accounts(record: &SwapOrder, in_custody: u64) -> Vec<AccountInfo> {
    vec![
        plain(MAKER, true),
        order_account(record),
        tokens(CUSTODY, MAKER_MINT, order_key().0, in_custody),
        tokens(MAKER_TOKENS, MAKER_MINT, MAKER, 1_000),
        plain(token_program(), false),
    ]
}

fn settle_accounts(record: &SwapOrder, in_custody: u64) -> Vec<AccountInfo> {
    vec![
        plain(TAKER, true),
        order_account(record),
        tokens(MAKER_RECEIVING, TAKER_MINT, MAKER, 0),
        tokens(TAKER_SENDING, TAKER_MINT, TAKER, 5_000),
        tokens(TAKER_RECEIVING, MAKER_MINT, TAKER, 0),
        tokens(CUSTODY, MAKER_MINT, order_key().0, in_custody),
        plain(token_program(), false),
    ]
}

fn close_accounts(record: &SwapOrder, in_custody: u64) -> Vec<AccountInfo> {
    amend_accounts(record, in_custody)
}

fn reassign_accounts(record: &SwapOrder, new_taker: Pubkey) -> Vec<AccountInfo> {
    vec![plain(MAKER, true), order_account(record), plain(new_taker, false)]
}

fn stored(step: &Step) -> SwapOrder {
    match step {
        Step::Store { account: 1, data } => SwapOrder::try_from_slice(data).unwrap(),
        other => panic!("not a write of the order record: {:?}", other),
    }
}

#[test]
fn opening_an_order_allocates_deposits_and_writes() {
    let accounts = create_accounts();
    let plan = Processor::process_initialize_order(&PROGRAM, &accounts, 100, 250)
        .unwrap();
    assert_eq!(plan.len(), 3);

    let theirs = solana_program::system_instruction::create_account(
        &ChainKey::new_from_array(MAKER.0),
        &ChainKey::new_from_array(order_key().0 .0),
        RENT,
        145,
        &ChainKey::new_from_array(PROGRAM.0),
    );
    let mut payload = vec![0, 0, 0, 0];
    payload.extend_from_slice(&RENT.to_le_bytes());
    payload.extend_from_slice(&145u64.to_le_bytes());
    payload.extend_from_slice(&PROGRAM.0);
    assert_eq!(theirs.data, payload);
    assert_eq!(
        plan[0],
        Step::Invoke {
            instruction: Instruction {
                program_id: Pubkey(SYSTEM_PROGRAM_ID),
                accounts: vec![
                    AccountMeta { pubkey: MAKER, is_signer: true, is_writable: true },
                    AccountMeta { pubkey: order_key().0, is_signer: true, is_writable: true },
                ],
                data: payload,
            },
            accounts: vec![0, 1, 7],
            signer_seeds: signer_seeds(),
        }
    );
    assert_eq!(
        plan[1],
        Step::Invoke {
            instruction: transfer(MAKER_TOKENS, CUSTODY, MAKER, 100),
            accounts: vec![2, 3, 0, 9],
            signer_seeds: vec![],
        }
    );
    assert_eq!(stored(&plan[2]), order(100, 250));
}

#[test]
fn opening_an_order_through_the_other_token_program_checks_decimals() {
    let other = Pubkey(TOKEN_2022_PROGRAM_ID);
    let mut accounts = create_accounts();
    accounts[5] = mint(MAKER_MINT, other, 6);
    accounts[6] = mint(TAKER_MINT, other, 9);
    accounts[9] = plain(other, false);
    let plan = Processor::process_initialize_order(&PROGRAM, &accounts, 100, 250)
        .unwrap();
    match &plan[1] {
        Step::Invoke { instruction, accounts, signer_seeds } => {
            assert_eq!(instruction.program_id, other);
            assert_eq!(instruction.data, vec![12, 100, 0, 0, 0, 0, 0, 0, 0, 6]);
            assert_eq!(instruction.accounts[1].pubkey, MAKER_MINT);
            // every account the instruction names is handed on, the mint too
            assert_eq!(accounts, &vec![2, 5, 3, 0, 9]);
            assert!(signer_seeds.is_empty());
        },
        other => panic!("not an invocation: {:?}", other),
    }
}

#[test]
fn opening_an_order_with_a_zero_amount_is_refused() {
    let accounts = create_accounts();
    let refused = Err(SwapError::InvalidAmount);
    assert_eq!(
        Processor::process_initialize_order(&PROGRAM, &accounts, 0, 250),
        refused
    );
    assert_eq!(
        Processor::process_initialize_order(&PROGRAM, &accounts, 100, 0),
        refused
    );
    assert_eq!(Processor::process_initialize_order(&PROGRAM, &accounts, 0, 0), refused);
    assert!(Processor::process_initialize_order(&PROGRAM, &accounts, 1, 1).is_ok());

    // whoever signed, and whatever the accounts
    let mut unsigned = create_accounts();
    unsigned[0].is_signer = false;
    assert_eq!(Processor::process_initialize_order(&PROGRAM, &unsigned, 0, 250), refused);
    assert_eq!(Processor::process_initialize_order(&PROGRAM, &unsigned, 100, 0), refused);
    assert_eq!(Processor::process_initialize_order(&PROGRAM, &[], 0, 250), refused);
    assert_eq!(Processor::process_initialize_order(&PROGRAM, &accounts[..3], 100, 0), refused);
    let zero = SwapInstruction::InitializeOrder { maker_amount: 0, taker_amount: 1 };
    assert_eq!(Processor::process(&PROGRAM, &[], &zero.serialize()), refused);
}

#[test]
fn both_mints_go_through_the_token_program_of_the_request() {
    let other = Pubkey(TOKEN_2022_PROGRAM_ID);
    let refused = Err(SwapError::AssetDescriptorMismatch);

    let mut taker_mint_elsewhere = create_accounts();
    taker_mint_elsewhere[6] = mint(TAKER_MINT, other, 9);
    assert_eq!(
        Processor::process_initialize_order(&PROGRAM, &taker_mint_elsewhere, 100, 250),
        refused
    );
    let mut maker_mint_elsewhere = create_accounts();
    maker_mint_elsewhere[5] = mint(MAKER_MINT, other, 6);
    assert_eq!(
        Processor::process_initialize_order(&PROGRAM, &maker_mint_elsewhere, 100, 250),
        refused
    );
    // the other way round: the request goes through the other program
    let mut through_other = create_accounts();
    through_other[5] = mint(MAKER_MINT, other, 6);
    through_other[9] = plain(other, false);
    assert_eq!(Processor::process_initialize_order(&PROGRAM, &through_other, 100, 250), refused);
}

#[test]
fn opening_an_order_checks_its_accounts_in_turn() {
    let open = |accounts: &Vec<AccountInfo>| {
        Processor::process_initialize_order(&PROGRAM, accounts, 100, 250)
    };
    let good = create_accounts();

    assert_eq!(open(&good[..9].to_vec()), Err(SwapError::NotEnoughAccountKeys));

    let mut unsigned = good.clone();
    unsigned[0].is_signer = false;
    assert_eq!(open(&unsigned), Err(SwapError::MissingSigner));

    let mut no_mint = good.clone();
    no_mint[5].data = vec![0; 82];
    assert_eq!(open(&no_mint), Err(SwapError::AssetDescriptorMismatch));
    let mut no_mint = good.clone();
    no_mint[6].owner = MAKER;
    assert_eq!(open(&no_mint), Err(SwapError::AssetDescriptorMismatch));

    let mut no_token_program = good.clone();
    no_token_program[9].key = Pubkey(SYSTEM_PROGRAM_ID);
    assert_eq!(open(&no_token_program), Err(SwapError::AssetDescriptorMismatch));

    let mut other_program = good.clone();
    other_program[9].key = Pubkey(TOKEN_2022_PROGRAM_ID);
    assert_eq!(open(&other_program), Err(SwapError::AssetDescriptorMismatch));

    let mut not_the_makers = good.clone();
    not_the_makers[2] = tokens(MAKER_TOKENS, MAKER_MINT, TAKER, 1_000);
    assert_eq!(open(&not_the_makers), Err(SwapError::AccountOwnerMismatch));
    let mut other_token = good.clone();
    other_token[2] = tokens(MAKER_TOKENS, TAKER_MINT, MAKER, 1_000);
    assert_eq!(open(&other_token), Err(SwapError::AssetDescriptorMismatch));

    let mut no_system_program = good.clone();
    no_system_program[7].key = MAKER;
    assert_eq!(open(&no_system_program), Err(SwapError::IncorrectProgramId));

    let mut no_rent = good.clone();
    no_rent[8].key = MAKER;
    assert_eq!(open(&no_rent), Err(SwapError::InvalidArgument));

    let mut custody_of_maker = good.clone();
    custody_of_maker[3] = tokens(CUSTODY, MAKER_MINT, MAKER, 0);
    assert_eq!(open(&custody_of_maker), Err(SwapError::AccountOwnerMismatch));
    let mut no_custody = good.clone();
    no_custody[3].data = vec![];
    assert_eq!(open(&no_custody), Err(SwapError::InvalidAccountData));

    let mut elsewhere = good.clone();
    elsewhere[1].key = Pubkey([66; 32]);
    elsewhere[3] = tokens(CUSTODY, MAKER_MINT, Pubkey([66; 32]), 0);
    assert_eq!(open(&elsewhere), Err(SwapError::AddressMismatch));
    // the address of the order of another maker
    let mut of_another = good.clone();
    of_another[0] = plain(TAKER, true);
    of_another[2] = tokens(MAKER_TOKENS, MAKER_MINT, TAKER, 1_000);
    assert_eq!(open(&of_another), Err(SwapError::AddressMismatch));

    let mut unreadable_rent = good.clone();
    unreadable_rent[8].data.truncate(16);
    assert_eq!(open(&unreadable_rent), Err(SwapError::InvalidArgument));
}

#[test]
fn raising_the_maker_amount_deposits_the_difference() {
    let accounts = amend_accounts(&order(100, 250), 100);
    let plan = Processor::process_change_order_amounts(&PROGRAM, &accounts, 150, 300).unwrap();
    assert_eq!(
        plan,
        vec![
            Step::Invoke {
                instruction: transfer(MAKER_TOKENS, CUSTODY, MAKER, 50),
                accounts: vec![3, 2, 0, 4],
                signer_seeds: vec![],
            },
            Step::Store { account: 1, data: order(150, 300).serialize() },
        ]
    );
}

#[test]
fn lowering_the_maker_amount_refunds_the_difference() {
    let accounts = amend_accounts(&order(150, 250), 150);
    let plan = Processor::process_change_order_amounts(&PROGRAM, &accounts, 100, 250).unwrap();
    assert_eq!(
        plan,
        vec![
            Step::Invoke {
                instruction: transfer(CUSTODY, MAKER_TOKENS, order_key().0, 50),
                accounts: vec![2, 3, 1, 4],
                signer_seeds: signer_seeds(),
            },
            Step::Store { account: 1, data: order(100, 250).serialize() },
        ]
    );
}

#[test]
fn keeping_the_maker_amount_still_writes_the_taker_amount() {
    let accounts = amend_accounts(&order(100, 250), 100);
    let plan = Processor::process_change_order_amounts(&PROGRAM, &accounts, 100, 999).unwrap();
    assert_eq!(plan, vec![Step::Store { account: 1, data: order(100, 999).serialize() }]);
}

#[test]
fn amounts_are_reconciled_with_custody_not_with_the_record() {
    // the record says 100, custody holds 130: going to 150 takes 20
    let accounts = amend_accounts(&order(100, 250), 130);
    let plan = Processor::process_change_order_amounts(&PROGRAM, &accounts, 150, 250).unwrap();
    assert_eq!(plan.len(), 2);
    assert_eq!(
        plan[0],
        Step::Invoke {
            instruction: transfer(MAKER_TOKENS, CUSTODY, MAKER, 20),
            accounts: vec![3, 2, 0, 4],
            signer_seeds: vec![],
        }
    );
    assert_eq!(stored(&plan[1]), order(150, 250));
}

#[test]
fn changing_the_amounts_twice_moves_tokens_once() {
    let first = amend_accounts(&order(100, 250), 100);
    let plan = Processor::process_change_order_amounts(&PROGRAM, &first, 150, 300).unwrap();
    assert_eq!(plan.len(), 2);
    let written = stored(&plan[1]);

    // what the first change leaves behind: 150 in custody, the new record
    let second = amend_accounts(&written, 150);
    let plan = Processor::process_change_order_amounts(&PROGRAM, &second, 150, 300).unwrap();
    assert_eq!(plan, vec![Step::Store { account: 1, data: order(150, 300).serialize() }]);
}

#[test]
fn amounts_may_be_changed_to_the_extremes() {
    let accounts = amend_accounts(&order(100, 250), 0);
    let plan =
        Processor::process_change_order_amounts(&PROGRAM, &accounts, u64::MAX, 0).unwrap();
    assert_eq!(
        plan[0],
        Step::Invoke {
            instruction: transfer(MAKER_TOKENS, CUSTODY, MAKER, u64::MAX),
            accounts: vec![3, 2, 0, 4],
            signer_seeds: vec![],
        }
    );
    let accounts = amend_accounts(&order(100, 250), u64::MAX);
    let plan = Processor::process_change_order_amounts(&PROGRAM, &accounts, 0, 0).unwrap();
    assert_eq!(
        plan[0],
        Step::Invoke {
            instruction: transfer(CUSTODY, MAKER_TOKENS, order_key().0, u64::MAX),
            accounts: vec![2, 3, 1, 4],
            signer_seeds: signer_seeds(),
        }
    );
    assert_eq!(stored(&plan[1]), order(0, 0));
}

#[test]
fn settling_pays_both_legs_and_leaves_the_record() {
    let accounts = settle_accounts(&order(100, 250), 100);
    let plan = Processor::process_complete_swap(&PROGRAM, &accounts).unwrap();
    assert_eq!(
        plan,
        vec![
            Step::Invoke {
                instruction: transfer(TAKER_SENDING, MAKER_RECEIVING, TAKER, 250),
                accounts: vec![3, 2, 0, 6],
                signer_seeds: vec![],
            },
            Step::Invoke {
                instruction: transfer(CUSTODY, TAKER_RECEIVING, order_key().0, 100),
                accounts: vec![5, 4, 1, 6],
                signer_seeds: signer_seeds(),
            },
        ]
    );
}

#[test]
fn settling_needs_the_escrow_to_cover_the_maker_amount() {
    let short = settle_accounts(&order(100, 250), 99);
    assert_eq!(
        Processor::process_complete_swap(&PROGRAM, &short),
        Err(SwapError::InsufficientFunds)
    );
    let empty = settle_accounts(&order(100, 250), 0);
    assert_eq!(
        Processor::process_complete_swap(&PROGRAM, &empty),
        Err(SwapError::InsufficientFunds)
    );
    // more than enough is enough: only the maker amount leaves custody
    let plenty = settle_accounts(&order(100, 250), 101);
    let plan = Processor::process_complete_swap(&PROGRAM, &plenty).unwrap();
    assert_eq!(plan.len(), 2);
    match &plan[1] {
        Step::Invoke { instruction, .. } => {
            assert_eq!(instruction.data, vec![3, 100, 0, 0, 0, 0, 0, 0, 0])
        },
        other => panic!("not an invocation: {:?}", other),
    }
}

#[test]
fn settling_checks_all_four_token_accounts() {
    let record = order(100, 250);
    let good = settle_accounts(&record, 100);

    let mut wrong = good.clone();
    wrong[2] = tokens(MAKER_RECEIVING, TAKER_MINT, TAKER, 0);
    assert_eq!(
        Processor::process_complete_swap(&PROGRAM, &wrong),
        Err(SwapError::AccountOwnerMismatch)
    );
    let mut wrong = good.clone();
    wrong[2] = tokens(MAKER_RECEIVING, MAKER_MINT, MAKER, 0);
    assert_eq!(
        Processor::process_complete_swap(&PROGRAM, &wrong),
        Err(SwapError::AssetDescriptorMismatch)
    );
    let mut wrong = good.clone();
    wrong[3] = tokens(TAKER_SENDING, TAKER_MINT, MAKER, 5_000);
    assert_eq!(
        Processor::process_complete_swap(&PROGRAM, &wrong),
        Err(SwapError::AccountOwnerMismatch)
    );
    let mut wrong = good.clone();
    wrong[4] = tokens(TAKER_RECEIVING, TAKER_MINT, TAKER, 0);
    assert_eq!(
        Processor::process_complete_swap(&PROGRAM, &wrong),
        Err(SwapError::AssetDescriptorMismatch)
    );
    let mut wrong = good.clone();
    wrong[5] = tokens(CUSTODY, MAKER_MINT, MAKER, 100);
    assert_eq!(
        Processor::process_complete_swap(&PROGRAM, &wrong),
        Err(SwapError::AccountOwnerMismatch)
    );
    let mut wrong = good.clone();
    wrong[6].key = PROGRAM;
    assert_eq!(
        Processor::process_complete_swap(&PROGRAM, &wrong),
        Err(SwapError::IncorrectProgramId)
    );
}

#[test]
fn closing_refunds_what_custody_holds_and_removes_the_order() {
    let accounts = close_accounts(&order(100, 250), 70);
    let plan = Processor::process_close_order(&PROGRAM, &accounts).unwrap();
    assert_eq!(
        plan,
        vec![
            Step::Invoke {
                instruction: transfer(CUSTODY, MAKER_TOKENS, order_key().0, 70),
                accounts: vec![2, 3, 1, 4],
                signer_seeds: signer_seeds(),
            },
            close_custody(),
            Step::Reclaim { account: 1, recipient: 0 },
        ]
    );
}

fn close_custody() -> Step {
    Step::Invoke {
        instruction: Instruction {
            program_id: token_program(),
            accounts: vec![
                AccountMeta { pubkey: CUSTODY, is_signer: false, is_writable: true },
                AccountMeta { pubkey: MAKER, is_signer: false, is_writable: true },
                AccountMeta { pubkey: order_key().0, is_signer: true, is_writable: false },
            ],
            data: vec![9],
        },
        accounts: vec![2, 0, 1, 4],
        signer_seeds: signer_seeds(),
    }
}

#[test]
fn closing_an_order_with_empty_custody_still_closes_custody() {
    let accounts = close_accounts(&order(100, 250), 0);
    let plan = Processor::process_close_order(&PROGRAM, &accounts).unwrap();
    assert_eq!(plan, vec![close_custody(), Step::Reclaim { account: 1, recipient: 0 }]);
}

#[test]
fn closing_checks_custody_and_the_makers_account() {
    let good = close_accounts(&order(100, 250), 70);
    let mut wrong = good.clone();
    wrong[2] = tokens(CUSTODY, MAKER_MINT, MAKER, 70);
    assert_eq!(
        Processor::process_close_order(&PROGRAM, &wrong),
        Err(SwapError::AccountOwnerMismatch)
    );
    let mut wrong = good.clone();
    wrong[3] = tokens(MAKER_TOKENS, MAKER_MINT, TAKER, 0);
    assert_eq!(
        Processor::process_close_order(&PROGRAM, &wrong),
        Err(SwapError::AccountOwnerMismatch)
    );
    let mut wrong = good.clone();
    wrong[3] = tokens(MAKER_TOKENS, TAKER_MINT, MAKER, 0);
    assert_eq!(
        Processor::process_close_order(&PROGRAM, &wrong),
        Err(SwapError::AssetDescriptorMismatch)
    );
}

#[test]
fn naming_another_taker_writes_the_taker() {
    let new_taker = Pubkey([42; 32]);
    let accounts = reassign_accounts(&order(100, 250), new_taker);
    let plan = Processor::process_change_taker(&PROGRAM, &accounts, new_taker.0).unwrap();
    let mut expected = order(100, 250);
    expected.taker = new_taker;
    assert_eq!(plan, vec![Step::Store { account: 1, data: expected.serialize() }]);
}

#[test]
fn naming_a_taker_other_than_the_account_supplied_is_refused() {
    let accounts = reassign_accounts(&order(100, 250), Pubkey([42; 32]));
    assert_eq!(
        Processor::process_change_taker(&PROGRAM, &accounts, [43; 32]),
        Err(SwapError::InvalidArgument)
    );
    let mut nearly = [42; 32];
    nearly[31] = 41;
    assert_eq!(
        Processor::process_change_taker(&PROGRAM, &accounts, nearly),
        Err(SwapError::InvalidArgument)
    );
}

#[test]
fn only_the_maker_may_change_or_close_an_order() {
    let record = order(100, 250);
    let mut amend = amend_accounts(&record, 100);
    amend[0] = plain(TAKER, true);
    assert_eq!(
        Processor::process_change_order_amounts(&PROGRAM, &amend, 150, 300),
        Err(SwapError::AuthorityMismatch)
    );
    let mut close = close_accounts(&record, 100);
    close[0] = plain(TAKER, true);
    assert_eq!(Processor::process_close_order(&PROGRAM, &close), Err(SwapError::AuthorityMismatch));
    let mut reassign = reassign_accounts(&record, Pubkey([42; 32]));
    reassign[0] = plain(TAKER, true);
    assert_eq!(
        Processor::process_change_taker(&PROGRAM, &reassign, [42; 32]),
        Err(SwapError::AuthorityMismatch)
    );
    // the mismatch comes before the argument is looked at
    assert_eq!(
        Processor::process_change_taker(&PROGRAM, &reassign, [43; 32]),
        Err(SwapError::AuthorityMismatch)
    );
}

#[test]
fn only_the_taker_may_settle_an_order() {
    let mut accounts = settle_accounts(&order(100, 250), 100);
    accounts[0] = plain(MAKER, true);
    assert_eq!(
        Processor::process_complete_swap(&PROGRAM, &accounts),
        Err(SwapError::CounterpartyMismatch)
    );
    accounts[0] = plain(Pubkey([77; 32]), true);
    assert_eq!(
        Processor::process_complete_swap(&PROGRAM, &accounts),
        Err(SwapError::CounterpartyMismatch)
    );
}

#[test]
fn the_caller_has_to_sign() {
    let record = order(100, 250);
    let refused = Err(SwapError::MissingSigner);
    let mut amend = amend_accounts(&record, 100);
    amend[0].is_signer = false;
    assert_eq!(Processor::process_change_order_amounts(&PROGRAM, &amend, 150, 300), refused);
    let mut close = close_accounts(&record, 100);
    close[0].is_signer = false;
    assert_eq!(Processor::process_close_order(&PROGRAM, &close), refused);
    let mut reassign = reassign_accounts(&record, Pubkey([42; 32]));
    reassign[0].is_signer = false;
    assert_eq!(Processor::process_change_taker(&PROGRAM, &reassign, [42; 32]), refused);
    let mut settle = settle_accounts(&record, 100);
    settle[0].is_signer = false;
    assert_eq!(Processor::process_complete_swap(&PROGRAM, &settle), refused);
}

#[test]
fn an_order_account_at_another_address_is_refused() {
    let record = order(100, 250);
    let refused = Err(SwapError::AddressMismatch);

    let mut forged = amend_accounts(&record, 100);
    forged[1].key = Pubkey([66; 32]);
    assert_eq!(Processor::process_change_order_amounts(&PROGRAM, &forged, 150, 300), refused);
    assert_eq!(Processor::process_close_order(&PROGRAM, &forged), refused);

    let mut forged = settle_accounts(&record, 100);
    forged[1].key = Pubkey([66; 32]);
    assert_eq!(Processor::process_complete_swap(&PROGRAM, &forged), refused);

    // the right address for this program is the wrong one for another
    let accounts = settle_accounts(&record, 100);
    assert_eq!(Processor::process_complete_swap(&Pubkey([98; 32]), &accounts), refused);

    let mut forged = reassign_accounts(&record, Pubkey([42; 32]));
    forged[1].key = Pubkey([66; 32]);
    assert_eq!(Processor::process_change_taker(&PROGRAM, &forged, [42; 32]), refused);
    // a record that names the caller as maker, at the address of another order
    let mut forged_record = record;
    forged_record.maker = TAKER;
    let mut forged = reassign_accounts(&forged_record, Pubkey([42; 32]));
    forged[0] = plain(TAKER, true);
    assert_eq!(Processor::process_change_taker(&PROGRAM, &forged, [42; 32]), refused);
    assert_eq!(Processor::process_change_taker(&Pubkey([98; 32]), &forged, [42; 32]), refused);

    // a record with another maker does not belong at this address
    let mut other = record;
    other.maker = TAKER;
    let mut forged = amend_accounts(&other, 100);
    forged[0] = plain(TAKER, true);
    assert_eq!(Processor::process_change_order_amounts(&PROGRAM, &forged, 150, 300), refused);
}

#[test]
fn an_order_account_without_a_record_is_refused() {
    let record = order(100, 250);
    let refused = Err(SwapError::InvalidAccountData);
    let mut empty = amend_accounts(&record, 100);
    empty[1].data = vec![];
    assert_eq!(Processor::process_change_order_amounts(&PROGRAM, &empty, 150, 300), refused);
    assert_eq!(Processor::process_close_order(&PROGRAM, &empty), refused);
    let mut long = reassign_accounts(&record, Pubkey([42; 32]));
    long[1].data.push(0);
    assert_eq!(Processor::process_change_taker(&PROGRAM, &long, [42; 32]), refused);
    let mut short = settle_accounts(&record, 100);
    short[1].data.pop();
    assert_eq!(Processor::process_complete_swap(&PROGRAM, &short), refused);
}

#[test]
fn every_transition_needs_its_accounts() {
    let record = order(100, 250);
    let refused = Err(SwapError::NotEnoughAccountKeys);
    assert_eq!(Processor::process_initialize_order(&PROGRAM, &[], 100, 250), refused);
    assert_eq!(
        Processor::process_change_order_amounts(
            &PROGRAM,
            &amend_accounts(&record, 100)[..4],
            150,
            300
        ),
        refused
    );
    assert_eq!(
        Processor::process_change_taker(&PROGRAM, &reassign_accounts(&record, TAKER)[..2], TAKER.0),
        refused
    );
    assert_eq!(
        Processor::process_complete_swap(&PROGRAM, &settle_accounts(&record, 100)[..6]),
        refused
    );
    assert_eq!(
        Processor::process_close_order(&PROGRAM, &close_accounts(&record, 100)[..4]),
        refused
    );
}

#[test]
fn a_request_goes_to_the_transition_it_names() {
    let record = order(100, 250);

    let create = SwapInstruction::InitializeOrder { maker_amount: 100, taker_amount: 250 };
    assert_eq!(
        Processor::process(&PROGRAM, &create_accounts(), &create.serialize()),
        Processor::process_initialize_order(&PROGRAM, &create_accounts(), 100, 250)
    );
    let amend = SwapInstruction::ChangeOrderAmounts { new_maker_amount: 150, new_taker_amount: 3 };
    assert_eq!(
        Processor::process(&PROGRAM, &amend_accounts(&record, 100), &amend.serialize())
            .unwrap()
            .len(),
        2
    );
    let reassign = SwapInstruction::ChangeTaker { new_taker: [42; 32] };
    let plan = Processor::process(
        &PROGRAM,
        &reassign_accounts(&record, Pubkey([42; 32])),
        &reassign.serialize(),
    )
    .unwrap();
    assert_eq!(stored(&plan[0]).taker, Pubkey([42; 32]));
    assert_eq!(
        Processor::process(&PROGRAM, &settle_accounts(&record, 100), &[3]).unwrap().len(),
        2
    );
    assert_eq!(
        Processor::process(&PROGRAM, &close_accounts(&record, 0), &[4]),
        Ok(vec![close_custody(), Step::Reclaim { account: 1, recipient: 0 }])
    );
}

#[test]
fn a_payload_that_is_no_request_is_refused() {
    let accounts = create_accounts();
    let refused = Err(SwapError::MalformedRequest);
    assert_eq!(Processor::process(&PROGRAM, &accounts, &[]), refused);
    assert_eq!(Processor::process(&PROGRAM, &accounts, &[9]), refused);
    assert_eq!(Processor::process(&PROGRAM, &accounts, &[0, 1, 2]), refused);
    assert_eq!(Processor::process(&PROGRAM, &accounts, &[4, 0]), refused);
}

#[test]
fn opening_an_order_is_planned_from_the_bump_and_the_rent_it_is_given() {
    let list = create_accounts();
    let accounts = InitializeOrderAccounts::parse(&list).unwrap();
    let plan = Processor::open_order(&PROGRAM, &accounts, 100, 250, 7, 12_345).unwrap();
    assert_eq!(plan.len(), 3);
    match &plan[0] {
        Step::Invoke { instruction, accounts, signer_seeds } => {
            assert_eq!(&instruction.data[4..12], &12_345u64.to_le_bytes());
            assert_eq!(accounts, &vec![0, 1, 7]);
            assert_eq!(signer_seeds[4], vec![7]);
        },
        other => panic!("not an invocation: {:?}", other),
    }
    let mut expected = order(100, 250);
    expected.bump = 7;
    assert_eq!(stored(&plan[2]), expected);

    let mut no_token_program = create_accounts();
    no_token_program[9].key = MAKER;
    let accounts = InitializeOrderAccounts::parse(&no_token_program).unwrap();
    assert_eq!(
        Processor::open_order(&PROGRAM, &accounts, 100, 250, 7, 12_345),
        Err(SwapError::IncorrectProgramId)
    );
    let mut no_mint = create_accounts();
    no_mint[9].key = Pubkey(TOKEN_2022_PROGRAM_ID);
    no_mint[5].data = vec![];
    let accounts = InitializeOrderAccounts::parse(&no_mint).unwrap();
    assert_eq!(
        Processor::open_order(&PROGRAM, &accounts, 100, 250, 7, 12_345),
        Err(SwapError::InvalidAccountData)
    );
}

#[test]
fn accounts_are_taken_from_the_list_in_the_order_of_the_request() {
    let list = create_accounts();
    let accounts = InitializeOrderAccounts::parse(&list).unwrap();
    assert_eq!(accounts.maker.key, MAKER);
    assert_eq!(accounts.order.key, order_key().0);
    assert_eq!(accounts.maker_tokens.key, MAKER_TOKENS);
    assert_eq!(accounts.custody.key, CUSTODY);
    assert_eq!(accounts.taker.key, TAKER);
    assert_eq!(accounts.maker_mint.key, MAKER_MINT);
    assert_eq!(accounts.taker_mint.key, TAKER_MINT);
    assert_eq!(accounts.system_program.key, Pubkey(SYSTEM_PROGRAM_ID));
    assert_eq!(accounts.rent.key, Pubkey(RENT_SYSVAR_ID));
    assert_eq!(accounts.token_program.key, token_program());
    assert!(InitializeOrderAccounts::parse(&list[..9]).is_err());

    let list = settle_accounts(&order(100, 250), 100);
    let accounts = CompleteSwapAccounts::parse(&list).unwrap();
    assert_eq!(accounts.taker.key, TAKER);
    assert_eq!(accounts.maker_receiving.key, MAKER_RECEIVING);
    assert_eq!(accounts.taker_sending.key, TAKER_SENDING);
    assert_eq!(accounts.taker_receiving.key, TAKER_RECEIVING);
    assert_eq!(accounts.custody.key, CUSTODY);
    // more accounts than the request names do no harm
    let mut longer = list.clone();
    longer.push(plain(MAKER, false));
    assert!(CompleteSwapAccounts::parse(&longer).is_ok());
}

#[test]
fn an_authenticated_order_is_all_a_transition_reads_of_the_order_account() {
    // the order-level transitions take the record they are given, whatever
    // the order account holds
    let record = order(100, 250);
    let mut list = amend_accounts(&record, 100);
    list[1].data = vec![];
    let accounts = ChangeOrderAmountsAccounts::parse(&list).unwrap();
    let plan = Processor::amend_order(&accounts, &record, 150, 300).unwrap();
    assert_eq!(plan.len(), 2);
    assert_eq!(stored(&plan[1]), order(150, 300));

    let accounts = CloseOrderAccounts::parse(&list).unwrap();
    assert_eq!(Processor::retire_order(&accounts, &record).unwrap().len(), 3);

    let mut list = reassign_accounts(&record, Pubkey([42; 32]));
    list[1].data = vec![];
    let accounts = ChangeTakerAccounts::parse(&list).unwrap();
    let plan = Processor::reassign_order(&accounts, &record, [42; 32]).unwrap();
    assert_eq!(stored(&plan[0]).taker, Pubkey([42; 32]));
    assert_eq!(
        Processor::reassign_order(&accounts, &record, [43; 32]),
        Err(SwapError::InvalidArgument)
    );

    let mut list = settle_accounts(&record, 100);
    list[1].data = vec![];
    let accounts = CompleteSwapAccounts::parse(&list).unwrap();
    assert_eq!(Processor::settle_order(&accounts, &record).unwrap().len(), 2);
    let mut richer = record;
    richer.maker_amount = 101;
    assert_eq!(Processor::settle_order(&accounts, &richer), Err(SwapError::InsufficientFunds));
}
