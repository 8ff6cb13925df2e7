//! The instructions the escrow hands to other programs, and the steps that
//! make up the plan of a request.

use vstd::prelude::*;
use vstd::bytes::spec_u64_to_le_bytes;
use crate::pubkey::{Pubkey, SYSTEM_PROGRAM_ID, TOKEN_PROGRAM_ID};
use crate::token::is_token_program;

verus! {

/// An account an instruction touches, and how.
#[derive(Clone, Copy, Debug, PartialEq, Eq)]
pub struct AccountMeta {
    /// Address of the account.
    pub pubkey: Pubkey,
    /// Whether the account has to sign.
    pub is_signer: bool,
    /// Whether the instruction may change the account.
    pub is_writable: bool,
}

/// An instruction for another program.
#[derive(Clone, Debug, PartialEq, Eq)]
pub struct Instruction {
    /// The program that executes the instruction.
    pub program_id: Pubkey,
    /// The accounts it touches.
    pub accounts: Vec<AccountMeta>,
    /// Its payload.
    pub data: Vec<u8>,
}

/// An instruction as a mathematical value.
pub struct InstructionView {
    pub program_id: Pubkey,
    pub accounts: Seq<AccountMeta>,
    pub data: Seq<u8>,
}

impl AccountMeta {
    /// The entry for the account at the address `pubkey`.
    pub fn new(pubkey: [u8; 32], is_signer: bool, is_writable: bool) -> (meta: AccountMeta)
        ensures
            meta == (AccountMeta { pubkey: Pubkey(pubkey), is_signer, is_writable }),
    {
        AccountMeta { pubkey: Pubkey(pubkey), is_signer, is_writable }
    }
}

impl Instruction {
    /// The instruction for the program at the address `program_id`.
    pub fn new(program_id: [u8; 32], accounts: Vec<AccountMeta>, data: Vec<u8>) -> (instruction:
        Instruction)
        ensures
            instruction == (Instruction { program_id: Pubkey(program_id), accounts, data }),
    {
        Instruction { program_id: Pubkey(program_id), accounts, data }
    }
}

impl View for Instruction {
    type V = InstructionView;

    open spec fn view(&self) -> InstructionView {
        InstructionView { program_id: self.program_id, accounts: self.accounts@, data: self.data@ }
    }
}

/// One thing the runtime has to do to carry out a request. The steps of a
/// plan are carried out in order, and all of them or none. What the steps
/// that write and reclaim do to the accounts is stated in the ledger, as
/// `carried_out`.
#[derive(Clone, Debug, PartialEq, Eq)]
pub enum Step {
    /// Invoke `instruction`, passing the accounts at the indices `accounts`
    /// of the request's account list. Where `signer_seeds` is not empty the
    /// invocation is signed for the address derived from these seeds.
    Invoke { instruction: Instruction, accounts: Vec<usize>, signer_seeds: Vec<Vec<u8>> },
    /// Write `data` at the start of the data of the account at index
    /// `account`.
    Store { account: usize, data: Vec<u8> },
    /// Move all lamports of the account at index `account` to the one at
    /// index `recipient`, and fill the data of the former with zeroes.
    Reclaim { account: usize, recipient: usize },
}

/// A step as a mathematical value.
pub enum StepView {
    Invoke { instruction: InstructionView, accounts: Seq<usize>, signer_seeds: Seq<Seq<u8>> },
    Store { account: usize, data: Seq<u8> },
    Reclaim { account: usize, recipient: usize },
}

impl View for Step {
    type V = StepView;

    open spec fn view(&self) -> StepView {
        match *self {
            Step::Invoke { instruction, accounts, signer_seeds } => StepView::Invoke {
                instruction: instruction@,
                accounts: accounts@,
                signer_seeds: signer_seeds.deep_view(),
            },
            Step::Store { account, data } => StepView::Store { account, data: data@ },
            Step::Reclaim { account, recipient } => StepView::Reclaim { account, recipient },
        }
    }
}

/// A plan as a mathematical value.
pub open spec fn plan_view(plan: Seq<Step>) -> Seq<StepView> {
    plan.map_values(|step: Step| step@)
}

/// A step that invokes `instruction` on the request's own signatures.
pub open spec fn invoke_step(instruction: InstructionView, accounts: Seq<usize>) -> StepView {
    StepView::Invoke { instruction, accounts, signer_seeds: Seq::empty() }
}

/// A step that invokes `instruction` signed for the address derived from
/// `signer_seeds`.
pub open spec fn invoke_signed_step(
    instruction: InstructionView,
    accounts: Seq<usize>,
    signer_seeds: Seq<Seq<u8>>,
) -> StepView {
    StepView::Invoke { instruction, accounts, signer_seeds }
}

/// The indices of three accounts of the request.
pub(crate) fn indices3(a: usize, b: usize, c: usize) -> (indices: Vec<usize>)
    ensures
        indices@ == seq![a, b, c],
{
    let mut indices: Vec<usize> = Vec::new();
    indices.push(a);
    indices.push(b);
    indices.push(c);
    assert(indices@ =~= seq![a, b, c]);
    indices
}

/// The indices of four accounts of the request.
pub(crate) fn indices4(a: usize, b: usize, c: usize, d: usize) -> (indices: Vec<usize>)
    ensures
        indices@ == seq![a, b, c, d],
{
    let mut indices: Vec<usize> = Vec::new();
    indices.push(a);
    indices.push(b);
    indices.push(c);
    indices.push(d);
    assert(indices@ =~= seq![a, b, c, d]);
    indices
}

/// The indices of five accounts of the request.
pub(crate) fn indices5(a: usize, b: usize, c: usize, d: usize, e: usize) -> (indices: Vec<usize>)
    ensures
        indices@ == seq![a, b, c, d, e],
{
    let mut indices: Vec<usize> = Vec::new();
    indices.push(a);
    indices.push(b);
    indices.push(c);
    indices.push(d);
    indices.push(e);
    assert(indices@ =~= seq![a, b, c, d, e]);
    indices
}

/// The step that invokes `instruction` on the request's own signatures.
pub fn invoke(instruction: Instruction, accounts: Vec<usize>) -> (step: Step)
    ensures
        step@ == invoke_step(instruction@, accounts@),
{
    let step = Step::Invoke { instruction, accounts, signer_seeds: Vec::new() };
    assert(step@->signer_seeds =~~= Seq::empty());
    step
}

/// The step that invokes `instruction` signed for the address derived from
/// `signer_seeds`.
pub fn invoke_signed(
    instruction: Instruction,
    accounts: Vec<usize>,
    signer_seeds: Vec<Vec<u8>>,
) -> (step: Step)
    ensures
        step@ == invoke_signed_step(instruction@, accounts@, signer_seeds.deep_view()),
{
    Step::Invoke { instruction, accounts, signer_seeds }
}

/// An account the instruction may change.
pub open spec fn writable(pubkey: Pubkey, is_signer: bool) -> AccountMeta {
    AccountMeta { pubkey, is_signer, is_writable: true }
}

/// An account the instruction only reads.
pub open spec fn readonly(pubkey: Pubkey, is_signer: bool) -> AccountMeta {
    AccountMeta { pubkey, is_signer, is_writable: false }
}

/// The token instruction that moves `amount` from `source` to `destination`
/// on the signature of `authority`.
pub open spec fn transfer_instruction(
    token_program: Pubkey,
    source: Pubkey,
    destination: Pubkey,
    authority: Pubkey,
    amount: u64,
) -> InstructionView {
    InstructionView {
        program_id: token_program,
        accounts: seq![
            writable(source, false),
            writable(destination, false),
            readonly(authority, true),
        ],
        data: seq![3u8] + spec_u64_to_le_bytes(amount),
    }
}

/// The token instruction that moves `amount` of the token of `mint`, which
/// has to count `decimals` decimals, from `source` to `destination` on the
/// signature of `authority`.
pub open spec fn transfer_checked_instruction(
    token_program: Pubkey,
    source: Pubkey,
    mint: Pubkey,
    destination: Pubkey,
    authority: Pubkey,
    amount: u64,
    decimals: u8,
) -> InstructionView {
    InstructionView {
        program_id: token_program,
        accounts: seq![
            writable(source, false),
            readonly(mint, false),
            writable(destination, false),
            readonly(authority, true),
        ],
        data: seq![12u8] + spec_u64_to_le_bytes(amount) + seq![decimals],
    }
}

/// The token instruction that closes the empty token account `account` on
/// the signature of `owner` and sends its lamports to `destination`.
pub open spec fn close_account_instruction(
    token_program: Pubkey,
    account: Pubkey,
    destination: Pubkey,
    owner: Pubkey,
) -> InstructionView {
    InstructionView {
        program_id: token_program,
        accounts: seq![
            writable(account, false),
            writable(destination, false),
            readonly(owner, true),
        ],
        data: seq![9u8],
    }
}

/// The payload of the system instruction that creates an account: the
/// number 0 in four bytes, which says what the instruction is, then the
/// lamports and the space, each in eight bytes little-endian, then the 32
/// bytes of the owner.
pub open spec fn create_account_data(lamports: u64, space: u64, owner: Seq<u8>) -> Seq<u8> {
    seq![0u8, 0u8, 0u8, 0u8] + spec_u64_to_le_bytes(lamports) + spec_u64_to_le_bytes(space)
        + owner
}

/// The system instruction that creates the account `to` with `space` bytes
/// of data, owned by `owner` and funded with `lamports` from `from`.
pub open spec fn create_account_instruction(
    from: Pubkey,
    to: Pubkey,
    lamports: u64,
    space: u64,
    owner: Pubkey,
) -> InstructionView {
    InstructionView {
        program_id: Pubkey(SYSTEM_PROGRAM_ID),
        accounts: seq![writable(from, true), writable(to, true)],
        data: create_account_data(lamports, space, owner@),
    }
}

/// `solana_program::system_instruction::create_account`: trusted to address
/// the system program, to name `from` and `to` as writable signers, in this
/// order, and to carry the first kind of system instruction with its three
/// fields as `bincode` writes them, which is `create_account_data`.
#[verifier::external_body]
pub(crate) fn system_create_account(
    from: &Pubkey,
    to: &Pubkey,
    lamports: u64,
    space: u64,
    owner: &Pubkey,
) -> (instruction: Instruction)
    ensures
        instruction@ == create_account_instruction(*from, *to, lamports, space, *owner),
{
    let (from, to, owner) = (from.0.into(), to.0.into(), owner.0.into());
    let built = solana_program::system_instruction::create_account(
        &from, &to, lamports, space, &owner,
    );
    let accounts = built.accounts.iter().map(
        |meta| AccountMeta::new(meta.pubkey.to_bytes(), meta.is_signer, meta.is_writable),
    ).collect();
    Instruction::new(built.program_id.to_bytes(), accounts, built.data)
}

/// `spl_token::instruction::transfer`, with no multisignature signers:
/// trusted to succeed exactly for the plain token program, and then to build
/// the transfer instruction.
#[verifier::external_body]
pub(crate) fn spl_token_transfer(
    token_program: &Pubkey,
    source: &Pubkey,
    destination: &Pubkey,
    authority: &Pubkey,
    amount: u64,
) -> (r: Option<Instruction>)
    ensures
        r is Some <==> token_program.0 == TOKEN_PROGRAM_ID,
        r matches Some(instruction) ==> instruction@ == transfer_instruction(
            *token_program,
            *source,
            *destination,
            *authority,
            amount,
        ),
{
    let (program, source, destination) =
        (token_program.0.into(), source.0.into(), destination.0.into());
    let built = spl_token::instruction::transfer(
        &program, &source, &destination, &authority.0.into(), &[], amount,
    ).ok()?;
    let accounts = built.accounts.iter().map(
        |meta| AccountMeta::new(meta.pubkey.to_bytes(), meta.is_signer, meta.is_writable),
    ).collect();
    Some(Instruction::new(built.program_id.to_bytes(), accounts, built.data))
}

/// `spl_token::instruction::close_account`, with no multisignature signers:
/// trusted to succeed exactly for the plain token program, and then to build
/// the instruction that closes a token account.
#[verifier::external_body]
pub(crate) fn spl_token_close_account(
    token_program: &Pubkey,
    account: &Pubkey,
    destination: &Pubkey,
    owner: &Pubkey,
) -> (r: Option<Instruction>)
    ensures
        r is Some <==> token_program.0 == TOKEN_PROGRAM_ID,
        r matches Some(instruction) ==> instruction@ == close_account_instruction(
            *token_program,
            *account,
            *destination,
            *owner,
        ),
{
    let (program, account, destination) =
        (token_program.0.into(), account.0.into(), destination.0.into());
    let built = spl_token::instruction::close_account(
        &program, &account, &destination, &owner.0.into(), &[],
    ).ok()?;
    let accounts = built.accounts.iter().map(
        |meta| AccountMeta::new(meta.pubkey.to_bytes(), meta.is_signer, meta.is_writable),
    ).collect();
    Some(Instruction::new(built.program_id.to_bytes(), accounts, built.data))
}

/// `spl_token_2022::instruction::transfer`, with no multisignature signers:
/// trusted to succeed exactly for the two token programs, and then to build
/// the transfer instruction.
#[verifier::external_body]
#[allow(deprecated)]
pub(crate) fn spl_token_2022_transfer(
    token_program: &Pubkey,
    source: &Pubkey,
    destination: &Pubkey,
    authority: &Pubkey,
    amount: u64,
) -> (r: Option<Instruction>)
    ensures
        r is Some <==> is_token_program(*token_program),
        r matches Some(instruction) ==> instruction@ == transfer_instruction(
            *token_program,
            *source,
            *destination,
            *authority,
            amount,
        ),
{
    let (program, source, destination) =
        (token_program.0.into(), source.0.into(), destination.0.into());
    let built = spl_token_2022::instruction::transfer(
        &program, &source, &destination, &authority.0.into(), &[], amount,
    ).ok()?;
    let accounts = built.accounts.iter().map(
        |meta| AccountMeta::new(meta.pubkey.to_bytes(), meta.is_signer, meta.is_writable),
    ).collect();
    Some(Instruction::new(built.program_id.to_bytes(), accounts, built.data))
}

/// `spl_token_2022::instruction::transfer_checked`, with no multisignature
/// signers: trusted to succeed exactly for the two token programs, and then
/// to build the checked transfer instruction.
#[verifier::external_body]
pub(crate) fn spl_token_2022_transfer_checked(
    token_program: &Pubkey,
    source: &Pubkey,
    mint: &Pubkey,
    destination: &Pubkey,
    authority: &Pubkey,
    amount: u64,
    decimals: u8,
) -> (r: Option<Instruction>)
    ensures
        r is Some <==> is_token_program(*token_program),
        r matches Some(instruction) ==> instruction@ == transfer_checked_instruction(
            *token_program,
            *source,
            *mint,
            *destination,
            *authority,
            amount,
            decimals,
        ),
{
    let (program, source, mint) = (token_program.0.into(), source.0.into(), mint.0.into());
    let (destination, authority) = (destination.0.into(), authority.0.into());
    let built = spl_token_2022::instruction::transfer_checked(
        &program, &source, &mint, &destination, &authority, &[], amount, decimals,
    ).ok()?;
    let accounts = built.accounts.iter().map(
        |meta| AccountMeta::new(meta.pubkey.to_bytes(), meta.is_signer, meta.is_writable),
    ).collect();
    Some(Instruction::new(built.program_id.to_bytes(), accounts, built.data))
}

/// `spl_token_2022::instruction::close_account`, with no multisignature
/// signers: trusted to succeed exactly for the two token programs, and then
/// to build the instruction that closes a token account.
#[verifier::external_body]
pub(crate) fn spl_token_2022_close_account(
    token_program: &Pubkey,
    account: &Pubkey,
    destination: &Pubkey,
    owner: &Pubkey,
) -> (r: Option<Instruction>)
    ensures
        r is Some <==> is_token_program(*token_program),
        r matches Some(instruction) ==> instruction@ == close_account_instruction(
            *token_program,
            *account,
            *destination,
            *owner,
        ),
{
    let (program, account, destination) =
        (token_program.0.into(), account.0.into(), destination.0.into());
    let built = spl_token_2022::instruction::close_account(
        &program, &account, &destination, &owner.0.into(), &[],
    ).ok()?;
    let accounts = built.accounts.iter().map(
        |meta| AccountMeta::new(meta.pubkey.to_bytes(), meta.is_signer, meta.is_writable),
    ).collect();
    Some(Instruction::new(built.program_id.to_bytes(), accounts, built.data))
}

} // verus!
