//! What the escrow reads from the token programs: which programs they are,
//! and the state they keep in token accounts and mints.

use vstd::prelude::*;
use vstd::bytes::spec_u64_from_le_bytes;
use solana_program::program_pack::Pack;
use crate::pubkey::{Pubkey, TOKEN_2022_PROGRAM_ID, TOKEN_PROGRAM_ID};

verus! {

/// Number of bytes of a token account.
pub const TOKEN_ACCOUNT_LEN: usize = 165;

/// Number of bytes of a mint.
pub const MINT_LEN: usize = 82;

/// What the escrow reads from a token account.
#[derive(Clone, Copy, Debug, PartialEq, Eq)]
pub struct TokenAccount {
    /// Mint of the token the account holds.
    pub mint: Pubkey,
    /// Who may move the tokens.
    pub owner: Pubkey,
    /// How many tokens the account holds.
    pub amount: u64,
}

/// Whether the four bytes at `at` are the tag of an optional field: the
/// number 0 or 1, little-endian.
pub open spec fn is_option_tag(data: Seq<u8>, at: int) -> bool {
    &&& data[at] == 0 || data[at] == 1
    &&& data[at + 1] == 0
    &&& data[at + 2] == 0
    &&& data[at + 3] == 0
}

/// Whether `data` is the state of an initialized token account: of the right
/// length, its state byte (at 108) initialized or frozen, and the tags of its
/// three optional fields (delegate at 72, native reserve at 109, close
/// authority at 129) well formed.
pub open spec fn is_token_account(data: Seq<u8>) -> bool {
    &&& data.len() == TOKEN_ACCOUNT_LEN
    &&& is_option_tag(data, 72)
    &&& data[108] == 1 || data[108] == 2
    &&& is_option_tag(data, 109)
    &&& is_option_tag(data, 129)
}

/// Whether `data` is the state of an initialized mint: of the right length,
/// its initialized byte (at 45) set, and the tags of its two optional
/// authorities (at 0 and at 46) well formed.
pub open spec fn is_mint(data: Seq<u8>) -> bool {
    &&& data.len() == MINT_LEN
    &&& is_option_tag(data, 0)
    &&& data[45] == 1
    &&& is_option_tag(data, 46)
}

/// The mint recorded in token account state.
pub open spec fn token_mint(data: Seq<u8>) -> Seq<u8> {
    data.subrange(0, 32)
}

/// The owner recorded in token account state.
pub open spec fn token_owner(data: Seq<u8>) -> Seq<u8> {
    data.subrange(32, 64)
}

/// The balance recorded in token account state.
pub open spec fn token_amount(data: Seq<u8>) -> u64 {
    spec_u64_from_le_bytes(data.subrange(64, 72))
}

/// The number of decimals recorded in mint state.
pub open spec fn mint_decimals(data: Seq<u8>) -> u8 {
    data[44]
}

/// Whether `key` is one of the two token programs.
pub open spec fn is_token_program(key: Pubkey) -> bool {
    key.0 == TOKEN_PROGRAM_ID || key.0 == TOKEN_2022_PROGRAM_ID
}

/// `spl_token::id`: the address of the plain token program. Trusted to be
/// the bytes of `TOKEN_PROGRAM_ID`.
#[verifier::external_body]
pub(crate) fn spl_token_id() -> (id: Pubkey)
    ensures
        id.0 == TOKEN_PROGRAM_ID,
{
    Pubkey(spl_token::id().to_bytes())
}

/// `spl_token_2022::check_spl_token_program_account`: trusted to accept
/// exactly the addresses of the two token programs.
#[verifier::external_body]
pub(crate) fn check_spl_token_program_account(key: &Pubkey) -> (ok: bool)
    ensures
        ok == is_token_program(*key),
{
    spl_token_2022::check_spl_token_program_account(&key.0.into()).is_ok()
}

/// `spl_token::state::Account::unpack`: trusted to succeed exactly on the
/// state of an initialized token account, and then to read the mint from the
/// first 32 bytes, the owner from the next 32 and the balance, little-endian,
/// from the 8 after them.
#[verifier::external_body]
pub(crate) fn unpack_token_account(data: &[u8]) -> (r: Option<TokenAccount>)
    ensures
        r is Some <==> is_token_account(data@),
        r matches Some(account) ==> {
            &&& account.mint@ == token_mint(data@)
            &&& account.owner@ == token_owner(data@)
            &&& account.amount == token_amount(data@)
        },
{
    spl_token::state::Account::unpack(data).ok().map(
        |account|
            TokenAccount {
                mint: Pubkey(account.mint.to_bytes()),
                owner: Pubkey(account.owner.to_bytes()),
                amount: account.amount,
            },
    )
}

/// `spl_token_2022::state::Mint::unpack`: trusted to succeed exactly on the
/// state of an initialized mint, and then to read the number of decimals
/// from byte 44.
#[verifier::external_body]
pub(crate) fn unpack_mint_decimals(data: &[u8]) -> (r: Option<u8>)
    ensures
        r is Some <==> is_mint(data@),
        r matches Some(decimals) ==> decimals == mint_decimals(data@),
{
    spl_token_2022::state::Mint::unpack(data).ok().map(|mint| mint.decimals)
}

} // verus!
