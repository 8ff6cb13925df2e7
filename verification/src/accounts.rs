//! The accounts a request names, as the escrow sees them, and the part each
//! of them plays in each of the five requests.

use vstd::prelude::*;
use crate::error::SwapError;
use crate::pubkey::Pubkey;

verus! {

/// What the escrow reads of an account that a request names.
#[derive(Clone, Debug, PartialEq, Eq)]
pub struct AccountInfo {
    /// Address of the account.
    pub key: Pubkey,
    /// The program that owns the account.
    pub owner: Pubkey,
    /// Whether the account signed the request.
    pub is_signer: bool,
    /// The data the account holds.
    pub data: Vec<u8>,
}

/// The accounts of a request to open an order, in the order in which the
/// request names them.
#[derive(Clone, Copy, Debug)]
pub struct InitializeOrderAccounts<'a> {
    /// The maker, who signs and pays for the order account.
    pub maker: &'a AccountInfo,
    /// The order account, at the address derived for the order.
    pub order: &'a AccountInfo,
    /// The maker's token account, which the deposit comes from.
    pub maker_tokens: &'a AccountInfo,
    /// The token account that holds the escrow, owned by the order address.
    pub custody: &'a AccountInfo,
    /// Who may settle the order.
    pub taker: &'a AccountInfo,
    /// Mint of the token the maker gives.
    pub maker_mint: &'a AccountInfo,
    /// Mint of the token the maker wants.
    pub taker_mint: &'a AccountInfo,
    /// The system program, which creates the order account.
    pub system_program: &'a AccountInfo,
    /// The rent sysvar, which prices the order account.
    pub rent: &'a AccountInfo,
    /// The token program that moves the deposit.
    pub token_program: &'a AccountInfo,
}

impl<'a> InitializeOrderAccounts<'a> {
    // Where the request names each account.
    pub const MAKER: usize = 0;
    pub const ORDER: usize = 1;
    pub const MAKER_TOKENS: usize = 2;
    pub const CUSTODY: usize = 3;
    pub const TAKER: usize = 4;
    pub const MAKER_MINT: usize = 5;
    pub const TAKER_MINT: usize = 6;
    pub const SYSTEM_PROGRAM: usize = 7;
    pub const RENT: usize = 8;
    pub const TOKEN_PROGRAM: usize = 9;

    /// How many accounts the request names.
    pub const COUNT: usize = 10;

    /// The first accounts of the list, each in its part.
    pub open spec fn of(accounts: Seq<AccountInfo>) -> Self {
        InitializeOrderAccounts {
            maker: &accounts[Self::MAKER as int],
            order: &accounts[Self::ORDER as int],
            maker_tokens: &accounts[Self::MAKER_TOKENS as int],
            custody: &accounts[Self::CUSTODY as int],
            taker: &accounts[Self::TAKER as int],
            maker_mint: &accounts[Self::MAKER_MINT as int],
            taker_mint: &accounts[Self::TAKER_MINT as int],
            system_program: &accounts[Self::SYSTEM_PROGRAM as int],
            rent: &accounts[Self::RENT as int],
            token_program: &accounts[Self::TOKEN_PROGRAM as int],
        }
    }

    /// Takes the accounts of the request from the list. Fails with
    /// `NotEnoughAccountKeys` where the list is too short.
    pub fn parse(accounts: &'a [AccountInfo]) -> (r: Result<Self, SwapError>)
        ensures
            r == (if accounts@.len() < Self::COUNT {
                Err(SwapError::NotEnoughAccountKeys)
            } else {
                Ok(Self::of(accounts@))
            }),
    {
        if accounts.len() < Self::COUNT {
            return Err(SwapError::NotEnoughAccountKeys);
        }
        Ok(
            InitializeOrderAccounts {
                maker: &accounts[Self::MAKER],
                order: &accounts[Self::ORDER],
                maker_tokens: &accounts[Self::MAKER_TOKENS],
                custody: &accounts[Self::CUSTODY],
                taker: &accounts[Self::TAKER],
                maker_mint: &accounts[Self::MAKER_MINT],
                taker_mint: &accounts[Self::TAKER_MINT],
                system_program: &accounts[Self::SYSTEM_PROGRAM],
                rent: &accounts[Self::RENT],
                token_program: &accounts[Self::TOKEN_PROGRAM],
            },
        )
    }
}

/// The accounts of a request to change the amounts of an order, in the order in which the
/// request names them.
#[derive(Clone, Copy, Debug)]
pub struct ChangeOrderAmountsAccounts<'a> {
    /// The caller, who has to be the maker and to sign.
    pub maker: &'a AccountInfo,
    /// The order account.
    pub order: &'a AccountInfo,
    /// The token account that holds the escrow.
    pub custody: &'a AccountInfo,
    /// The maker's token account, which a deposit comes from and a refund goes to.
    pub maker_tokens: &'a AccountInfo,
    /// The token program that moves the difference.
    pub token_program: &'a AccountInfo,
}

impl<'a> ChangeOrderAmountsAccounts<'a> {
    // Where the request names each account.
    pub const MAKER: usize = 0;
    pub const ORDER: usize = 1;
    pub const CUSTODY: usize = 2;
    pub const MAKER_TOKENS: usize = 3;
    pub const TOKEN_PROGRAM: usize = 4;

    /// How many accounts the request names.
    pub const COUNT: usize = 5;

    /// The first accounts of the list, each in its part.
    pub open spec fn of(accounts: Seq<AccountInfo>) -> Self {
        ChangeOrderAmountsAccounts {
            maker: &accounts[Self::MAKER as int],
            order: &accounts[Self::ORDER as int],
            custody: &accounts[Self::CUSTODY as int],
            maker_tokens: &accounts[Self::MAKER_TOKENS as int],
            token_program: &accounts[Self::TOKEN_PROGRAM as int],
        }
    }

    /// Takes the accounts of the request from the list. Fails with
    /// `NotEnoughAccountKeys` where the list is too short.
    pub fn parse(accounts: &'a [AccountInfo]) -> (r: Result<Self, SwapError>)
        ensures
            r == (if accounts@.len() < Self::COUNT {
                Err(SwapError::NotEnoughAccountKeys)
            } else {
                Ok(Self::of(accounts@))
            }),
    {
        if accounts.len() < Self::COUNT {
            return Err(SwapError::NotEnoughAccountKeys);
        }
        Ok(
            ChangeOrderAmountsAccounts {
                maker: &accounts[Self::MAKER],
                order: &accounts[Self::ORDER],
                custody: &accounts[Self::CUSTODY],
                maker_tokens: &accounts[Self::MAKER_TOKENS],
                token_program: &accounts[Self::TOKEN_PROGRAM],
            },
        )
    }
}

/// The accounts of a request to name another taker, in the order in which the
/// request names them.
#[derive(Clone, Copy, Debug)]
pub struct ChangeTakerAccounts<'a> {
    /// The caller, who has to be the maker and to sign.
    pub maker: &'a AccountInfo,
    /// The order account.
    pub order: &'a AccountInfo,
    /// The account of the taker that the request names.
    pub new_taker: &'a AccountInfo,
}

impl<'a> ChangeTakerAccounts<'a> {
    // Where the request names each account.
    pub const MAKER: usize = 0;
    pub const ORDER: usize = 1;
    pub const NEW_TAKER: usize = 2;

    /// How many accounts the request names.
    pub const COUNT: usize = 3;

    /// The first accounts of the list, each in its part.
    pub open spec fn of(accounts: Seq<AccountInfo>) -> Self {
        ChangeTakerAccounts {
            maker: &accounts[Self::MAKER as int],
            order: &accounts[Self::ORDER as int],
            new_taker: &accounts[Self::NEW_TAKER as int],
        }
    }

    /// Takes the accounts of the request from the list. Fails with
    /// `NotEnoughAccountKeys` where the list is too short.
    pub fn parse(accounts: &'a [AccountInfo]) -> (r: Result<Self, SwapError>)
        ensures
            r == (if accounts@.len() < Self::COUNT {
                Err(SwapError::NotEnoughAccountKeys)
            } else {
                Ok(Self::of(accounts@))
            }),
    {
        if accounts.len() < Self::COUNT {
            return Err(SwapError::NotEnoughAccountKeys);
        }
        Ok(
            ChangeTakerAccounts {
                maker: &accounts[Self::MAKER],
                order: &accounts[Self::ORDER],
                new_taker: &accounts[Self::NEW_TAKER],
            },
        )
    }
}

/// The accounts of a request to settle an order, in the order in which the
/// request names them.
#[derive(Clone, Copy, Debug)]
pub struct CompleteSwapAccounts<'a> {
    /// The caller, who has to be the taker and to sign.
    pub taker: &'a AccountInfo,
    /// The order account.
    pub order: &'a AccountInfo,
    /// The maker's account for the token the taker pays.
    pub maker_receiving: &'a AccountInfo,
    /// The taker's account for the token the taker pays.
    pub taker_sending: &'a AccountInfo,
    /// The taker's account for the token the maker gives.
    pub taker_receiving: &'a AccountInfo,
    /// The token account that holds the escrow.
    pub custody: &'a AccountInfo,
    /// The token program that moves both legs.
    pub token_program: &'a AccountInfo,
}

impl<'a> CompleteSwapAccounts<'a> {
    // Where the request names each account.
    pub const TAKER: usize = 0;
    pub const ORDER: usize = 1;
    pub const MAKER_RECEIVING: usize = 2;
    pub const TAKER_SENDING: usize = 3;
    pub const TAKER_RECEIVING: usize = 4;
    pub const CUSTODY: usize = 5;
    pub const TOKEN_PROGRAM: usize = 6;

    /// How many accounts the request names.
    pub const COUNT: usize = 7;

    /// The first accounts of the list, each in its part.
    pub open spec fn of(accounts: Seq<AccountInfo>) -> Self {
        CompleteSwapAccounts {
            taker: &accounts[Self::TAKER as int],
            order: &accounts[Self::ORDER as int],
            maker_receiving: &accounts[Self::MAKER_RECEIVING as int],
            taker_sending: &accounts[Self::TAKER_SENDING as int],
            taker_receiving: &accounts[Self::TAKER_RECEIVING as int],
            custody: &accounts[Self::CUSTODY as int],
            token_program: &accounts[Self::TOKEN_PROGRAM as int],
        }
    }

    /// Takes the accounts of the request from the list. Fails with
    /// `NotEnoughAccountKeys` where the list is too short.
    pub fn parse(accounts: &'a [AccountInfo]) -> (r: Result<Self, SwapError>)
        ensures
            r == (if accounts@.len() < Self::COUNT {
                Err(SwapError::NotEnoughAccountKeys)
            } else {
                Ok(Self::of(accounts@))
            }),
    {
        if accounts.len() < Self::COUNT {
            return Err(SwapError::NotEnoughAccountKeys);
        }
        Ok(
            CompleteSwapAccounts {
                taker: &accounts[Self::TAKER],
                order: &accounts[Self::ORDER],
                maker_receiving: &accounts[Self::MAKER_RECEIVING],
                taker_sending: &accounts[Self::TAKER_SENDING],
                taker_receiving: &accounts[Self::TAKER_RECEIVING],
                custody: &accounts[Self::CUSTODY],
                token_program: &accounts[Self::TOKEN_PROGRAM],
            },
        )
    }
}

/// The accounts of a request to close an order, in the order in which the
/// request names them.
#[derive(Clone, Copy, Debug)]
pub struct CloseOrderAccounts<'a> {
    /// The caller, who has to be the maker and to sign.
    pub authority: &'a AccountInfo,
    /// The order account.
    pub order: &'a AccountInfo,
    /// The token account that holds the escrow.
    pub custody: &'a AccountInfo,
    /// The maker's token account, which the refund goes to.
    pub maker_tokens: &'a AccountInfo,
    /// The token program that moves the refund.
    pub token_program: &'a AccountInfo,
}

impl<'a> CloseOrderAccounts<'a> {
    // Where the request names each account.
    pub const AUTHORITY: usize = 0;
    pub const ORDER: usize = 1;
    pub const CUSTODY: usize = 2;
    pub const MAKER_TOKENS: usize = 3;
    pub const TOKEN_PROGRAM: usize = 4;

    /// How many accounts the request names.
    pub const COUNT: usize = 5;

    /// The first accounts of the list, each in its part.
    pub open spec fn of(accounts: Seq<AccountInfo>) -> Self {
        CloseOrderAccounts {
            authority: &accounts[Self::AUTHORITY as int],
            order: &accounts[Self::ORDER as int],
            custody: &accounts[Self::CUSTODY as int],
            maker_tokens: &accounts[Self::MAKER_TOKENS as int],
            token_program: &accounts[Self::TOKEN_PROGRAM as int],
        }
    }

    /// Takes the accounts of the request from the list. Fails with
    /// `NotEnoughAccountKeys` where the list is too short.
    pub fn parse(accounts: &'a [AccountInfo]) -> (r: Result<Self, SwapError>)
        ensures
            r == (if accounts@.len() < Self::COUNT {
                Err(SwapError::NotEnoughAccountKeys)
            } else {
                Ok(Self::of(accounts@))
            }),
    {
        if accounts.len() < Self::COUNT {
            return Err(SwapError::NotEnoughAccountKeys);
        }
        Ok(
            CloseOrderAccounts {
                authority: &accounts[Self::AUTHORITY],
                order: &accounts[Self::ORDER],
                custody: &accounts[Self::CUSTODY],
                maker_tokens: &accounts[Self::MAKER_TOKENS],
                token_program: &accounts[Self::TOKEN_PROGRAM],
            },
        )
    }
}
} // verus!
