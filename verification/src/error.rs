//! The ways a swap request can be refused.

use vstd::prelude::*;

verus! {

/// Why a request was refused. A refused request changes nothing.
#[derive(Clone, Copy, Debug, PartialEq, Eq, Hash)]
pub enum SwapError {
    /// The request payload is not an encoded instruction.
    MalformedRequest,
    /// The account list is shorter than the instruction needs.
    NotEnoughAccountKeys,
    /// An account that has to authorize the request did not sign it.
    MissingSigner,
    /// An amount that has to be positive is zero.
    InvalidAmount,
    /// A token account belongs to another owner than expected.
    AccountOwnerMismatch,
    /// A mint is not well formed, or a token account holds another mint than
    /// expected.
    AssetDescriptorMismatch,
    /// The order account is not at the address derived for its record.
    AddressMismatch,
    /// The caller is not the maker of the order.
    AuthorityMismatch,
    /// The caller is not the taker of the order.
    CounterpartyMismatch,
    /// The custody account holds less than the order promises.
    InsufficientFunds,
    /// An argument disagrees with the accounts supplied beside it.
    InvalidArgument,
    /// A program account is not the program the request has to go through.
    IncorrectProgramId,
    /// The data of an account is not what its role requires.
    InvalidAccountData,
}

} // verus!
