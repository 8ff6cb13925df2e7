//! The address derived for an order, which is where its record lives and
//! what signs for its escrow.

use vstd::prelude::*;
use crate::error::SwapError;
use crate::pubkey::Pubkey;

verus! {

/// The tag that starts the seeds of every order address: `order` in ASCII.
pub const ORDER_SEED: [u8; 5] = [111, 114, 100, 101, 114];

/// The program address found for `seeds` under `program_id`, with its bump
/// seed, where there is one.
pub uninterp spec fn program_address(seeds: Seq<Seq<u8>>, program_id: Seq<u8>) -> Option<
    (Seq<u8>, u8),
>;

/// The seeds of the address of the order that `maker` opens for the pair of
/// mints.
pub open spec fn order_seeds(maker: Pubkey, maker_mint: Pubkey, taker_mint: Pubkey) -> Seq<
    Seq<u8>,
> {
    seq![ORDER_SEED@, maker@, maker_mint@, taker_mint@]
}

/// The seeds that sign for the order address: the seeds of the address, then
/// its bump seed.
pub open spec fn order_signer_seeds(
    maker: Pubkey,
    maker_mint: Pubkey,
    taker_mint: Pubkey,
    bump: u8,
) -> Seq<Seq<u8>> {
    order_seeds(maker, maker_mint, taker_mint).push(seq![bump])
}

/// The address and bump seed derived for the order of `maker` and the pair
/// of mints under `program_id`, where there are any.
pub open spec fn order_address(
    program_id: Pubkey,
    maker: Pubkey,
    maker_mint: Pubkey,
    taker_mint: Pubkey,
) -> Option<(Seq<u8>, u8)> {
    program_address(order_seeds(maker, maker_mint, taker_mint), program_id@)
}

/// `solana_program::pubkey::Pubkey::try_find_program_address`: the result,
/// which depends on the seeds and the program address alone, is what
/// `program_address` names.
#[verifier::external_body]
pub(crate) fn find_program_address(seeds: &Vec<Vec<u8>>, program_id: &Pubkey) -> (r: Option<
    (Pubkey, u8),
>)
    ensures
        r matches Some((address, bump)) ==> program_address(seeds.deep_view(), program_id@)
            == Some((address@, bump)),
        r is None ==> program_address(seeds.deep_view(), program_id@) is None,
{
    let seeds: Vec<&[u8]> = seeds.iter().map(|seed| seed.as_slice()).collect();
    solana_program::pubkey::Pubkey::try_find_program_address(&seeds, &program_id.0.into()).map(
        |(address, bump)| (Pubkey(address.to_bytes()), bump),
    )
}

/// A copy of the bytes of `s`.
fn seed_of(s: &[u8]) -> (seed: Vec<u8>)
    ensures
        seed@ == s@,
{
    let mut seed: Vec<u8> = Vec::new();
    seed.extend_from_slice(s);
    seed
}

/// The seeds of the address of the order that `maker` opens for the pair of
/// mints.
pub fn order_seed_list(maker: &Pubkey, maker_mint: &Pubkey, taker_mint: &Pubkey) -> (seeds: Vec<
    Vec<u8>,
>)
    ensures
        seeds.deep_view() == order_seeds(*maker, *maker_mint, *taker_mint),
{
    let mut seeds: Vec<Vec<u8>> = Vec::new();
    seeds.push(seed_of(ORDER_SEED.as_slice()));
    seeds.push(seed_of(maker.0.as_slice()));
    seeds.push(seed_of(maker_mint.0.as_slice()));
    seeds.push(seed_of(taker_mint.0.as_slice()));
    assert(seeds.deep_view() =~~= order_seeds(*maker, *maker_mint, *taker_mint));
    seeds
}

/// The seeds that sign for the order address with the given bump seed.
pub fn order_signer_seed_list(
    maker: &Pubkey,
    maker_mint: &Pubkey,
    taker_mint: &Pubkey,
    bump: u8,
) -> (seeds: Vec<Vec<u8>>)
    ensures
        seeds.deep_view() == order_signer_seeds(*maker, *maker_mint, *taker_mint, bump),
{
    let mut seeds = order_seed_list(maker, maker_mint, taker_mint);
    let mut last: Vec<u8> = Vec::new();
    last.push(bump);
    seeds.push(last);
    assert(seeds.deep_view() =~~= order_signer_seeds(*maker, *maker_mint, *taker_mint, bump));
    seeds
}

/// What comparing the address derived for an order, `derived`, with the
/// address of an account comes to: the bump seed of the derived address
/// where the two are the same.
pub open spec fn order_address_check(derived: (Pubkey, u8), key: Pubkey) -> Result<u8, SwapError> {
    if derived.0 == key {
        Ok(derived.1)
    } else {
        Err(SwapError::AddressMismatch)
    }
}

/// Checks that the account at `key` lies at the address derived for its
/// order, and returns the bump seed of that address. Fails with
/// `AddressMismatch` where it lies elsewhere.
pub fn check_order_address(derived: &(Pubkey, u8), key: &Pubkey) -> (r: Result<u8, SwapError>)
    ensures
        r == order_address_check(*derived, *key),
{
    if derived.0 == *key {
        Ok(derived.1)
    } else {
        Err(SwapError::AddressMismatch)
    }
}

/// Derives the address of the order that `maker` opens for the pair of
/// mints, with its bump seed. Fails with `AddressMismatch` where no address
/// can be derived.
pub fn get_order_pda(
    program_id: &Pubkey,
    maker: &Pubkey,
    maker_mint: &Pubkey,
    taker_mint: &Pubkey,
) -> (r: Result<(Pubkey, u8), SwapError>)
    ensures
        r matches Ok((address, bump)) ==> order_address(
            *program_id,
            *maker,
            *maker_mint,
            *taker_mint,
        ) == Some((address@, bump)),
        r matches Err(e) ==> e == SwapError::AddressMismatch && order_address(
            *program_id,
            *maker,
            *maker_mint,
            *taker_mint,
        ) is None,
{
    let seeds = order_seed_list(maker, maker_mint, taker_mint);
    match find_program_address(&seeds, program_id) {
        Some(found) => Ok(found),
        None => Err(SwapError::AddressMismatch),
    }
}

} // verus!
