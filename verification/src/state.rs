//! The order record and its byte layout.

use vstd::prelude::*;
use vstd::bytes::{
    lemma_auto_spec_u64_to_from_le_bytes, spec_u64_from_le_bytes, spec_u64_to_le_bytes,
    u64_from_le_bytes, u64_to_le_bytes,
};
use vstd::slice::slice_subrange;
use crate::error::SwapError;
use crate::pubkey::Pubkey;

verus! {

/// Number of bytes an order record occupies.
pub const ORDER_LEN: usize = 145;

/// One maker's standing offer to swap `maker_amount` of one token for
/// `taker_amount` of another.
#[derive(Clone, Copy, Debug, PartialEq, Eq)]
pub struct SwapOrder {
    /// Who deposited the escrow and owns the order.
    pub maker: Pubkey,
    /// Who may settle the order.
    pub taker: Pubkey,
    /// Mint of the token the maker gives.
    pub maker_token_mint: Pubkey,
    /// Mint of the token the maker wants.
    pub taker_token_mint: Pubkey,
    /// Amount the maker gives: the level the escrow is kept at.
    pub maker_amount: u64,
    /// Amount the taker has to pay.
    pub taker_amount: u64,
    /// Bump seed of the address derived for the order.
    pub bump: u8,
}

/// Reads the address stored in `data` at `offset`.
pub(crate) fn read_pubkey(data: &[u8], offset: usize) -> (key: Pubkey)
    requires
        offset + 32 <= data@.len(),
    ensures
        key@ == data@.subrange(offset as int, offset + 32),
{
    let len = data.len();
    let mut bytes = [0u8; 32];
    let mut i: usize = 0;
    while i < 32
        invariant
            i <= 32,
            offset + 32 <= data@.len(),
            data@.len() == len,
            forall|j: int| 0 <= j < i ==> bytes[j] == data@[offset + j],
        decreases 32 - i,
    {
        bytes[i] = data[offset + i];
        i += 1;
    }
    let key = Pubkey(bytes);
    assert(key@ =~= data@.subrange(offset as int, offset + 32));
    key
}

/// Reads the little-endian amount stored in `data` at `offset`.
pub(crate) fn read_u64(data: &[u8], offset: usize) -> (amount: u64)
    requires
        offset + 8 <= data@.len(),
    ensures
        amount == spec_u64_from_le_bytes(data@.subrange(offset as int, offset + 8)),
        spec_u64_to_le_bytes(amount) == data@.subrange(offset as int, offset + 8),
{
    proof {
        lemma_auto_spec_u64_to_from_le_bytes();
    }
    let len = data.len();
    assert(offset + 8 <= len);
    u64_from_le_bytes(slice_subrange(data, offset, offset + 8))
}

impl SwapOrder {
    /// Number of bytes an order record occupies.
    pub const LEN: usize = ORDER_LEN;

    /// The record made of the given fields.
    pub fn new(
        maker: Pubkey,
        taker: Pubkey,
        maker_token_mint: Pubkey,
        taker_token_mint: Pubkey,
        maker_amount: u64,
        taker_amount: u64,
        bump: u8,
    ) -> (order: SwapOrder)
        ensures
            order == (SwapOrder {
                maker,
                taker,
                maker_token_mint,
                taker_token_mint,
                maker_amount,
                taker_amount,
                bump,
            }),
    {
        SwapOrder {
            maker,
            taker,
            maker_token_mint,
            taker_token_mint,
            maker_amount,
            taker_amount,
            bump,
        }
    }

    /// The stored form of the record: its fields in declaration order, the
    /// amounts little-endian.
    pub open spec fn to_bytes(self) -> Seq<u8> {
        self.maker@ + self.taker@ + self.maker_token_mint@ + self.taker_token_mint@
            + spec_u64_to_le_bytes(self.maker_amount) + spec_u64_to_le_bytes(self.taker_amount)
            + seq![self.bump]
    }

    /// The record stored in `data`, which has to be exactly one record long.
    pub open spec fn from_bytes(data: Seq<u8>) -> Option<SwapOrder> {
        if data.len() == ORDER_LEN {
            Some(choose|order: SwapOrder| order.to_bytes() == data)
        } else {
            None
        }
    }

    /// Writes the record in its stored form.
    pub fn serialize(&self) -> (bytes: Vec<u8>)
        ensures
            bytes@ == self.to_bytes(),
            bytes@.len() == ORDER_LEN,
    {
        proof {
            lemma_auto_spec_u64_to_from_le_bytes();
        }
        let mut bytes: Vec<u8> = Vec::with_capacity(ORDER_LEN);
        bytes.extend_from_slice(self.maker.0.as_slice());
        bytes.extend_from_slice(self.taker.0.as_slice());
        bytes.extend_from_slice(self.maker_token_mint.0.as_slice());
        bytes.extend_from_slice(self.taker_token_mint.0.as_slice());
        let maker_amount = u64_to_le_bytes(self.maker_amount);
        bytes.extend_from_slice(maker_amount.as_slice());
        let taker_amount = u64_to_le_bytes(self.taker_amount);
        bytes.extend_from_slice(taker_amount.as_slice());
        bytes.push(self.bump);
        bytes
    }

    /// Reads a record from its stored form. The data has to be exactly one
    /// record long.
    pub fn try_from_slice(data: &[u8]) -> (r: Result<SwapOrder, SwapError>)
        ensures
            r is Ok <==> data@.len() == ORDER_LEN,
            r matches Ok(order) ==> order.to_bytes() == data@ && SwapOrder::from_bytes(data@)
                == Some(order),
            r matches Err(e) ==> e == SwapError::InvalidAccountData && SwapOrder::from_bytes(data@)
                is None,
    {
        if data.len() != ORDER_LEN {
            return Err(SwapError::InvalidAccountData);
        }
        let order = SwapOrder {
            maker: read_pubkey(data, 0),
            taker: read_pubkey(data, 32),
            maker_token_mint: read_pubkey(data, 64),
            taker_token_mint: read_pubkey(data, 96),
            maker_amount: read_u64(data, 128),
            taker_amount: read_u64(data, 136),
            bump: data[144],
        };
        assert(order.to_bytes() =~= data@);
        proof {
            lemma_order_read_back(order);
        }
        Ok(order)
    }
}

/// Every record is stored in exactly `ORDER_LEN` bytes.
pub proof fn lemma_order_bytes_len(order: SwapOrder)
    ensures
        order.to_bytes().len() == ORDER_LEN,
{
    lemma_auto_spec_u64_to_from_le_bytes();
}

/// Two records with the same stored form are the same record, so reading back
/// what was written gives the record that was written.
pub proof fn lemma_order_bytes_injective(a: SwapOrder, b: SwapOrder)
    requires
        a.to_bytes() == b.to_bytes(),
    ensures
        a == b,
{
    lemma_auto_spec_u64_to_from_le_bytes();
    let s = a.to_bytes();
    let t = b.to_bytes();
    assert(a.maker@ =~= s.subrange(0, 32));
    assert(b.maker@ =~= t.subrange(0, 32));
    assert(a.taker@ =~= s.subrange(32, 64));
    assert(b.taker@ =~= t.subrange(32, 64));
    assert(a.maker_token_mint@ =~= s.subrange(64, 96));
    assert(b.maker_token_mint@ =~= t.subrange(64, 96));
    assert(a.taker_token_mint@ =~= s.subrange(96, 128));
    assert(b.taker_token_mint@ =~= t.subrange(96, 128));
    assert(spec_u64_to_le_bytes(a.maker_amount) =~= s.subrange(128, 136));
    assert(spec_u64_to_le_bytes(b.maker_amount) =~= t.subrange(128, 136));
    assert(spec_u64_to_le_bytes(a.taker_amount) =~= s.subrange(136, 144));
    assert(spec_u64_to_le_bytes(b.taker_amount) =~= t.subrange(136, 144));
    assert(a.bump == s[144]);
    assert(b.bump == t[144]);
    assert(a.maker.0 =~= b.maker.0);
    assert(a.taker.0 =~= b.taker.0);
    assert(a.maker_token_mint.0 =~= b.maker_token_mint.0);
    assert(a.taker_token_mint.0 =~= b.taker_token_mint.0);
    assert(spec_u64_from_le_bytes(spec_u64_to_le_bytes(a.maker_amount)) == a.maker_amount);
    assert(spec_u64_from_le_bytes(spec_u64_to_le_bytes(b.maker_amount)) == b.maker_amount);
    assert(spec_u64_from_le_bytes(spec_u64_to_le_bytes(a.taker_amount)) == a.taker_amount);
    assert(spec_u64_from_le_bytes(spec_u64_to_le_bytes(b.taker_amount)) == b.taker_amount);
}

/// Reading the stored form of a record gives the record back.
pub proof fn lemma_order_read_back(order: SwapOrder)
    ensures
        SwapOrder::from_bytes(order.to_bytes()) == Some(order),
{
    lemma_order_bytes_len(order);
    let read = choose|other: SwapOrder| other.to_bytes() == order.to_bytes();
    lemma_order_bytes_injective(read, order);
}

} // verus!
